[package]
name = "wongus"
version = "0.1.0"
edition = "2021"
publish = false

[dependencies]
aargvark = "*"
flowcontrol = "*"
gtk = "*"
gtk-layer-shell = "*"
http = "*"
http-body-util = "*"
hyper = { version = "*", default-features = false, features = ["server", "http1"] }
hyper-util = { version = "*", default-features = false, features = ["server-auto", "tokio"] }
loga = "*"
mime_guess = "*"
serde = { version = "*", features = ["derive"] }
serde_json = "*"
tao = { version = "*", default-features = false }
tokio = { version = "*", default-features = false, features = ["rt", "process", "io-util", "net", "sync", "time", "macros", "fs"] }
wry = "*"
