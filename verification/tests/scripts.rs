use wongus::args::ArgKv;
use wongus::script::{
    console_script, external_script, response_script, startup_script, stream_script,
};
use wongus::text::{decimal_string, signed_decimal_string};

#[test]
fn decimal_of_zero_is_a_single_digit() {
    assert_eq!(decimal_string(0), "0");
}

#[test]
fn decimal_of_small_and_large_numbers() {
    assert_eq!(decimal_string(7), "7");
    assert_eq!(decimal_string(10), "10");
    assert_eq!(decimal_string(1234567890), "1234567890");
    assert_eq!(decimal_string(u64::MAX), "18446744073709551615");
}

#[test]
fn decimal_agrees_with_the_standard_rendering() {
    let mut n: u64 = 1;
    for _ in 0..19 {
        assert_eq!(decimal_string(n), n.to_string());
        assert_eq!(decimal_string(n - 1), (n - 1).to_string());
        n = n.wrapping_mul(10);
    }
}

#[test]
fn response_script_names_the_request() {
    assert_eq!(response_script(7, "{}"), "(window._wongus.responses.get(7))({});");
    assert_eq!(
        response_script(120, "{\"pid\":4}"),
        "(window._wongus.responses.get(120))({\"pid\":4});"
    );
}

#[test]
fn stream_script_quotes_the_line() {
    assert_eq!(stream_script(3, "a"), "(window._wongus.stream_cbs.get(3))(\"a\");");
    assert_eq!(
        stream_script(3, "say \"hi\"\\now"),
        "(window._wongus.stream_cbs.get(3))(\"say \\\"hi\\\"\\\\now\");"
    );
}

#[test]
fn stream_script_escapes_control_characters() {
    assert_eq!(
        stream_script(0, "tab\there"),
        "(window._wongus.stream_cbs.get(0))(\"tab\\there\");"
    );
}

#[test]
fn external_script_passes_id_and_payload() {
    assert_eq!(
        external_script(1, "{\"a\":1}"),
        "return window._wongus.external_ipc(1, {\"a\":1});"
    );
}

#[test]
fn console_script_quotes_the_message() {
    assert_eq!(console_script("done"), "console.log(\"done\");");
    assert_eq!(console_script("a\nb"), "console.log(\"a\\nb\");");
}

#[test]
fn startup_script_sets_environment_then_arguments() {
    let environment = vec![
        ("HOME".to_string(), "/root".to_string()),
        ("QUOTE".to_string(), "a\"b".to_string()),
    ];
    let arguments = vec![("mode".to_string(), "dark".to_string())];
    assert_eq!(
        startup_script(&environment, &arguments),
        "wongus.env.set(\"HOME\", \"/root\");\nwongus.env.set(\"QUOTE\", \"a\\\"b\");\nwongus.args.set(\"mode\", \"dark\");\n"
    );
}

#[test]
fn startup_script_of_nothing_is_empty() {
    assert_eq!(startup_script(&vec![], &vec![]), "");
}

#[test]
fn argument_splits_at_the_first_equals_sign() {
    let kv = ArgKv::from_str("a=b=c").unwrap();
    assert_eq!(kv.k, "a");
    assert_eq!(kv.v, "b=c");
}

#[test]
fn argument_may_have_an_empty_key_or_value() {
    assert_eq!(
        ArgKv::from_str("=x"),
        Ok(ArgKv { k: "".to_string(), v: "x".to_string() })
    );
    assert_eq!(
        ArgKv::from_str("x="),
        Ok(ArgKv { k: "x".to_string(), v: "".to_string() })
    );
    assert_eq!(
        ArgKv::from_str("="),
        Ok(ArgKv { k: "".to_string(), v: "".to_string() })
    );
}

#[test]
fn argument_with_wide_characters_splits_by_character() {
    let kv = ArgKv::from_str("grüße=wörld €").unwrap();
    assert_eq!(kv.k, "grüße");
    assert_eq!(kv.v, "wörld €");
}

#[test]
fn argument_without_equals_sign_is_refused() {
    assert_eq!(
        ArgKv::from_str("abc"),
        Err("All arguments must be in the form KEY=VALUE here, but got [abc]".to_string())
    );
    assert_eq!(
        ArgKv::from_str(""),
        Err("All arguments must be in the form KEY=VALUE here, but got []".to_string())
    );
}

#[test]
fn help_pattern_shows_the_form() {
    assert_eq!(ArgKv::build_help_pattern(), "KEY=VALUE");
}

#[test]
fn content_url_uses_the_content_protocol() {
    assert_eq!(
        wongus::script::content_url("/home/me/bar/index.html"),
        "filex://x/home/me/bar/index.html"
    );
}

#[test]
fn signed_decimal_writes_the_sign_of_negative_numbers() {
    assert_eq!(signed_decimal_string(0), "0");
    assert_eq!(signed_decimal_string(42), "42");
    assert_eq!(signed_decimal_string(-42), "-42");
    assert_eq!(signed_decimal_string(i32::MAX), "2147483647");
    assert_eq!(signed_decimal_string(i32::MIN), "-2147483648");
}
