use wongus::error::{Captured, HandlerError, TextSource};
use wongus::process::ProcessRunResult;
use wongus::reply::{
    detached_reply, listing_reply, read_reply, render_failure, run_reply, Reply, Response,
};
use wongus::request::{
    accept, assign, log_line, plan_launch, Assignment, CommandSpec, Dispatch, Envelope, Launch,
    RequestVariant, Work,
};

fn words(list: &[&str]) -> Vec<String> {
    list.iter().map(|w| w.to_string()).collect()
}

fn command(list: &[&str]) -> CommandSpec {
    CommandSpec {
        command: words(list),
        working_dir: Some("/tmp".to_string()),
        environment: vec![("K".to_string(), "V".to_string())],
    }
}

fn launch(program: &str, arguments: &[&str]) -> Launch {
    Launch {
        program: program.to_string(),
        arguments: words(arguments),
        working_dir: Some("/tmp".to_string()),
        environment: vec![("K".to_string(), "V".to_string())],
    }
}

#[test]
fn undecodable_message_is_dropped() {
    assert_eq!(accept(None), Dispatch::Dropped);
}

#[test]
fn assignment_keeps_the_correlation_id() {
    let envelope =
        Envelope { correlation_id: 41, variant: RequestVariant::Log("hello".to_string()) };
    assert_eq!(
        accept(Some(envelope)),
        Dispatch::Assigned(Assignment {
            correlation_id: 41,
            work: Work::Log { message: "hello".to_string() },
        })
    );
}

#[test]
fn response_keeps_the_correlation_id_of_its_request() {
    for id in [0u64, 1, 9, 10, 77, u64::MAX] {
        let envelope =
            Envelope { correlation_id: id, variant: RequestVariant::FileExists("/x".to_string()) };
        let assignment = match accept(Some(envelope)) {
            Dispatch::Assigned(assignment) => assignment,
            Dispatch::Dropped => panic!("a decoded request was dropped"),
        };
        let response = assignment.respond(Ok(Reply::Exists(true)));
        assert_eq!(response.correlation_id, id);
        assert_eq!(
            response.script(),
            format!("(window._wongus.responses.get({}))(true);", id)
        );
    }
}

#[test]
fn file_requests_are_passed_to_their_handlers() {
    assert_eq!(
        assign(RequestVariant::ListDirectory("/d".to_string())),
        Work::ListDirectory { path: "/d".to_string() }
    );
    assert_eq!(
        assign(RequestVariant::FileExists("/f".to_string())),
        Work::FileExists { path: "/f".to_string() }
    );
    assert_eq!(
        assign(RequestVariant::ReadFile("/r".to_string())),
        Work::ReadFile { path: "/r".to_string() }
    );
}

#[test]
fn run_command_gets_the_default_timeout() {
    assert_eq!(
        assign(RequestVariant::RunCommand { command: command(&["ls", "-l", "/"]), timeout_secs: None }),
        Work::Run { launch: launch("ls", &["-l", "/"]), timeout_secs: 10 }
    );
}

#[test]
fn run_command_keeps_a_requested_timeout() {
    assert_eq!(
        assign(RequestVariant::RunCommand { command: command(&["true"]), timeout_secs: Some(2) }),
        Work::Run { launch: launch("true", &[]), timeout_secs: 2 }
    );
}

#[test]
fn detached_and_streaming_commands_are_taken_apart() {
    assert_eq!(
        assign(RequestVariant::RunDetached { command: command(&["sleep", "100"]) }),
        Work::Detach { launch: launch("sleep", &["100"]) }
    );
    assert_eq!(
        assign(RequestVariant::RunStreaming { stream_id: 5, command: command(&["tail", "-f", "x"]) }),
        Work::Stream { stream_id: 5, launch: launch("tail", &["-f", "x"]) }
    );
}

#[test]
fn empty_command_line_is_a_failure_in_every_mode() {
    assert_eq!(
        assign(RequestVariant::RunCommand { command: command(&[]), timeout_secs: Some(1) }),
        Work::Fail(HandlerError::EmptyCommand)
    );
    assert_eq!(
        assign(RequestVariant::RunDetached { command: command(&[]) }),
        Work::Fail(HandlerError::EmptyCommand)
    );
    assert_eq!(
        assign(RequestVariant::RunStreaming { stream_id: 1, command: command(&[]) }),
        Work::Fail(HandlerError::EmptyCommand)
    );
    assert_eq!(plan_launch(command(&[])), Err(HandlerError::EmptyCommand));
}

#[test]
fn plan_launch_splits_program_and_arguments() {
    assert_eq!(plan_launch(command(&["a", "b", "c"])), Ok(launch("a", &["b", "c"])));
}

#[test]
fn log_line_is_prefixed() {
    assert_eq!(log_line("started"), "wongus.log: started");
}

#[test]
fn replies_are_written_as_compact_json() {
    assert_eq!(Reply::Empty.render(), "{}");
    assert_eq!(Reply::Exists(true).render(), "true");
    assert_eq!(Reply::Exists(false).render(), "false");
    assert_eq!(Reply::Text("a \"b\"".to_string()).render(), "\"a \\\"b\\\"\"");
    assert_eq!(Reply::Pid(4711).render(), "{\"pid\":4711}");
    assert_eq!(Reply::Pid(u32::MAX).render(), "{\"pid\":4294967295}");
    assert_eq!(
        Reply::Output(ProcessRunResult {
            exit_status: 0,
            stdout: "o\n".to_string(),
            stderr: "e".to_string(),
        })
        .render(),
        "{\"stderr\":\"e\",\"stdout\":\"o\\n\"}"
    );
}

#[test]
fn listings_are_written_as_json_arrays() {
    assert_eq!(Reply::Listing(vec![]).render(), "[]");
    assert_eq!(Reply::Listing(words(&["/a"])).render(), "[\"/a\"]");
    assert_eq!(Reply::Listing(words(&["/a", "/b \"c\"", "/d"])).render(), "[\"/a\",\"/b \\\"c\\\"\",\"/d\"]");
}

#[test]
fn rendered_replies_are_json_that_reads_back() {
    let text = Reply::Output(ProcessRunResult {
        exit_status: 0,
        stdout: "line\n\ttab \u{1f600}".to_string(),
        stderr: "\u{0}".to_string(),
    })
    .render();
    let value: serde_json::Value = serde_json::from_str(&text).unwrap();
    assert_eq!(value.get("stdout").unwrap().as_str().unwrap(), "line\n\ttab \u{1f600}");
    assert_eq!(value.get("stderr").unwrap().as_str().unwrap(), "\u{0}");
    let listing = Reply::Listing(words(&["x", "y"])).render();
    let value: serde_json::Value = serde_json::from_str(&listing).unwrap();
    assert_eq!(value.as_array().unwrap().len(), 2);
}

#[test]
fn failures_are_written_as_err_objects() {
    assert_eq!(
        render_failure(&HandlerError::Timeout),
        "{\"err\":\"Command execution duration exceeded timeout\"}"
    );
    assert_eq!(render_failure(&HandlerError::Cancelled), "{\"err\":\"Navigation occurred\"}");
    let response = Response { correlation_id: 3, body: Err(HandlerError::EmptyCommand) };
    assert_eq!(
        response.script(),
        "(window._wongus.responses.get(3))({\"err\":\"Commandline is empty\"});"
    );
}

#[test]
fn run_reply_wraps_the_output() {
    let result =
        ProcessRunResult { exit_status: 0, stdout: "o".to_string(), stderr: "".to_string() };
    assert_eq!(run_reply(Ok(result.clone())), Ok(Reply::Output(result)));
    assert_eq!(run_reply(Err(HandlerError::Timeout)), Err(HandlerError::Timeout));
}

#[test]
fn detached_reply_is_the_process_identifier() {
    assert_eq!(detached_reply(Ok(4242)), Ok(Reply::Pid(4242)));
    assert_eq!(
        detached_reply(Err("not found".to_string())),
        Err(HandlerError::SpawnFailure("not found".to_string()))
    );
}

#[test]
fn read_reply_is_the_text_of_the_file() {
    assert_eq!(
        read_reply(Ok("gr\u{fc}n".as_bytes().to_vec())),
        Ok(Reply::Text("gr\u{fc}n".to_string()))
    );
    assert_eq!(read_reply(Ok(vec![])), Ok(Reply::Text(String::new())));
}

#[test]
fn read_reply_refuses_bytes_that_are_no_text() {
    assert_eq!(
        read_reply(Ok(vec![0x66, 0xff, 0x6f])),
        Err(HandlerError::Encoding(TextSource::File))
    );
}

#[test]
fn read_reply_reports_a_failed_read() {
    assert_eq!(
        read_reply(Err("permission denied".to_string())),
        Err(HandlerError::ReadFailure("permission denied".to_string()))
    );
}

#[test]
fn listing_reply_keeps_order_and_skips_paths_that_are_no_text() {
    assert_eq!(
        listing_reply(Ok(vec![
            Some("/a".to_string()),
            None,
            Some("/b".to_string()),
            Some("/c".to_string()),
            None,
        ])),
        Ok(Reply::Listing(words(&["/a", "/b", "/c"])))
    );
    assert_eq!(listing_reply(Ok(vec![])), Ok(Reply::Listing(vec![])));
    assert_eq!(listing_reply(Ok(vec![None])), Ok(Reply::Listing(vec![])));
}

#[test]
fn listing_reply_reports_a_failed_listing() {
    assert_eq!(
        listing_reply(Err("no such directory".to_string())),
        Err(HandlerError::ListFailure("no such directory".to_string()))
    );
}

#[test]
fn unsuccessful_exit_is_written_with_what_was_captured() {
    assert_eq!(
        render_failure(&HandlerError::ExitFailure {
            exit_code: Some(3),
            stdout: Captured::Text("half\n".to_string()),
            stderr: Captured::Text("boom".to_string()),
        }),
        "{\"err\":\"Command exited with unsuccessful status\",\"exit_code\":3,\"stderr\":\"boom\",\"stdout\":\"half\\n\"}"
    );
}

#[test]
fn unsuccessful_exit_without_code_or_text_is_written_with_nulls() {
    assert_eq!(
        render_failure(&HandlerError::ExitFailure {
            exit_code: None,
            stdout: Captured::Bytes(vec![0xff]),
            stderr: Captured::Text(String::new()),
        }),
        "{\"err\":\"Command exited with unsuccessful status\",\"exit_code\":null,\"stderr\":\"\",\"stdout\":null}"
    );
}

#[test]
fn negative_exit_codes_are_written_with_their_sign() {
    let text = render_failure(&HandlerError::ExitFailure {
        exit_code: Some(-1),
        stdout: Captured::Text(String::new()),
        stderr: Captured::Text(String::new()),
    });
    assert_eq!(
        text,
        "{\"err\":\"Command exited with unsuccessful status\",\"exit_code\":-1,\"stderr\":\"\",\"stdout\":\"\"}"
    );
    let least = render_failure(&HandlerError::ExitFailure {
        exit_code: Some(i32::MIN),
        stdout: Captured::Bytes(vec![]),
        stderr: Captured::Bytes(vec![]),
    });
    assert_eq!(
        least,
        "{\"err\":\"Command exited with unsuccessful status\",\"exit_code\":-2147483648,\"stderr\":null,\"stdout\":null}"
    );
}

#[test]
fn request_environment_goes_on_top_of_the_host_environment() {
    let launch = Launch {
        program: "env".to_string(),
        arguments: vec![],
        working_dir: None,
        environment: vec![
            ("PATH".to_string(), "/opt/bin".to_string()),
            ("EXTRA".to_string(), "1".to_string()),
        ],
    };
    let host = vec![
        ("HOME".to_string(), "/root".to_string()),
        ("PATH".to_string(), "/usr/bin".to_string()),
    ];
    let full = launch.environment_over(host);
    assert_eq!(
        full,
        vec![
            ("HOME".to_string(), "/root".to_string()),
            ("PATH".to_string(), "/usr/bin".to_string()),
            ("PATH".to_string(), "/opt/bin".to_string()),
            ("EXTRA".to_string(), "1".to_string()),
        ]
    );
    let set: std::collections::HashMap<String, String> = full.into_iter().collect();
    assert_eq!(set.len(), 3);
    assert_eq!(set.get("PATH").unwrap(), "/opt/bin");
    assert_eq!(set.get("HOME").unwrap(), "/root");
    assert_eq!(set.get("EXTRA").unwrap(), "1");
}

#[test]
fn host_environment_alone_is_kept_as_it_is() {
    let launch = Launch {
        program: "env".to_string(),
        arguments: vec![],
        working_dir: None,
        environment: vec![],
    };
    let host = vec![("A".to_string(), "1".to_string())];
    assert_eq!(launch.environment_over(host.clone()), host);
    assert_eq!(launch.environment_over(vec![]), vec![]);
}
