use wongus::bridge::{
    bad_request, delivery_failed, fulfil, receive, settle, unavailable, Admission, BridgeReply,
    Fulfilment, ReplyBody, STATUS_BAD_REQUEST, STATUS_OK, STATUS_UNAVAILABLE,
};
use wongus::correlation::{CorrelationTable, FIRST_ID};
use wongus::gate::{Flow, Gate, GateAction, GateEvent};
use wongus::stream::{Stream, StreamAction, StreamEvent, StreamInput};

#[test]
fn status_codes_are_the_http_ones() {
    assert_eq!(STATUS_OK, 200);
    assert_eq!(STATUS_BAD_REQUEST, 400);
    assert_eq!(STATUS_UNAVAILABLE, 503);
    assert_eq!(FIRST_ID, 1);
}

#[test]
fn table_gives_rising_ids_from_one() {
    let mut table: CorrelationTable<&str> = CorrelationTable::new();
    assert_eq!(table.len(), 0);
    assert_eq!(table.allocate(), Some(1));
    assert_eq!(table.allocate(), Some(2));
    assert_eq!(table.allocate(), Some(3));
    assert_eq!(table.len(), 0);
}

#[test]
fn table_keeps_a_slot_until_it_is_taken() {
    let mut table: CorrelationTable<String> = CorrelationTable::new();
    let id = table.allocate().unwrap();
    table.insert(id, "slot".to_string());
    assert!(table.is_waiting(id));
    assert_eq!(table.len(), 1);
    assert_eq!(table.take(id), Some("slot".to_string()));
    assert!(!table.is_waiting(id));
    assert_eq!(table.len(), 0);
}

#[test]
fn taking_a_slot_twice_finds_nothing_the_second_time() {
    let mut table: CorrelationTable<u8> = CorrelationTable::new();
    let first = table.allocate().unwrap();
    let second = table.allocate().unwrap();
    table.insert(first, 10);
    table.insert(second, 20);
    assert_eq!(table.take(first), Some(10));
    assert_eq!(table.take(first), None);
    assert_eq!(table.len(), 1);
    assert!(table.is_waiting(second));
    assert_eq!(table.take(99), None);
    assert_eq!(table.len(), 1);
}

#[test]
fn abandoning_removes_without_fulfilling() {
    let mut table: CorrelationTable<u8> = CorrelationTable::new();
    let id = table.allocate().unwrap();
    table.insert(id, 1);
    table.abandon(id);
    assert!(!table.is_waiting(id));
    table.abandon(id);
    assert_eq!(table.len(), 0);
    assert_eq!(table.allocate(), Some(2));
}

#[test]
fn malformed_body_is_refused_and_leaves_nothing_waiting() {
    let mut table: CorrelationTable<u8> = CorrelationTable::new();
    let admission = receive(&mut table, b"{\"a\": ", 1);
    assert_eq!(
        admission,
        Admission::Refused(BridgeReply {
            status: 400,
            body: ReplyBody::Text("Error parsing request body as JSON".to_string()),
        })
    );
    assert_eq!(table.len(), 0);
    assert!(!table.is_waiting(1));
    assert_eq!(receive(&mut table, b"", 2), Admission::Refused(bad_request()));
    assert_eq!(receive(&mut table, b"\xff", 3), Admission::Refused(bad_request()));
    assert_eq!(table.len(), 0);
}

#[test]
fn malformed_body_uses_up_no_id() {
    let mut table: CorrelationTable<u8> = CorrelationTable::new();
    let _ = receive(&mut table, b"not json", 1);
    match receive(&mut table, b"null", 2) {
        Admission::Forward { id, .. } => assert_eq!(id, 1),
        Admission::Refused(_) => panic!("a JSON body was refused"),
    }
}

#[test]
fn well_formed_body_is_forwarded_under_the_next_id() {
    let mut table: CorrelationTable<&str> = CorrelationTable::new();
    let first = receive(&mut table, b" { \"a\" : [1, 2,  \"x\"] } ", "one");
    assert_eq!(
        first,
        Admission::Forward {
            id: 1,
            script: "return window._wongus.external_ipc(1, {\"a\":[1,2,\"x\"]});".to_string(),
        }
    );
    let second = receive(&mut table, b"\"text\"", "two");
    assert_eq!(
        second,
        Admission::Forward {
            id: 2,
            script: "return window._wongus.external_ipc(2, \"text\");".to_string(),
        }
    );
    assert_eq!(table.len(), 2);
    assert_eq!(fulfil(&mut table, 2), Some("two"));
    assert_eq!(fulfil(&mut table, 1), Some("one"));
    assert_eq!(table.len(), 0);
}

#[test]
fn answer_that_comes_twice_is_harmless() {
    let mut table: CorrelationTable<u8> = CorrelationTable::new();
    let _ = receive(&mut table, b"1", 7);
    let _ = receive(&mut table, b"2", 8);
    assert_eq!(fulfil(&mut table, 1), Some(7));
    assert_eq!(fulfil(&mut table, 1), None);
    assert_eq!(table.len(), 1);
    assert_eq!(fulfil(&mut table, 2), Some(8));
}

#[test]
fn failed_delivery_answers_unavailable_and_removes_the_entry() {
    let mut table: CorrelationTable<u8> = CorrelationTable::new();
    let id = match receive(&mut table, b"{}", 5) {
        Admission::Forward { id, .. } => id,
        Admission::Refused(_) => panic!("a JSON body was refused"),
    };
    assert!(table.is_waiting(id));
    let reply = delivery_failed(&mut table, id);
    assert_eq!(reply, BridgeReply { status: 503, body: ReplyBody::Empty });
    assert!(!table.is_waiting(id));
    assert_eq!(table.len(), 0);
}

#[test]
fn settle_maps_the_outcome_to_a_status() {
    assert_eq!(
        settle(Fulfilment::Returned("{\"n\":1}".to_string())),
        BridgeReply { status: 200, body: ReplyBody::Json("{\"n\":1}".to_string()) }
    );
    assert_eq!(
        settle(Fulfilment::Failed("no handler".to_string())),
        BridgeReply { status: 503, body: ReplyBody::Text("no handler".to_string()) }
    );
    assert_eq!(settle(Fulfilment::Abandoned), unavailable());
    assert_eq!(unavailable(), BridgeReply { status: 503, body: ReplyBody::Empty });
}

#[test]
fn gate_evaluates_scripts_and_waits() {
    let mut gate = Gate::new();
    assert_eq!(
        gate.handle(GateEvent::Script("a()".to_string())),
        (Flow::Wait, GateAction::Evaluate("a()".to_string()))
    );
    assert_eq!(
        gate.handle(GateEvent::ExternalScript { id: 4, script: "b()".to_string() }),
        (Flow::Wait, GateAction::EvaluateForAnswer { id: 4, script: "b()".to_string() })
    );
    assert_eq!(gate.handle(GateEvent::Other), (Flow::Wait, GateAction::Nothing));
    assert!(!gate.closed);
    assert_eq!(gate.finish(), Ok(()));
}

#[test]
fn gate_leaves_the_loop_when_the_window_closes() {
    for event in [GateEvent::Exit, GateEvent::CloseRequested, GateEvent::Destroyed] {
        let mut gate = Gate::new();
        assert_eq!(gate.handle(event), (Flow::Exit, GateAction::Nothing));
        assert!(gate.closed);
        assert_eq!(
            gate.handle(GateEvent::Script("late()".to_string())),
            (Flow::Exit, GateAction::Nothing)
        );
        assert_eq!(gate.finish(), Ok(()));
    }
}

#[test]
fn gate_keeps_the_failure_that_ended_the_loop() {
    let mut gate = Gate::new();
    assert_eq!(
        gate.handle(GateEvent::Fatal("bind failed".to_string())),
        (Flow::Exit, GateAction::Nothing)
    );
    assert_eq!(
        gate.handle(GateEvent::Fatal("second".to_string())),
        (Flow::Exit, GateAction::Nothing)
    );
    assert_eq!(gate.finish(), Err("bind failed".to_string()));
}

#[test]
fn stream_delivers_lines_in_the_order_written() {
    let mut stream = Stream::new(9, "printf".to_string());
    let mut delivered = vec![];
    let mut scripts = vec![];
    for line in ["a", "b", "c"] {
        match stream.feed(StreamInput::Line(line.to_string())) {
            StreamAction::Deliver(event) => {
                scripts.push(event.script());
                delivered.push(event);
            },
            other => panic!("unexpected action {:?}", other),
        }
    }
    assert_eq!(
        delivered,
        vec![
            StreamEvent { stream_id: 9, line: "a".to_string() },
            StreamEvent { stream_id: 9, line: "b".to_string() },
            StreamEvent { stream_id: 9, line: "c".to_string() },
        ]
    );
    assert_eq!(
        scripts,
        vec![
            "(window._wongus.stream_cbs.get(9))(\"a\");".to_string(),
            "(window._wongus.stream_cbs.get(9))(\"b\");".to_string(),
            "(window._wongus.stream_cbs.get(9))(\"c\");".to_string(),
        ]
    );
    assert!(stream.open);
}

#[test]
fn stream_reports_a_normal_end() {
    let mut stream = Stream::new(1, "ls -l".to_string());
    assert_eq!(
        stream.feed(StreamInput::EndOfOutput),
        StreamAction::Close {
            kill: false,
            warning: false,
            message: "Streaming command [ls -l] exited normally".to_string(),
            script: "console.log(\"Streaming command [ls -l] exited normally\");".to_string(),
        }
    );
    assert!(!stream.open);
    assert_eq!(stream.feed(StreamInput::Line("late".to_string())), StreamAction::Ignore);
    assert_eq!(stream.feed(StreamInput::EndOfOutput), StreamAction::Ignore);
}

#[test]
fn stream_is_killed_on_navigation() {
    let mut stream = Stream::new(2, "tail".to_string());
    let _ = stream.feed(StreamInput::Line("x".to_string()));
    assert_eq!(
        stream.feed(StreamInput::Navigated),
        StreamAction::Close {
            kill: true,
            warning: true,
            message: "Streaming command [tail] failed with error: Navigation occurred"
                .to_string(),
            script:
                "console.log(\"Streaming command [tail] failed with error: Navigation occurred\");"
                    .to_string(),
        }
    );
    assert_eq!(stream.feed(StreamInput::Line("y".to_string())), StreamAction::Ignore);
    assert_eq!(stream.feed(StreamInput::Navigated), StreamAction::Ignore);
}

#[test]
fn stream_reports_a_failed_read() {
    let mut stream = Stream::new(2, "cat".to_string());
    assert_eq!(
        stream.feed(StreamInput::ReadFailed("stream did not contain valid UTF-8".to_string())),
        StreamAction::Close {
            kill: false,
            warning: true,
            message: "Streaming command [cat] failed with error: Error reading lines: stream did not contain valid UTF-8"
                .to_string(),
            script: "console.log(\"Streaming command [cat] failed with error: Error reading lines: stream did not contain valid UTF-8\");"
                .to_string(),
        }
    );
    assert!(!stream.open);
}
