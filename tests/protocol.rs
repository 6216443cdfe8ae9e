use sn0int::protocol::{decode_event, encode_event, recv_event, take_line, Event, ExitEvent, LogEvent, RecvError};

fn all_events() -> Vec<Event> {
    vec![
        Event::Log(LogEvent::Info("hello".to_string())),
        Event::Log(LogEvent::Warn("careful \"quoted\"".to_string())),
        Event::Log(LogEvent::Error("line one\nline two".to_string())),
        Event::Database("{\"insert\":{\"domain\":\"example.com\"}}".to_string()),
        Event::Stdio("prompt: ".to_string()),
        Event::Exit(ExitEvent::Success),
        Event::Exit(ExitEvent::Failure("boom".to_string())),
        Event::Log(LogEvent::Info(String::new())),
        Event::Log(LogEvent::Info("}} {\"Exit\":\"Ok\"} \u{e9}\u{1F600}\t\\".to_string())),
    ]
}

fn same(a: &Event, b: &Event) -> bool {
    match (a, b) {
        (Event::Log(LogEvent::Info(x)), Event::Log(LogEvent::Info(y))) => x == y,
        (Event::Log(LogEvent::Warn(x)), Event::Log(LogEvent::Warn(y))) => x == y,
        (Event::Log(LogEvent::Error(x)), Event::Log(LogEvent::Error(y))) => x == y,
        (Event::Database(x), Event::Database(y)) => x == y,
        (Event::Stdio(x), Event::Stdio(y)) => x == y,
        (Event::Exit(ExitEvent::Success), Event::Exit(ExitEvent::Success)) => true,
        (Event::Exit(ExitEvent::Failure(x)), Event::Exit(ExitEvent::Failure(y))) => x == y,
        _ => false,
    }
}

#[test]
fn encodes_log_line() {
    let line = encode_event(&Event::Log(LogEvent::Info("hello".to_string())));
    assert_eq!(line, "{\"Log\":{\"Info\":\"hello\"}}\n");
}

#[test]
fn encodes_exit_lines() {
    assert_eq!(encode_event(&Event::Exit(ExitEvent::Success)), "{\"Exit\":\"Ok\"}\n");
    assert_eq!(
        encode_event(&Event::Exit(ExitEvent::Failure("boom".to_string()))),
        "{\"Exit\":{\"Err\":\"boom\"}}\n"
    );
}

#[test]
fn encodes_requests() {
    assert_eq!(encode_event(&Event::Database("q".to_string())), "{\"Database\":\"q\"}\n");
    assert_eq!(encode_event(&Event::Stdio("p".to_string())), "{\"Stdio\":\"p\"}\n");
}

#[test]
fn payload_newline_is_escaped() {
    let line = encode_event(&Event::Log(LogEvent::Error("a\nb".to_string())));
    assert_eq!(line, "{\"Log\":{\"Error\":\"a\\nb\"}}\n");
    assert_eq!(line.matches('\n').count(), 1);
}

#[test]
fn every_event_round_trips() {
    for e in all_events() {
        let line = encode_event(&e);
        let back = recv_event(&line).expect("encoded line must decode");
        assert!(same(&e, &back), "{:?} came back as {:?}", e, back);
    }
}

#[test]
fn decodes_without_newline() {
    let back = decode_event("{\"Exit\":{\"Err\":\"boom\"}}").unwrap();
    assert!(matches!(back, Event::Exit(ExitEvent::Failure(ref m)) if m == "boom"));
}

#[test]
fn closed_stream_is_reported() {
    assert_eq!(recv_event("").unwrap_err(), RecvError::Closed);
    assert_eq!(take_line("").unwrap_err(), RecvError::Closed);
}

#[test]
fn take_line_strips_newline() {
    assert_eq!(take_line("abc\n").unwrap(), "abc");
    assert_eq!(take_line("abc").unwrap(), "abc");
    assert_eq!(take_line("\n").unwrap(), "");
}

#[test]
fn malformed_lines_are_rejected() {
    let bad = [
        "garbage\n",
        "\n",
        "{\"Foo\":\"x\"}\n",
        "{\"Log\":{\"Info\":42}}\n",
        "{\"Log\":{\"Debug\":\"x\"}}\n",
        "{\"Exit\":\"Ok\"}}\n",
        "{\"Database\":\"unterminated}\n",
        "{\"Log\":{\"Info\":\"x\"}\n",
    ];
    for b in bad.iter() {
        assert_eq!(recv_event(b).unwrap_err(), RecvError::Malformed, "{:?}", b);
    }
}
