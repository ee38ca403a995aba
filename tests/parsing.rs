use eventsource::client::{Action, Client, Error, Signal, DEFAULT_RETRY};
use eventsource::parser::ParseResult;
use eventsource::{parse_retry, Event};

fn client() -> Client {
    Client::new(hyper::Url::parse("http://localhost:8080/events").unwrap())
}

fn connected() -> Client {
    let mut c = client();
    assert!(matches!(c.step(Signal::Pull), Action::Connect(None)));
    assert!(matches!(c.step(Signal::Status(200)), Action::ReadLine));
    c
}

fn feed(c: &mut Client, line: &str) -> Action {
    c.step(Signal::Line(line.to_string()))
}

#[test]
fn new_client_defaults() {
    let c = client();
    assert!(!c.is_connected());
    assert_eq!(c.retry(), DEFAULT_RETRY);
    assert_eq!(c.retry(), 5000);
    assert_eq!(c.last_event_id(), &None);
    assert_eq!(c.url().as_str(), "http://localhost:8080/events");
}

#[test]
fn data_lines_are_joined_in_order() {
    let mut c = connected();
    assert!(matches!(feed(&mut c, "data: first\n"), Action::ReadLine));
    assert!(matches!(feed(&mut c, "data:second\n"), Action::ReadLine));
    assert!(matches!(feed(&mut c, "data:  third"), Action::ReadLine));
    match feed(&mut c, "\n") {
        Action::Emit(e) => {
            assert_eq!(e.data, "first\nsecond\n third\n");
            assert_eq!(e.id, None);
            assert_eq!(e.event_type, None);
        }
        other => panic!("unexpected {:?}", other),
    }
}

#[test]
fn id_line_sets_last_event_id_and_resumes() {
    let mut c = connected();
    feed(&mut c, "id: 42\n");
    assert_eq!(c.last_event_id(), &Some("42".to_string()));
    match feed(&mut c, "") {
        Action::Emit(e) => assert_eq!(e.id, Some("42".to_string())),
        other => panic!("unexpected {:?}", other),
    }
    assert!(matches!(c.step(Signal::EndOfStream), Action::Sleep(5000)));
    assert!(!c.is_connected());
    match c.step(Signal::Woke) {
        Action::Connect(Some(id)) => assert_eq!(id, "42"),
        other => panic!("unexpected {:?}", other),
    }
    assert_eq!(c.next_request(), Some("42".to_string()));
}

#[test]
fn retry_line_updates_interval() {
    let mut c = connected();
    feed(&mut c, "retry: 1500\n");
    assert_eq!(c.retry(), 1500);
    feed(&mut c, "retry: soon\n");
    assert_eq!(c.retry(), 1500);
    feed(&mut c, "retry\n");
    assert_eq!(c.retry(), 1500);
    feed(&mut c, "retry: -3\n");
    assert_eq!(c.retry(), 1500);
    feed(&mut c, "retry:+20");
    assert_eq!(c.retry(), 20);
    assert!(matches!(c.step(Signal::EndOfStream), Action::Sleep(20)));
}

#[test]
fn unknown_field_changes_nothing() {
    let mut c = connected();
    let mut e = Event::new();
    assert_eq!(c.parse_event_line("foo: bar\n", &mut e), ParseResult::Next);
    assert_eq!(c.parse_event_line(": a comment\n", &mut e), ParseResult::Next);
    assert_eq!(c.parse_event_line("Data: upper\n", &mut e), ParseResult::Next);
    assert_eq!(e.id, None);
    assert_eq!(e.event_type, None);
    assert_eq!(e.data, "");
    assert_eq!(c.retry(), 5000);
    assert_eq!(c.last_event_id(), &None);
}

#[test]
fn event_line_sets_type_and_overwrites() {
    let mut c = client();
    let mut e = Event::new();
    c.parse_event_line("event: one\n", &mut e);
    c.parse_event_line("event:two", &mut e);
    assert_eq!(e.event_type, Some("two".to_string()));
    assert_eq!(c.parse_event_line("\n", &mut e), ParseResult::Dispatch);
    assert_eq!(e.event_type, Some("two".to_string()));
}

#[test]
fn line_without_colon_has_empty_value() {
    let mut c = client();
    let mut e = Event::new();
    c.parse_event_line("data\n", &mut e);
    c.parse_event_line("id", &mut e);
    assert_eq!(e.data, "\n");
    assert_eq!(e.id, Some("".to_string()));
    assert_eq!(c.last_event_id(), &Some("".to_string()));
}

#[test]
fn carriage_return_stays_in_value() {
    let mut c = client();
    let mut e = Event::new();
    c.parse_event_line("data: x\r\n", &mut e);
    assert_eq!(e.data, "x\r\n");
    assert_eq!(c.parse_event_line("\r\n", &mut e), ParseResult::Next);
}

#[test]
fn blank_line_gives_empty_event() {
    let mut c = connected();
    assert!(matches!(c.step(Signal::Pull), Action::ReadLine));
    match feed(&mut c, "\n") {
        Action::Emit(e) => {
            assert_eq!(e.id, None);
            assert_eq!(e.event_type, None);
            assert_eq!(e.data, "");
        }
        other => panic!("unexpected {:?}", other),
    }
}

#[test]
fn clean_end_reconnects_then_bad_status_fails() {
    let mut c = connected();
    feed(&mut c, "id: 9\n");
    feed(&mut c, "data: partial\n");
    assert!(matches!(c.step(Signal::EndOfStream), Action::Sleep(5000)));
    match c.step(Signal::Woke) {
        Action::Connect(Some(id)) => assert_eq!(id, "9"),
        other => panic!("unexpected {:?}", other),
    }
    assert!(matches!(c.step(Signal::Status(503)), Action::Fail(Error::Http(503))));
    assert!(!c.is_connected());
    match c.step(Signal::Pull) {
        Action::Connect(Some(id)) => assert_eq!(id, "9"),
        other => panic!("unexpected {:?}", other),
    }
    assert!(matches!(c.step(Signal::Status(204)), Action::ReadLine));
    match feed(&mut c, "\n") {
        Action::Emit(e) => assert_eq!(e.data, ""),
        other => panic!("unexpected {:?}", other),
    }
}

#[test]
fn failures_close_the_stream() {
    let mut c = connected();
    assert!(matches!(c.step(Signal::ReadError), Action::Fail(Error::Io)));
    assert!(!c.is_connected());
    assert!(matches!(c.step(Signal::Pull), Action::Connect(None)));
    assert!(matches!(c.step(Signal::TransportError), Action::Fail(Error::Transport)));
    assert!(!c.is_connected());
    assert!(matches!(c.step(Signal::Status(199)), Action::Fail(Error::Http(199))));
    assert!(matches!(c.step(Signal::Status(300)), Action::Fail(Error::Http(300))));
    assert!(matches!(c.step(Signal::Status(299)), Action::ReadLine));
}

#[test]
fn retry_values_read_like_std() {
    assert_eq!(parse_retry("0"), Some(0));
    assert_eq!(parse_retry("+7"), Some(7));
    assert_eq!(parse_retry("18446744073709551615"), Some(u64::MAX));
    assert_eq!(parse_retry("18446744073709551616"), None);
    assert_eq!(parse_retry("99999999999999999999x"), None);
    assert_eq!(parse_retry(""), None);
    assert_eq!(parse_retry("+"), None);
    assert_eq!(parse_retry("-1"), None);
    assert_eq!(parse_retry(" 1"), None);
    assert_eq!(parse_retry("12a"), None);
}
