use eventsource::Event;

#[test]
fn basic_event_display() {
    assert_eq!(
        "data: hello world\n",
        Event { id: None, event_type: None, data: "hello world".to_string() }.to_string());
    assert_eq!(
        "id: foo\ndata: hello world\n",
        Event { id: Some("foo".to_string()), event_type: None, data: "hello world".to_string() }.to_string());
    assert_eq!(
        "event: bar\ndata: hello world\n",
        Event { id: None, event_type: Some("bar".to_string()), data: "hello world".to_string() }.to_string());
}

#[test]
fn multiline_event_display() {
    assert_eq!(
        "data: hello\ndata: world\n",
        Event { id: None, event_type: None, data: "hello\nworld".to_string() }.to_string());
    assert_eq!(
        "data: hello\ndata: \ndata: world\n",
        Event { id: None, event_type: None, data: "hello\n\nworld".to_string() }.to_string());
}

#[test]
fn display_with_id_type_and_data() {
    let e = Event {
        id: Some("7".to_string()),
        event_type: Some("tick".to_string()),
        data: "a\n".to_string(),
    };
    assert_eq!("id: 7\nevent: tick\ndata: a\n", e.to_string());
}

#[test]
fn display_drops_carriage_return_before_newline() {
    let e = Event { id: None, event_type: None, data: "a\r\nb\r".to_string() };
    assert_eq!("data: a\ndata: b\r\n", e.to_string());
}

#[test]
fn display_of_empty_event_is_empty() {
    assert_eq!("", Event::new().to_string());
    let e = Event { id: None, event_type: None, data: "\n".to_string() };
    assert_eq!("data: \n", e.to_string());
}
