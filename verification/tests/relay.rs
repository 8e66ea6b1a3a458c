use backend_supervisor::relay::{
    output_record, record_of, relay_all, Event, Record, Relay, Stream, Tag,
};

fn line(stream: Stream, text: &str) -> Event {
    Event::OutputLine(stream, text.as_bytes().to_vec())
}

#[test]
fn relay_forwards_in_order_and_stops_at_termination() {
    let events = vec![
        line(Stream::Stdout, "a"),
        line(Stream::Stdout, "b"),
        Event::Terminated(Some(0)),
    ];
    let mut relay = Relay::new();
    let mut sink = Vec::new();
    for event in &events {
        if let Some(record) = relay.forward(event) {
            sink.push(record);
        }
    }
    assert_eq!(
        sink,
        vec![
            Record::Line(Tag::Stdout, "a".to_string()),
            Record::Line(Tag::Stdout, "b".to_string()),
            Record::Exit(Some(0)),
        ]
    );
    assert!(relay.is_finished());
}

#[test]
fn relay_all_gives_the_same_records() {
    let events = vec![
        line(Stream::Stdout, "a"),
        line(Stream::Stdout, "b"),
        Event::Terminated(Some(0)),
    ];
    assert_eq!(
        relay_all(&events),
        vec![
            Record::Line(Tag::Stdout, "a".to_string()),
            Record::Line(Tag::Stdout, "b".to_string()),
            Record::Exit(Some(0)),
        ]
    );
}

#[test]
fn relay_consumes_nothing_after_termination() {
    let events = vec![
        line(Stream::Stderr, "last words"),
        Event::Terminated(None),
        line(Stream::Stdout, "never seen"),
        Event::Terminated(Some(1)),
    ];
    assert_eq!(
        relay_all(&events),
        vec![Record::Line(Tag::Stderr, "last words".to_string()), Record::Exit(None)]
    );
}

#[test]
fn relay_that_is_done_forwards_nothing() {
    let mut relay = Relay::new();
    assert!(!relay.is_finished());
    assert_eq!(relay.forward(&Event::Terminated(Some(3))), Some(Record::Exit(Some(3))));
    assert!(relay.is_finished());
    assert_eq!(relay.forward(&line(Stream::Stdout, "late")), None);
    assert_eq!(relay.forward(&Event::Terminated(Some(4))), None);
    assert!(relay.is_finished());
}

#[test]
fn relay_without_termination_forwards_everything() {
    let events = vec![
        line(Stream::Stdout, "one"),
        Event::TerminalError("pipe closed".to_string()),
        Event::Unknown,
        line(Stream::Stderr, "two"),
    ];
    assert_eq!(
        relay_all(&events),
        vec![
            Record::Line(Tag::Stdout, "one".to_string()),
            Record::Line(Tag::Error, "pipe closed".to_string()),
            Record::Line(Tag::Info, "Received unknown command event".to_string()),
            Record::Line(Tag::Stderr, "two".to_string()),
        ]
    );
    assert_eq!(relay_all(&Vec::new()), Vec::new());
}

#[test]
fn source_error_does_not_stop_the_relay() {
    let mut relay = Relay::new();
    assert_eq!(
        relay.forward(&Event::TerminalError("read failed".to_string())),
        Some(Record::Line(Tag::Error, "read failed".to_string()))
    );
    assert!(!relay.is_finished());
    assert_eq!(
        relay.forward(&line(Stream::Stdout, "still here")),
        Some(Record::Line(Tag::Stdout, "still here".to_string()))
    );
}

#[test]
fn unknown_event_becomes_a_note() {
    let mut relay = Relay::new();
    assert_eq!(
        relay.forward(&Event::Unknown),
        Some(Record::Line(Tag::Info, "Received unknown command event".to_string()))
    );
    assert!(!relay.is_finished());
}

#[test]
fn termination_without_a_code_is_forwarded_as_unknown_status() {
    assert_eq!(record_of(&Event::Terminated(None)), Record::Exit(None));
    assert_eq!(record_of(&Event::Terminated(Some(-9))), Record::Exit(Some(-9)));
}

#[test]
fn output_bytes_are_decoded_as_utf8() {
    let bytes = "zwölf €".as_bytes().to_vec();
    assert_eq!(
        record_of(&Event::OutputLine(Stream::Stdout, bytes)),
        Record::Line(Tag::Stdout, "zwölf €".to_string())
    );
    assert_eq!(
        record_of(&Event::OutputLine(Stream::Stderr, Vec::new())),
        Record::Line(Tag::Stderr, String::new())
    );
}

#[test]
fn invalid_bytes_are_replaced() {
    let bytes = vec![b'o', b'k', 0xff, b'!'];
    assert_eq!(
        record_of(&Event::OutputLine(Stream::Stdout, bytes)),
        Record::Line(Tag::Stdout, "ok\u{fffd}!".to_string())
    );
}

#[test]
fn output_record_tags_by_stream() {
    assert_eq!(
        output_record(Stream::Stdout, "x".to_string()),
        Record::Line(Tag::Stdout, "x".to_string())
    );
    assert_eq!(
        output_record(Stream::Stderr, "y".to_string()),
        Record::Line(Tag::Stderr, "y".to_string())
    );
}
