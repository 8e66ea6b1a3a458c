//! The event relay: what becomes of each event of the child's event stream,
//! and when the relay is done.

use vstd::prelude::*;
use vstd::utf8::{decode_utf8, valid_utf8};

verus! {

/// The output stream of the child that a line was written to.
#[derive(Clone, Copy, Debug, PartialEq, Eq, Structural)]
pub enum Stream {
    Stdout,
    Stderr,
}

/// One event of the child's event stream.
#[derive(Debug, PartialEq, Eq)]
pub enum Event {
    /// A line of output, as the bytes that the child wrote.
    OutputLine(Stream, Vec<u8>),
    /// An error of the event source itself.
    TerminalError(String),
    /// The child has terminated, with its exit code where one is known.
    Terminated(Option<i32>),
    /// An event of a kind that the relay does not know.
    Unknown,
}

/// Where a forwarded line belongs.
#[derive(Clone, Copy, Debug, PartialEq, Eq, Structural)]
pub enum Tag {
    /// Standard output of the child.
    Stdout,
    /// Standard error of the child.
    Stderr,
    /// An error of the event source.
    Error,
    /// A note of the relay itself.
    Info,
}

/// What the relay hands to the logging sink for one event.
#[derive(Debug, PartialEq, Eq)]
pub enum Record {
    /// A line of text with its tag.
    Line(Tag, String),
    /// The termination of the child, with its exit code where one is known.
    Exit(Option<i32>),
}

/// A record as a plain value.
pub enum RecordView {
    Line(Tag, Seq<char>),
    Exit(Option<i32>),
}

impl View for Record {
    type V = RecordView;

    open spec fn view(&self) -> RecordView {
        match *self {
            Record::Line(tag, text) => RecordView::Line(tag, text@),
            Record::Exit(code) => RecordView::Exit(code),
        }
    }
}

/// The text that `String::from_utf8_lossy` makes of a sequence of bytes.
pub uninterp spec fn lossy_text(bytes: Seq<u8>) -> Seq<char>;

/// The tag of a line that came from the given stream.
pub open spec fn stream_tag(stream: Stream) -> Tag {
    match stream {
        Stream::Stdout => Tag::Stdout,
        Stream::Stderr => Tag::Stderr,
    }
}

/// The record that the relay forwards for an event.
pub open spec fn forwarded(event: Event) -> RecordView {
    match event {
        Event::OutputLine(stream, bytes) => RecordView::Line(
            stream_tag(stream),
            lossy_text(bytes@),
        ),
        Event::TerminalError(message) => RecordView::Line(Tag::Error, message@),
        Event::Terminated(code) => RecordView::Exit(code),
        Event::Unknown => RecordView::Line(Tag::Info, "Received unknown command event"@),
    }
}

/// The position of the first termination event of a stream, or its length
/// where it holds none.
pub open spec fn first_termination(events: Seq<Event>) -> nat
    decreases events.len(),
{
    if events.len() == 0 || events[0] is Terminated {
        0
    } else {
        1 + first_termination(events.drop_first())
    }
}

/// How many events of a stream the relay consumes: all up to and including
/// the first termination event, or all of them where there is none.
pub open spec fn consumed(events: Seq<Event>) -> nat {
    if first_termination(events) < events.len() {
        first_termination(events) + 1
    } else {
        events.len()
    }
}

/// The records that the relay forwards for a stream of events: one for each
/// event that it consumes, in the order of arrival.
pub open spec fn relayed(events: Seq<Event>) -> Seq<RecordView> {
    events.take(consumed(events) as int).map_values(|event: Event| forwarded(event))
}

/// The records of a list as plain values.
pub open spec fn record_views(records: Seq<Record>) -> Seq<RecordView> {
    records.map_values(|record: Record| record@)
}

/// Calls `String::from_utf8_lossy` and takes the text as an owned string.
/// The text depends on the bytes alone. Bytes that are valid UTF-8 are
/// decoded as they are; of other bytes nothing is claimed but that the text
/// is the one that `lossy_text` names.
#[verifier::external_body]
fn decode_lossy(bytes: &Vec<u8>) -> (text: String)
    ensures
        text@ == lossy_text(bytes@),
        valid_utf8(bytes@) ==> text@ == decode_utf8(bytes@),
{
    String::from_utf8_lossy(bytes).into_owned()
}

/// The record for a line of output whose text has been decoded.
pub fn output_record(stream: Stream, text: String) -> (record: Record)
    ensures
        record@ == RecordView::Line(stream_tag(stream), text@),
{
    match stream {
        Stream::Stdout => Record::Line(Tag::Stdout, text),
        Stream::Stderr => Record::Line(Tag::Stderr, text),
    }
}

/// The record that the relay forwards for an event. The bytes of an output
/// line are decoded as UTF-8, with a replacement character for what is not.
pub fn record_of(event: &Event) -> (record: Record)
    ensures
        record@ == forwarded(*event),
        match *event {
            Event::OutputLine(stream, bytes) => valid_utf8(bytes@) ==> record@
                == RecordView::Line(stream_tag(stream), decode_utf8(bytes@)),
            _ => true,
        },
{
    match event {
        Event::OutputLine(stream, bytes) => output_record(*stream, decode_lossy(bytes)),
        Event::TerminalError(message) => Record::Line(Tag::Error, message.clone()),
        Event::Terminated(code) => Record::Exit(*code),
        Event::Unknown => Record::Line(Tag::Info, "Received unknown command event".to_owned()),
    }
}

/// The relay of one child: it forwards a record for each event until it has
/// seen the child terminate, and nothing after that.
#[derive(Debug)]
pub struct Relay {
    finished: bool,
}

impl Relay {
    /// Whether the relay has seen the termination event and is done.
    pub closed spec fn finished(&self) -> bool {
        self.finished
    }

    /// A relay for a new child.
    pub fn new() -> (relay: Relay)
        ensures
            !relay.finished(),
    {
        Relay { finished: false }
    }

    /// Whether the relay has seen the termination event and is done.
    pub fn is_finished(&self) -> (finished: bool)
        ensures
            finished == self.finished(),
    {
        self.finished
    }

    /// Takes the next event of the stream. A relay that is not done forwards
    /// the event's record, and is done after a termination event. A relay
    /// that is done forwards nothing and stays done.
    pub fn forward(&mut self, event: &Event) -> (record: Option<Record>)
        ensures
            old(self).finished() ==> record is None && final(self).finished(),
            !old(self).finished() ==> record is Some && record->Some_0@ == forwarded(*event)
                && final(self).finished() == (*event is Terminated),
    {
        if self.finished {
            return None;
        }
        let record = record_of(event);
        if let Event::Terminated(_) = event {
            self.finished = true;
        }
        Some(record)
    }
}

/// A position up to which a stream holds no termination event, and which is
/// its end or a termination event, is the position of its first termination
/// event.
pub proof fn lemma_first_termination_at(events: Seq<Event>, stop: int)
    requires
        0 <= stop <= events.len(),
        forall|j: int| 0 <= j < stop ==> !(events[j] is Terminated),
        stop < events.len() ==> events[stop] is Terminated,
    ensures
        first_termination(events) == stop,
    decreases stop,
{
    if stop > 0 {
        lemma_first_termination_at(events.drop_first(), stop - 1);
    }
}

/// Runs a relay over a whole stream of events and collects what it forwards:
/// the records of the events up to and including the first termination
/// event, in the order of arrival.
pub fn relay_all(events: &Vec<Event>) -> (records: Vec<Record>)
    ensures
        record_views(records@) == relayed(events@),
{
    let mut relay = Relay::new();
    let mut records: Vec<Record> = Vec::new();
    let mut i: usize = 0;
    while i < events.len() && !relay.is_finished()
        invariant
            i <= events.len(),
            records.len() == i,
            forall|j: int| 0 <= j < i ==> (#[trigger] records@[j])@ == forwarded(events@[j]),
            forall|j: int| 0 <= j < i - 1 ==> !(events@[j] is Terminated),
            relay.finished() == (i > 0 && events@[i - 1] is Terminated),
        decreases events.len() - i,
    {
        if let Some(record) = relay.forward(&events[i]) {
            records.push(record);
        }
        i += 1;
    }
    proof {
        if relay.finished() {
            lemma_first_termination_at(events@, i - 1);
        } else {
            lemma_first_termination_at(events@, i as int);
        }
        assert(record_views(records@) =~= relayed(events@));
    }
    records
}

} // verus!
