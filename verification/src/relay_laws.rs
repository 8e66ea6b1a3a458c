//! What holds of the records that the relay forwards for any stream of
//! events.

use vstd::prelude::*;
use crate::relay::{consumed, first_termination, forwarded, relayed, Event};

verus! {

/// No termination event comes before the first one, and the first one is one.
pub proof fn lemma_first_termination(events: Seq<Event>)
    ensures
        first_termination(events) <= events.len(),
        forall|j: int| 0 <= j < first_termination(events) ==> !(events[j] is Terminated),
        first_termination(events) < events.len() ==> events[first_termination(
            events,
        ) as int] is Terminated,
    decreases events.len(),
{
    if events.len() > 0 && !(events[0] is Terminated) {
        let rest = events.drop_first();
        lemma_first_termination(rest);
        assert forall|j: int| 0 <= j < first_termination(events) implies !(
        events[j] is Terminated) by {
            if j > 0 {
                assert(events[j] == rest[j - 1]);
            }
        }
    }
}

/// The relay forwards in the order of arrival: its records are those of the
/// first events of the stream, one for one. Every event up to the first
/// termination event gets its record, that one included, and no event after
/// it gets one.
pub proof fn lemma_relay_order(events: Seq<Event>)
    ensures
        relayed(events).len() == consumed(events),
        consumed(events) <= events.len(),
        forall|i: int| 0 <= i < relayed(events).len() ==> relayed(events)[i] == forwarded(events[i]),
        forall|j: int| 0 <= j < consumed(events) - 1 ==> !(events[j] is Terminated),
        consumed(events) < events.len() ==> events[consumed(events) - 1] is Terminated,
{
    lemma_first_termination(events);
}

/// A termination record is never followed by another record: only the last
/// record can be one, and it is one exactly where the stream holds a
/// termination event.
pub proof fn lemma_relay_ends_at_exit(events: Seq<Event>)
    ensures
        forall|i: int| 0 <= i < relayed(events).len() - 1 ==> !(relayed(events)[i] is Exit),
        (exists|j: int| 0 <= j < events.len() && events[j] is Terminated) <==> (relayed(
            events,
        ).len() > 0 && relayed(events).last() is Exit),
{
    lemma_relay_order(events);
    lemma_first_termination(events);
    let stop = first_termination(events) as int;
    assert forall|i: int| 0 <= i < relayed(events).len() - 1 implies !(relayed(events)[i] is Exit) by {
        assert(!(events[i] is Terminated));
    }
    if stop < events.len() {
        assert(relayed(events).last() == forwarded(events[stop]));
    } else if relayed(events).len() > 0 {
        assert(relayed(events).last() == forwarded(events[stop - 1]));
        assert(!(events[stop - 1] is Terminated));
    }
}

} // verus!
