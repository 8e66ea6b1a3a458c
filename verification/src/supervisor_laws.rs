//! What holds of the supervisor over one, two and any number of requests.
//!
//! A start request is taken as a whole here: the plan, the launch where the
//! plan asks for one, and the recording of its result. `launch` is what the
//! operating system answers if it is asked.

use vstd::prelude::*;
use crate::supervisor::{settled, stored, SpawnFailure, StartOutcome};

verus! {

/// Whether a start request brings a new child to life: the plan asks for a
/// launch, and the launch succeeds.
pub open spec fn spawns<H>(slot: Option<H>, listening: bool, launch: Result<H, SpawnFailure>) -> bool {
    settled(slot, listening) is None && launch is Ok
}

/// The slot after a start request.
pub open spec fn slot_after_start<H>(
    slot: Option<H>,
    listening: bool,
    launch: Result<H, SpawnFailure>,
) -> Option<H> {
    if settled(slot, listening) is Some {
        slot
    } else {
        stored(launch)
    }
}

/// One request to the supervisor.
pub enum Request<H> {
    /// A start request, with the probe's answer and the answer that a launch
    /// would get.
    Start { listening: bool, launch: Result<H, SpawnFailure> },
    /// A stop request.
    Stop,
}

/// The slot after one request.
pub open spec fn slot_after<H>(slot: Option<H>, request: Request<H>) -> Option<H> {
    match request {
        Request::Start { listening, launch } => slot_after_start(slot, listening, launch),
        Request::Stop => None,
    }
}

/// The slot after a sequence of requests to a new supervisor.
pub open spec fn slot_after_all<H>(requests: Seq<Request<H>>) -> Option<H>
    decreases requests.len(),
{
    if requests.len() == 0 {
        None
    } else {
        slot_after(slot_after_all(requests.drop_last()), requests.last())
    }
}

/// By how much one request changes the number of children that were launched
/// and not handed out for termination.
pub open spec fn change<H>(slot: Option<H>, request: Request<H>) -> int {
    match request {
        Request::Start { listening, launch } => if spawns(slot, listening, launch) {
            1
        } else {
            0
        },
        Request::Stop => if slot is Some {
            -1
        } else {
            0
        },
    }
}

/// The number of children that a new supervisor has launched and not handed
/// out for termination after a sequence of requests.
pub open spec fn children_after_all<H>(requests: Seq<Request<H>>) -> int
    decreases requests.len(),
{
    if requests.len() == 0 {
        0
    } else {
        children_after_all(requests.drop_last()) + change(
            slot_after_all(requests.drop_last()),
            requests.last(),
        )
    }
}

/// Two start requests in a row, to a supervisor with an empty slot while
/// nothing listens on the endpoint and the launch succeeds: the first spawns
/// the child and stores it, the second ends as already spawned, spawns
/// nothing and leaves the slot as it is. So exactly one child is spawned.
pub proof fn lemma_start_twice<H>(
    first_launch: Result<H, SpawnFailure>,
    second_launch: Result<H, SpawnFailure>,
)
    requires
        first_launch is Ok,
    ensures
        ({
            let between = slot_after_start(None::<H>, false, first_launch);
            &&& spawns(None::<H>, false, first_launch)
            &&& between == stored(first_launch)
            &&& settled(between, false) == Some(StartOutcome::AlreadySpawned)
            &&& !spawns(between, false, second_launch)
            &&& slot_after_start(between, false, second_launch) == between
        }),
{
}

/// Of two start requests in a row at most one spawns, whatever the slot
/// held, the probe answered and the launches came to. Where the first has
/// spawned, the second leaves the slot as it is.
pub proof fn lemma_start_twice_spawns_at_most_once<H>(
    slot: Option<H>,
    first_listening: bool,
    first_launch: Result<H, SpawnFailure>,
    second_listening: bool,
    second_launch: Result<H, SpawnFailure>,
)
    ensures
        ({
            let between = slot_after_start(slot, first_listening, first_launch);
            &&& !(spawns(slot, first_listening, first_launch) && spawns(
                between,
                second_listening,
                second_launch,
            ))
            &&& spawns(slot, first_listening, first_launch) ==> slot_after_start(
                between,
                second_listening,
                second_launch,
            ) == between
        }),
{
}

/// While something listens on the endpoint, a start request never spawns and
/// never touches the slot, whatever the slot holds.
pub proof fn lemma_external_precedence<H>(slot: Option<H>, launch: Result<H, SpawnFailure>)
    ensures
        settled(slot, true) == Some(StartOutcome::AlreadyRunningExternally),
        !spawns(slot, true, launch),
        slot_after_start(slot, true, launch) == slot,
{
}

/// A stop request on an empty slot does nothing, so stopping twice is
/// stopping once.
pub proof fn lemma_stop_when_empty<H>(slot: Option<H>)
    ensures
        change(None::<H>, Request::Stop) == 0,
        slot_after(None::<H>, Request::Stop) is None,
        slot_after(slot_after(slot, Request::Stop), Request::Stop) == slot_after(
            slot,
            Request::Stop,
        ),
{
}

/// After a stop request the slot is empty, and a start request that finds
/// nothing listening launches again instead of ending as already spawned.
pub proof fn lemma_start_after_stop<H>(slot: Option<H>, launch: Result<H, SpawnFailure>)
    ensures
        slot_after(slot, Request::Stop) is None,
        settled(slot_after(slot, Request::Stop), false) is None,
        slot_after_start(slot_after(slot, Request::Stop), false, launch) == stored(launch),
        launch is Ok ==> spawns(slot_after(slot, Request::Stop), false, launch),
{
}

/// At any time at most one child is alive that the supervisor launched and
/// did not hand out for termination, and it is the child in the slot.
pub proof fn lemma_at_most_one_child<H>(requests: Seq<Request<H>>)
    ensures
        children_after_all(requests) == if slot_after_all(requests) is Some {
            1int
        } else {
            0int
        },
    decreases requests.len(),
{
    if requests.len() > 0 {
        lemma_at_most_one_child(requests.drop_last());
    }
}

} // verus!
