//! The process supervisor: the single slot that holds the running backend,
//! and the decisions of starting and stopping it.
//!
//! The supervisor never spawns or kills by itself. Starting is two steps
//! around the launch that the embedding program performs: `plan_start` says
//! whether to launch at all and with which environment, `complete_start`
//! records what the launch came to. Stopping hands out the child to
//! terminate. The embedding program keeps the supervisor behind one lock and
//! holds it from `plan_start` to `complete_start`.

use vstd::prelude::*;
use crate::environment::{bindings, built, EnvironmentBuilder, EnvironmentSpec, Variable};

verus! {

/// How a start request ended without an error.
#[derive(Clone, Copy, Debug, PartialEq, Eq, Structural)]
pub enum StartOutcome {
    /// Something already listens on the backend's endpoint: nothing was
    /// launched and the slot was not touched.
    AlreadyRunningExternally,
    /// The slot already holds a child: nothing was launched.
    AlreadySpawned,
    /// A new child was launched and stored in the slot.
    Spawned,
}

/// Why a launch did not produce a child.
#[derive(Debug, PartialEq, Eq)]
pub enum SpawnFailure {
    /// The backend executable could not be resolved to a command.
    NotResolved(String),
    /// The operating system did not start the process.
    NotSpawned(String),
}

/// Why a start request failed. The failure ends that attempt only: the
/// supervisor stays usable and its slot stays empty.
#[derive(Debug, PartialEq, Eq)]
pub enum StartError {
    /// The backend could not be launched; the text says why.
    SpawnFailed(String),
}

/// What to do about a start request.
#[derive(Debug, PartialEq, Eq)]
pub enum StartPlan {
    /// Launch nothing; the request ends with this outcome.
    Skip(StartOutcome),
    /// Launch the backend with this environment, then report the result with
    /// `complete_start`.
    Spawn(EnvironmentSpec),
}

/// The outcome of a start request that launches nothing, for a slot and the
/// probe's answer; `None` where the request has to launch the backend. The
/// probe is asked first, the slot second.
pub open spec fn settled<H>(slot: Option<H>, listening: bool) -> Option<StartOutcome> {
    if listening {
        Some(StartOutcome::AlreadyRunningExternally)
    } else if slot is Some {
        Some(StartOutcome::AlreadySpawned)
    } else {
        None
    }
}

/// The slot after a launch into an empty slot was recorded: the child, or
/// nothing where the launch failed.
pub open spec fn stored<H>(launch: Result<H, SpawnFailure>) -> Option<H> {
    match launch {
        Ok(child) => Some(child),
        Err(_) => None,
    }
}

/// The text of a start error for a failed launch.
pub open spec fn failure_text(failure: SpawnFailure) -> Seq<char> {
    match failure {
        SpawnFailure::NotResolved(reason) => "Failed to create sidecar command: "@ + reason@,
        SpawnFailure::NotSpawned(reason) => "Failed to spawn backend sidecar: "@ + reason@,
    }
}

/// The message that reports a start outcome to the caller.
pub open spec fn outcome_text(outcome: StartOutcome) -> Seq<char> {
    match outcome {
        StartOutcome::AlreadyRunningExternally => "Backend already running"@,
        StartOutcome::AlreadySpawned => "Backend already spawned"@,
        StartOutcome::Spawned => "Backend started successfully"@,
    }
}

impl StartError {
    /// The text that says why the start failed.
    pub open spec fn detail(self) -> Seq<char> {
        match self {
            StartError::SpawnFailed(text) => text@,
        }
    }

    /// The error of a start whose launch failed in the given way.
    pub fn from_failure(failure: SpawnFailure) -> (error: StartError)
        ensures
            error.detail() == failure_text(failure),
    {
        match failure {
            SpawnFailure::NotResolved(reason) => {
                let mut text = "Failed to create sidecar command: ".to_owned();
                text.append(reason.as_str());
                StartError::SpawnFailed(text)
            },
            SpawnFailure::NotSpawned(reason) => {
                let mut text = "Failed to spawn backend sidecar: ".to_owned();
                text.append(reason.as_str());
                StartError::SpawnFailed(text)
            },
        }
    }

    /// The text that says why the start failed.
    pub fn message(&self) -> (text: String)
        ensures
            text@ == self.detail(),
    {
        match self {
            StartError::SpawnFailed(text) => text.clone(),
        }
    }
}

impl StartOutcome {
    /// The message that reports this outcome to the caller.
    pub fn message(&self) -> (text: String)
        ensures
            text@ == outcome_text(*self),
    {
        match self {
            StartOutcome::AlreadyRunningExternally => "Backend already running".to_owned(),
            StartOutcome::AlreadySpawned => "Backend already spawned".to_owned(),
            StartOutcome::Spawned => "Backend started successfully".to_owned(),
        }
    }
}

/// The owner of the single slot for the backend's child process. `H` is the
/// handle by which the embedding program can terminate the child.
#[derive(Debug)]
pub struct Supervisor<H> {
    slot: Option<H>,
}

impl<H> View for Supervisor<H> {
    type V = Option<H>;

    closed spec fn view(&self) -> Option<H> {
        self.slot
    }
}

impl<H> Supervisor<H> {
    /// A supervisor with an empty slot.
    pub fn new() -> (supervisor: Supervisor<H>)
        ensures
            supervisor@ is None,
    {
        Supervisor { slot: None }
    }

    /// Whether the slot holds a child.
    pub fn is_occupied(&self) -> (occupied: bool)
        ensures
            occupied == (self@ is Some),
    {
        self.slot.is_some()
    }

    /// Decides a start request, given the probe's answer and the inherited
    /// environment. If something already listens on the endpoint, nothing is
    /// launched, whatever the slot holds; else if the slot is occupied,
    /// nothing is launched either; else the backend is to be launched with
    /// the environment that `builder` makes of `base`. The slot is only read.
    pub fn plan_start(
        &self,
        listening: bool,
        builder: &EnvironmentBuilder,
        base: &Vec<Variable>,
    ) -> (plan: StartPlan)
        ensures
            listening ==> plan == StartPlan::Skip(StartOutcome::AlreadyRunningExternally),
            match plan {
                StartPlan::Skip(outcome) => settled(self@, listening) == Some(outcome),
                StartPlan::Spawn(env) => settled(self@, listening) is None && env@ == built(
                    bindings(base@),
                    builder.directories(),
                ),
            },
    {
        if listening {
            StartPlan::Skip(StartOutcome::AlreadyRunningExternally)
        } else if self.slot.is_some() {
            StartPlan::Skip(StartOutcome::AlreadySpawned)
        } else {
            StartPlan::Spawn(builder.build(base))
        }
    }

    /// Records what the launch that `plan_start` asked for came to. A child
    /// is stored in the slot and the start has spawned; a failure leaves the
    /// slot empty and becomes the start's error.
    pub fn complete_start(&mut self, launch: Result<H, SpawnFailure>) -> (result: Result<
        StartOutcome,
        StartError,
    >)
        requires
            old(self)@ is None,
        ensures
            final(self)@ == stored(launch),
            match launch {
                Ok(_) => result == Ok::<StartOutcome, StartError>(StartOutcome::Spawned),
                Err(failure) => result is Err && result->Err_0.detail() == failure_text(failure),
            },
    {
        match launch {
            Ok(child) => {
                self.slot = Some(child);
                Ok(StartOutcome::Spawned)
            },
            Err(failure) => Err(StartError::from_failure(failure)),
        }
    }

    /// Empties the slot and hands out the child that it held, for the caller
    /// to terminate. With an empty slot nothing changes and nothing is handed
    /// out.
    pub fn stop(&mut self) -> (child: Option<H>)
        ensures
            child == old(self)@,
            final(self)@ is None,
    {
        self.slot.take()
    }
}

/// The reply to the caller of a start request: the outcome's message, or the
/// error's text.
pub fn report(result: &Result<StartOutcome, StartError>) -> (reply: Result<String, String>)
    ensures
        match *result {
            Ok(outcome) => reply is Ok && reply->Ok_0@ == outcome_text(outcome),
            Err(error) => reply is Err && reply->Err_0@ == error.detail(),
        },
{
    match result {
        Ok(outcome) => Ok(outcome.message()),
        Err(error) => Err(error.message()),
    }
}

} // verus!
