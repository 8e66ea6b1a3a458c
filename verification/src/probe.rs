//! The liveness probe: where the backend is expected to listen, and how the
//! outcome of one connection attempt is read.

use vstd::prelude::*;

verus! {

/// An IPv4 host and a TCP port.
#[derive(Clone, Copy, Debug, PartialEq, Eq)]
pub struct Endpoint {
    pub host: [u8; 4],
    pub port: u16,
}

/// How long one connection attempt may take, in milliseconds.
pub const PROBE_TIMEOUT_MILLIS: u64 = 1000;

/// The port that the backend binds on the loopback interface.
pub const BACKEND_PORT: u16 = 8000;

/// The endpoint on which the backend is expected to listen: the loopback
/// address and the backend's port.
pub fn backend_endpoint() -> (endpoint: Endpoint)
    ensures
        endpoint.host@ == seq![127u8, 0u8, 0u8, 1u8],
        endpoint.port == BACKEND_PORT,
{
    let host: [u8; 4] = [127, 0, 0, 1];
    assert(host@ =~= seq![127u8, 0u8, 0u8, 1u8]);
    Endpoint { host, port: BACKEND_PORT }
}

/// What one connection attempt to the endpoint came to.
#[derive(Clone, Copy, Debug, PartialEq, Eq, Structural)]
pub enum ProbeOutcome {
    /// The connection was opened (and closed again at once).
    Connected,
    /// The peer refused the connection.
    Refused,
    /// No answer arrived within the timeout.
    TimedOut,
    /// The host or network could not be reached.
    Unreachable,
    /// The attempt failed in some other way.
    Inconclusive,
}

/// Whether the outcome counts as "a backend is already serving".
pub open spec fn listening(outcome: ProbeOutcome) -> bool {
    outcome is Connected
}

/// Reads a probe outcome: only an opened connection counts as listening,
/// every failure counts as not listening and is never an error.
pub fn is_listening(outcome: ProbeOutcome) -> (answer: bool)
    ensures
        answer == listening(outcome),
{
    match outcome {
        ProbeOutcome::Connected => true,
        ProbeOutcome::Refused => false,
        ProbeOutcome::TimedOut => false,
        ProbeOutcome::Unreachable => false,
        ProbeOutcome::Inconclusive => false,
    }
}

} // verus!
