use vstd::prelude::*;

verus! {

/// The endpoint that reports the booking situation.
pub const SITUATION_URL: &'static str =
    "https://eservices.es2.immd.gov.hk/surgecontrolgate/ticket/getSituation";

/// Seconds of sleep before each poll.
pub const POLL_INTERVAL_SECS: u64 = 30;

/// Ceiling, in seconds, on one request to the endpoint.
pub const REQUEST_TIMEOUT_SECS: u64 = 30;

/// What a request to the endpoint came back with.
#[derive(Clone, Copy, Debug, PartialEq, Eq)]
pub enum PollEvent {
    /// No response: connection, name lookup or timeout failed.
    TransportFailed,
    /// A response with this HTTP status.
    Responded(u16),
}

/// What the poller does next in this cycle.
#[derive(Clone, Copy, Debug, PartialEq, Eq)]
pub enum PollAction {
    /// Give up this cycle and sleep until the next one.
    SkipCycle,
    /// Read and decode the response body.
    ReadBody,
}

pub open spec fn is_success_status(status: u16) -> bool {
    200 <= status <= 299
}

/// Only a response with a 2xx status is read; a transport failure or any
/// other status ends the cycle without an alert and without an error.
pub fn next_action(event: PollEvent) -> (r: PollAction)
    ensures
        r == PollAction::ReadBody <==> (event matches PollEvent::Responded(s)
            && is_success_status(s)),
{
    match event {
        PollEvent::TransportFailed => PollAction::SkipCycle,
        PollEvent::Responded(status) => {
            if 200 <= status && status <= 299 {
                PollAction::ReadBody
            } else {
                PollAction::SkipCycle
            }
        },
    }
}

} // verus!
