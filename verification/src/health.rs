//! The readiness of the backend: where it is asked, which answers count, and
//! for how long it is asked.

use crate::error::BootError;
use crate::poll::{failed_after, step_of, turn_follows, PollPolicy, PollStep, Poller, Turn};
use crate::text::{decimal, decimal_text};
use vstd::prelude::*;
use vstd::string::*;

verus! {

/// The number of health probes before the backend is given up.
pub const HEALTH_ATTEMPTS: u32 = 40;

/// The pause after a failed health probe, in milliseconds.
pub const HEALTH_DELAY_MS: u32 = 250;

/// The time that a single health request may take, in milliseconds.
pub const HEALTH_REQUEST_TIMEOUT_MS: u64 = 2000;

/// The address of the backend on `port`.
pub open spec fn backend_address(port: u16) -> Seq<char> {
    "http://127.0.0.1:"@ + decimal(port as nat)
}

/// The address of the health endpoint of the backend on `port`.
pub open spec fn health_address(port: u16) -> Seq<char> {
    backend_address(port) + "/healthz"@
}

/// The script that sends the presentation surface to the backend on `port`.
pub open spec fn navigation_text(port: u16) -> Seq<char> {
    "window.location.replace('"@ + backend_address(port) + "');"@
}

/// Whether an HTTP status code reports success.
pub open spec fn is_success(status: u16) -> bool {
    200 <= status < 300
}

/// What a health probe yields: readiness on an answer with a success
/// status, nothing on any other answer or on none.
pub open spec fn probe_outcome(status: Option<u16>) -> Option<()> {
    match status {
        Some(code) => if is_success(code) {
            Some(())
        } else {
            None
        },
        None => None,
    }
}

/// The budget of the health probe.
pub fn health_policy() -> (policy: PollPolicy)
    ensures
        policy == (PollPolicy { max_attempts: 40, delay_ms: 250 }),
{
    PollPolicy { max_attempts: HEALTH_ATTEMPTS, delay_ms: HEALTH_DELAY_MS }
}

/// The address that the presentation surface is sent to.
pub fn backend_url(port: u16) -> (url: String)
    ensures
        url@ == backend_address(port),
{
    String::from_str("http://127.0.0.1:").concat(decimal_text(port).as_str())
}

/// The script that the presentation surface runs to load the backend.
pub fn navigation_script(port: u16) -> (script: String)
    ensures
        script@ == navigation_text(port),
{
    String::from_str("window.location.replace('").concat(backend_url(port).as_str()).concat("');")
}

/// The address that the health probe asks.
pub fn health_url(port: u16) -> (url: String)
    ensures
        url@ == health_address(port),
{
    backend_url(port).concat("/healthz")
}

/// Judges one health probe. `status` is the status code of the answer;
/// `None` stands for a refused connection or a request that timed out.
pub fn health_attempt(status: Option<u16>) -> (outcome: Option<()>)
    ensures
        outcome == probe_outcome(status),
{
    match status {
        Some(code) => if 200 <= code && code < 300 {
            Some(())
        } else {
            None
        },
        None => None,
    }
}

/// One turn of the health probe of the backend on `port`: judges the answer
/// whose status is `status` and says how the probe goes on. Once the budget
/// is spent the probe fails with a timeout that names the address asked.
pub fn health_turn(poller: &mut Poller, port: u16, status: Option<u16>) -> (turn: Turn<()>)
    requires
        old(poller).wf(),
    ensures
        final(poller).wf(),
        final(poller).policy() == old(poller).policy(),
        final(poller).failed() == failed_after(
            old(poller).policy(),
            old(poller).failed(),
            probe_outcome(status),
        ),
        turn_follows(
            turn,
            step_of(old(poller).policy(), old(poller).failed(), probe_outcome(status)),
        ),
        turn matches Turn::Failed { error, .. } ==> error matches BootError::HealthCheckTimeout(url)
            && url@ == health_address(port),
{
    match poller.record(health_attempt(status)) {
        PollStep::Done(ready) => Turn::Ready(ready),
        PollStep::RetryAfter(pause_ms) => Turn::Retry { pause_ms },
        PollStep::GiveUpAfter(pause_ms) => {
            Turn::Failed { pause_ms, error: BootError::HealthCheckTimeout(health_url(port)) }
        },
    }
}

} // verus!
