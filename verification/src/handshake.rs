//! The handshake: the file in which the child announces its port, where it
//! lies, what it must hold, and for how long it is awaited.

use crate::paths::{join_path, path_join, Platform};
use crate::error::BootError;
use crate::poll::{failed_after, step_of, turn_follows, PollPolicy, PollStep, Poller, Turn};
use crate::text::text_of;
use vstd::prelude::*;
use vstd::string::*;

verus! {

/// The number of times the handshake file is read before it is given up.
pub const HANDSHAKE_ATTEMPTS: u32 = 50;

/// The pause after a failed read of the handshake file, in milliseconds.
pub const HANDSHAKE_DELAY_MS: u32 = 200;

/// `serde_json::Value`, a parsed JSON document or a part of one. Nothing is
/// known of what is inside a value but through the functions below.
#[verifier::external_type_specification]
#[verifier::external_body]
pub struct ExJsonValue(serde_json::Value);

/// `serde_json::Error`, the reason why a text is no JSON. It is never
/// looked into.
#[verifier::external_type_specification]
#[verifier::external_body]
pub struct ExJsonError(serde_json::Error);

/// The JSON value that `serde_json::from_str` reads from `text`; `None`
/// where it reports an error.
pub uninterp spec fn json_document(text: Seq<char>) -> Option<serde_json::Value>;

/// What `serde_json::Value::get` finds in `value` under the string `key`.
pub uninterp spec fn json_member(value: serde_json::Value, key: Seq<char>) -> Option<
    serde_json::Value,
>;

/// What `serde_json::Value::as_u64` makes of `value`.
pub uninterp spec fn json_unsigned(value: serde_json::Value) -> Option<u64>;

/// Calls `serde_json::from_str` for a `serde_json::Value`. Claimed: the
/// outcome is determined by the text.
#[verifier::external_body]
fn parse_json(text: &str) -> (parsed: Result<serde_json::Value, serde_json::Error>)
    ensures
        match parsed {
            Ok(value) => json_document(text@) == Some(value),
            Err(_) => json_document(text@) is None,
        },
{
    serde_json::from_str::<serde_json::Value>(text)
}

/// Calls `serde_json::Value::get` with a string key. Claimed: the outcome is
/// determined by the value and the key.
#[verifier::external_body]
fn member<'a>(value: &'a serde_json::Value, key: &str) -> (found: Option<&'a serde_json::Value>)
    ensures
        match found {
            Some(inner) => json_member(*value, key@) == Some(*inner),
            None => json_member(*value, key@) is None,
        },
{
    value.get(key)
}

/// Calls `serde_json::Value::as_u64`. Claimed: the outcome is determined by
/// the value.
#[verifier::external_body]
fn unsigned(value: &serde_json::Value) -> (number: Option<u64>)
    ensures
        number == json_unsigned(*value),
{
    value.as_u64()
}

/// The unsigned integer under `port` in the JSON document that `text` holds,
/// if `text` is such a document and has one.
pub open spec fn port_field(text: Seq<char>) -> Option<u64> {
    match json_document(text) {
        Some(document) => match json_member(document, "port"@) {
            Some(value) => json_unsigned(value),
            None => None,
        },
        None => None,
    }
}

/// The port that a `port` field announces: the number itself if it is a
/// TCP port, nothing if the field is missing or too large.
pub open spec fn announced_port(field: Option<u64>) -> Option<u16> {
    match field {
        Some(number) => if number <= 0xffff {
            Some(number as u16)
        } else {
            None
        },
        None => None,
    }
}

/// What one read of the handshake file yields: the announced port where the
/// file was read and holds a valid handshake, nothing otherwise.
pub open spec fn read_outcome(contents: Option<Seq<char>>) -> Option<u16> {
    match contents {
        Some(text) => announced_port(port_field(text)),
        None => None,
    }
}

/// Where the handshake file lies. `appdata` is the per-user directory for
/// application data, if the environment names one; `temp_dir` is the
/// temporary directory of the operating system.
pub open spec fn handshake_location(
    platform: Platform,
    appdata: Option<Seq<char>>,
    temp_dir: Seq<char>,
) -> Seq<char> {
    match platform {
        Platform::MacOs => "/tmp/hudson_port.json"@,
        Platform::Windows => path_join(
            path_join(
                match appdata {
                    Some(dir) => dir,
                    None => temp_dir,
                },
                "Hudson"@,
            ),
            "port.json"@,
        ),
        Platform::Other => path_join(temp_dir, "hudson_port.json"@),
    }
}

/// The budget of the wait for the handshake.
pub fn handshake_policy() -> (policy: PollPolicy)
    ensures
        policy == (PollPolicy { max_attempts: 50, delay_ms: 200 }),
{
    PollPolicy { max_attempts: HANDSHAKE_ATTEMPTS, delay_ms: HANDSHAKE_DELAY_MS }
}

/// Where the handshake file lies.
pub fn handshake_path(platform: Platform, appdata: Option<String>, temp_dir: String) -> (path:
    String)
    ensures
        path@ == handshake_location(platform, text_of(appdata), temp_dir@),
{
    match platform {
        Platform::MacOs => String::from_str("/tmp/hudson_port.json"),
        Platform::Windows => {
            let base = match appdata {
                Some(dir) => dir,
                None => temp_dir,
            };
            let folder = join_path(base.as_str(), "Hudson");
            join_path(folder.as_str(), "port.json")
        },
        Platform::Other => join_path(temp_dir.as_str(), "hudson_port.json"),
    }
}

/// The port that a `port` field announces, if it is one.
pub fn port_from_field(field: Option<u64>) -> (port: Option<u16>)
    ensures
        port == announced_port(field),
{
    match field {
        Some(number) => if number <= 0xffff {
            Some(number as u16)
        } else {
            None
        },
        None => None,
    }
}

/// Reads the port out of the contents of a handshake file. Contents that
/// are no JSON, hold no `port`, or hold one that is no TCP port give nothing.
pub fn parse_handshake(contents: &str) -> (port: Option<u16>)
    ensures
        port == announced_port(port_field(contents@)),
{
    let field = match parse_json(contents) {
        Ok(document) => match member(&document, "port") {
            Some(value) => unsigned(value),
            None => None,
        },
        Err(_) => None,
    };
    port_from_field(field)
}

/// Judges one read of the handshake file. `contents` is what was read;
/// `None` stands for a file that is missing or unreadable, which counts the
/// same as one that does not parse: not ready yet.
pub fn handshake_attempt(contents: Option<String>) -> (outcome: Option<u16>)
    ensures
        outcome == read_outcome(text_of(contents)),
{
    match contents {
        Some(text) => parse_handshake(text.as_str()),
        None => None,
    }
}

/// One turn of the wait for the handshake: judges the read whose result is
/// `contents` and says how the wait goes on. Once the budget is spent the
/// wait fails with a timeout that names `path`, where the file was expected.
pub fn handshake_turn(poller: &mut Poller, path: &String, contents: Option<String>) -> (turn: Turn<
    u16,
>)
    requires
        old(poller).wf(),
    ensures
        final(poller).wf(),
        final(poller).policy() == old(poller).policy(),
        final(poller).failed() == failed_after(
            old(poller).policy(),
            old(poller).failed(),
            read_outcome(text_of(contents)),
        ),
        turn_follows(
            turn,
            step_of(old(poller).policy(), old(poller).failed(), read_outcome(text_of(contents))),
        ),
        turn matches Turn::Failed { error, .. } ==> error == BootError::HandshakeTimeout(*path),
{
    match poller.record(handshake_attempt(contents)) {
        PollStep::Done(port) => Turn::Ready(port),
        PollStep::RetryAfter(pause_ms) => Turn::Retry { pause_ms },
        PollStep::GiveUpAfter(pause_ms) => {
            Turn::Failed { pause_ms, error: BootError::HandshakeTimeout(path.clone()) }
        },
    }
}

} // verus!
