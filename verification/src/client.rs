//! The client: one heartbeat per tick.
//!
//! The client has a single state, waiting to send. At every tick it reads
//! the clock, encodes a heartbeat, hands it to the transport as one datagram
//! and judges what the transport reports. A tick that fails is reported and
//! nothing else: there is no retry within the tick, no backoff and no limit
//! on failures, and the next tick comes after the same interval.
//!
//! The caller owns the socket and the clock. It calls [`heartbeat_payload`]
//! before the send and [`check_sent`] after it; [`run_tick`] is both at once
//! for a tick whose clock reading and transport report are already known.

use crate::message::encode;
use crate::message::encoded;
use crate::message::decoded;
use crate::message::DecodeError;
use crate::message::EncodeError;
use crate::message::Heartbeat;
use crate::message::HeartbeatMsg;
use crate::time::Timestamp;
use vstd::prelude::*;

verus! {

/// Seconds from one tick to the next.
pub const TICK_INTERVAL_SECS: u64 = 1;

/// What the client is told at startup. It is not changed afterwards.
#[derive(Debug)]
pub struct ClientConfig {
    /// The server's IPv4 address, as text.
    pub remote_addr: String,
    /// The server's port.
    pub remote_port: u16,
    /// The name that this client announces.
    pub local_name: String,
}

impl Default for ClientConfig {
    fn default() -> (config: ClientConfig)
        ensures
            config.remote_addr@ == Seq::<char>::empty(),
            config.remote_port == 0,
            config.local_name@ == Seq::<char>::empty(),
    {
        ClientConfig { remote_addr: String::new(), remote_port: 0, local_name: String::new() }
    }
}

/// What the transport reported of one send.
#[derive(Clone, Copy, Debug, PartialEq, Eq, Structural)]
pub enum SendOutcome {
    /// The send returned, and says that it transmitted this many bytes.
    Sent(usize),
    /// The send failed.
    Failed,
}

/// Why a tick failed.
#[derive(Clone, Copy, Debug, PartialEq, Eq, Structural)]
pub enum ClientError {
    /// The heartbeat could not be encoded; nothing was sent.
    Encode(EncodeError),
    /// The transport failed to send.
    Transport,
    /// The transport sent `sent` bytes of a datagram of `expected` bytes.
    PartialSend { sent: usize, expected: usize },
}

/// One tick as seen from outside: what the clock read, and what the
/// transport reported of the send (which is not looked at where nothing
/// could be sent).
#[derive(Clone, Copy, Debug)]
pub struct Tick {
    pub now: Timestamp,
    pub outcome: SendOutcome,
}

/// The verdict on a send of `expected` bytes: success only where the
/// transport sent exactly that many.
pub open spec fn sent_verdict(expected: usize, outcome: SendOutcome) -> Result<(), ClientError> {
    match outcome {
        SendOutcome::Failed => Err(ClientError::Transport),
        SendOutcome::Sent(sent) => if sent == expected {
            Ok(())
        } else {
            Err(ClientError::PartialSend { sent, expected })
        },
    }
}

/// The report of one tick of the client named `name`.
pub open spec fn tick_report(name: Seq<char>, tick: Tick) -> Result<(), ClientError> {
    match encoded(Heartbeat { name, sending_time: tick.now }) {
        None => Err(ClientError::Encode(EncodeError::TimeOutOfRange)),
        Some(bytes) => sent_verdict(bytes.len() as usize, tick.outcome),
    }
}

/// The reports of a run of ticks, one for each tick, in order.
pub open spec fn tick_reports(name: Seq<char>, ticks: Seq<Tick>) -> Seq<Result<(), ClientError>> {
    Seq::new(ticks.len(), |i: int| tick_report(name, ticks[i]))
}

/// The datagram to send at a tick: the heartbeat of `name` at `now`, encoded.
///
/// Fails exactly where `now` has no text on the wire.
pub fn heartbeat_payload(name: &str, now: Timestamp) -> (r: Result<Vec<u8>, ClientError>)
    ensures
        match r {
            Ok(bytes) => {
                &&& encoded(Heartbeat { name: name@, sending_time: now }) == Some(bytes@)
                &&& decoded(bytes@) == Ok::<Heartbeat, DecodeError>(
                    Heartbeat { name: name@, sending_time: now },
                )
            },
            Err(e) => {
                &&& encoded(Heartbeat { name: name@, sending_time: now }) is None
                &&& e == ClientError::Encode(EncodeError::TimeOutOfRange)
            },
        },
{
    let msg = HeartbeatMsg::new(name, now);
    match encode(&msg) {
        Ok(bytes) => Ok(bytes),
        Err(e) => Err(ClientError::Encode(e)),
    }
}

/// Judges the send of a datagram of `expected` bytes.
///
/// A transport failure fails the tick, and so does a send of any other
/// number of bytes than `expected`, fewer or more.
pub fn check_sent(expected: usize, outcome: SendOutcome) -> (r: Result<(), ClientError>)
    ensures
        r == sent_verdict(expected, outcome),
{
    match outcome {
        SendOutcome::Failed => Err(ClientError::Transport),
        SendOutcome::Sent(sent) => {
            if sent == expected {
                Ok(())
            } else {
                Err(ClientError::PartialSend { sent, expected })
            }
        },
    }
}

/// One whole tick: encodes the heartbeat of `name` at the tick's clock
/// reading and judges the tick's transport report against its length.
pub fn run_tick(name: &str, tick: &Tick) -> (r: Result<(), ClientError>)
    ensures
        r == tick_report(name@, *tick),
{
    match heartbeat_payload(name, tick.now) {
        Ok(payload) => check_sent(payload.len(), tick.outcome),
        Err(e) => Err(e),
    }
}

/// Runs the client over a recorded run of ticks and returns the report of
/// each. No failure ends the run: every tick is run, whatever the ticks
/// before it reported.
pub fn replay(name: &str, ticks: &Vec<Tick>) -> (reports: Vec<Result<(), ClientError>>)
    ensures
        reports@ == tick_reports(name@, ticks@),
{
    let mut reports: Vec<Result<(), ClientError>> = Vec::new();
    let mut i: usize = 0;
    while i < ticks.len()
        invariant
            i <= ticks.len(),
            reports@.len() == i,
            forall|j: int| 0 <= j < i ==> reports@[j] == tick_report(name@, ticks@[j]),
        decreases ticks.len() - i,
    {
        let report = run_tick(name, &ticks[i]);
        reports.push(report);
        i += 1;
    }
    reports
}

/// A partial send fails its tick and no other: where the transport reports
/// fewer bytes than the datagram has, the tick is reported as a partial send
/// with both numbers, the run still has a report for every tick, and every
/// other tick is reported as it would be alone.
pub proof fn lemma_partial_send_fails_one_tick(
    name: Seq<char>,
    ticks: Seq<Tick>,
    i: int,
    bytes: Seq<u8>,
    sent: usize,
)
    requires
        0 <= i < ticks.len(),
        encoded(Heartbeat { name, sending_time: ticks[i].now }) == Some(bytes),
        ticks[i].outcome == SendOutcome::Sent(sent),
        sent < bytes.len() <= usize::MAX,
    ensures
        tick_reports(name, ticks).len() == ticks.len(),
        tick_reports(name, ticks)[i] == Err::<(), ClientError>(
            ClientError::PartialSend { sent, expected: bytes.len() as usize },
        ),
        forall|j: int|
            0 <= j < ticks.len() && j != i ==> #[trigger] tick_reports(name, ticks)[j]
                == tick_report(name, ticks[j]),
{
}

} // verus!
