//! The heartbeat message and its codec.
//!
//! A heartbeat names its sender and the instant at which it was sent. On the
//! wire it is the datagram of [`crate::frame`] whose first field is the name
//! and whose second field is the instant as RFC 3339 text. The format has no
//! version field and no checksum: a change of the message's shape breaks
//! compatibility between client and server.

use crate::frame::bincode_read;
use crate::frame::bincode_write;
use crate::frame::fits;
use crate::frame::frame;
use crate::frame::lemma_field_len;
use crate::frame::lemma_frame_read_is_frame;
use crate::frame::lemma_frame_round_trip;
use crate::frame::lemma_truncated_frame_rejected;
use crate::frame::read_frame;
use crate::time::chrono_read;
use crate::time::chrono_write;
use crate::time::Timestamp;
use vstd::pervasive::unreached;
use vstd::prelude::*;

verus! {

/// One liveness announcement of a client.
#[derive(Debug)]
pub struct HeartbeatMsg {
    /// The sender's name. Expected to be non-empty, which is not enforced.
    pub name: String,
    /// The instant just before the message was encoded.
    pub sending_time: Timestamp,
}

/// What a [`HeartbeatMsg`] says: its name as a sequence of characters, and
/// its sending time.
#[verifier::ext_equal]
pub struct Heartbeat {
    pub name: Seq<char>,
    pub sending_time: Timestamp,
}

impl View for HeartbeatMsg {
    type V = Heartbeat;

    open spec fn view(&self) -> Heartbeat {
        Heartbeat { name: self.name@, sending_time: self.sending_time }
    }
}

/// Why a message could not be encoded.
#[derive(Clone, Copy, Debug, PartialEq, Eq, Structural)]
pub enum EncodeError {
    /// The sending time is no instant that the calendar can name, so it has
    /// no text.
    TimeOutOfRange,
}

/// Why bytes were not accepted as a heartbeat.
#[derive(Clone, Copy, Debug, PartialEq, Eq, Structural)]
pub enum DecodeError {
    /// The bytes do not hold two text fields: they are too short for what
    /// they announce, or a field is not UTF-8.
    Malformed,
    /// The two fields are there, but the second is not the text of an
    /// instant.
    BadTimestamp,
}

impl Heartbeat {
    /// A heartbeat that can travel: its name can be framed, and its sending
    /// time has a text that can be framed and that reads back as the same
    /// instant.
    pub open spec fn travels(self) -> bool {
        &&& fits(self.name)
        &&& self.sending_time.text() matches Some(text) && fits(text) && Timestamp::read(text)
            == Some(self.sending_time)
    }
}

/// The bytes of a heartbeat on the wire, or `None` where its sending time has
/// no text.
pub open spec fn encoded(heartbeat: Heartbeat) -> Option<Seq<u8>> {
    match heartbeat.sending_time.text() {
        Some(text) => Some(frame(heartbeat.name, text)),
        None => None,
    }
}

/// The heartbeat that bytes from the wire hold, or the reason why they hold
/// none.
pub open spec fn decoded(bytes: Seq<u8>) -> Result<Heartbeat, DecodeError> {
    match read_frame(bytes) {
        None => Err(DecodeError::Malformed),
        Some((name, text)) => match Timestamp::read(text) {
            None => Err(DecodeError::BadTimestamp),
            Some(sending_time) => Ok(Heartbeat { name, sending_time }),
        },
    }
}

impl HeartbeatMsg {
    /// A heartbeat of `name`, sent at `now`.
    pub fn new(name: &str, now: Timestamp) -> (msg: HeartbeatMsg)
        ensures
            msg@ == (Heartbeat { name: name@, sending_time: now }),
    {
        HeartbeatMsg { name: name.to_owned(), sending_time: now }
    }
}

/// Encodes a heartbeat for the wire.
///
/// Fails exactly where the sending time has no text. The bytes returned are
/// those of [`encoded`], and [`decode`] reads them back as the same
/// heartbeat.
pub fn encode(msg: &HeartbeatMsg) -> (r: Result<Vec<u8>, EncodeError>)
    ensures
        match r {
            Ok(bytes) => {
                &&& encoded(msg@) == Some(bytes@)
                &&& msg@.travels()
                &&& decoded(bytes@) == Ok::<Heartbeat, DecodeError>(msg@)
            },
            Err(e) => encoded(msg@) is None && e == EncodeError::TimeOutOfRange,
        },
{
    match chrono_write(msg.sending_time.seconds, msg.sending_time.nanoseconds) {
        None => Err(EncodeError::TimeOutOfRange),
        Some(text) => match bincode_write(msg.name.as_str(), text.as_str()) {
            Ok(bytes) => {
                proof {
                    // The datagram is in memory, so each of its fields fits its prefix.
                    lemma_field_len(msg.name@);
                    lemma_field_len(text@);
                    assert(bytes@.len() == bytes.len() <= usize::MAX);
                    lemma_round_trip(msg@, Seq::empty());
                }
                Ok(bytes)
            },
            // Writing into memory without a size limit reports no error.
            Err(_) => unreached(),
        },
    }
}

/// Decodes bytes from the wire.
///
/// Succeeds exactly where the bytes begin with two text fields of which the
/// second is the text of an instant; bytes after the second field are
/// ignored. Nothing of a datagram that fails is kept.
pub fn decode(bytes: &[u8]) -> (r: Result<HeartbeatMsg, DecodeError>)
    ensures
        match r {
            Ok(msg) => decoded(bytes@) == Ok::<Heartbeat, DecodeError>(msg@),
            Err(e) => decoded(bytes@) == Err::<Heartbeat, DecodeError>(e),
        },
{
    match bincode_read(bytes) {
        Err(_) => Err(DecodeError::Malformed),
        Ok((name, text)) => match chrono_read(text.as_str()) {
            None => Err(DecodeError::BadTimestamp),
            Some((seconds, nanoseconds)) => Ok(
                HeartbeatMsg { name, sending_time: Timestamp { seconds, nanoseconds } },
            ),
        },
    }
}

/// Round trip: the bytes of a heartbeat that can travel decode to that
/// heartbeat, in both fields, whatever bytes follow them.
pub proof fn lemma_round_trip(heartbeat: Heartbeat, trailing: Seq<u8>)
    requires
        heartbeat.travels(),
    ensures
        encoded(heartbeat) matches Some(bytes) && decoded(bytes + trailing) == Ok::<
            Heartbeat,
            DecodeError,
        >(heartbeat),
{
    let text = heartbeat.sending_time.text()->0;
    lemma_frame_round_trip(heartbeat.name, text, trailing);
}

/// What follows a heartbeat on the wire is ignored: bytes that decode to a
/// heartbeat still decode to it with anything appended.
pub proof fn lemma_trailing_bytes_ignored(bytes: Seq<u8>, trailing: Seq<u8>)
    requires
        decoded(bytes) is Ok,
    ensures
        decoded(bytes + trailing) == decoded(bytes),
{
    lemma_frame_read_is_frame(bytes);
    let (name, text) = read_frame(bytes)->0;
    let len = frame(name, text).len() as int;
    let rest = bytes.subrange(len, bytes.len() as int);
    assert(bytes + trailing =~= frame(name, text) + (rest + trailing));
    lemma_frame_round_trip(name, text, rest + trailing);
}

/// No two heartbeats share their bytes: the bytes of one are never read as
/// another.
pub proof fn lemma_encoding_is_injective(one: Heartbeat, other: Heartbeat)
    requires
        one.travels(),
        other.travels(),
        encoded(one) == encoded(other),
    ensures
        one == other,
{
    lemma_round_trip(one, Seq::empty());
    lemma_round_trip(other, Seq::empty());
}

/// Truncation is detected: no proper prefix of the bytes of a heartbeat
/// decodes to anything.
pub proof fn lemma_truncated_rejected(heartbeat: Heartbeat, bytes: Seq<u8>, k: int)
    requires
        heartbeat.travels(),
        encoded(heartbeat) == Some(bytes),
        0 <= k < bytes.len(),
    ensures
        decoded(bytes.subrange(0, k)) == Err::<Heartbeat, DecodeError>(DecodeError::Malformed),
{
    let text = heartbeat.sending_time.text()->0;
    lemma_truncated_frame_rejected(heartbeat.name, text, k);
}

/// Nothing is accepted that the bytes do not spell: where bytes decode to a
/// heartbeat, they begin with the datagram of its name and of a text that
/// reads as its sending time.
pub proof fn lemma_decoded_is_spelled(bytes: Seq<u8>)
    requires
        decoded(bytes) is Ok,
    ensures
        read_frame(bytes) matches Some((name, text)) && decoded(bytes) matches Ok(heartbeat) && {
            &&& heartbeat.name == name
            &&& Timestamp::read(text) == Some(heartbeat.sending_time)
            &&& frame(name, text).len() <= bytes.len()
            &&& bytes.subrange(0, frame(name, text).len() as int) == frame(name, text)
        },
{
    lemma_frame_read_is_frame(bytes);
}

} // verus!
