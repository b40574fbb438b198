//! The server: one record per heartbeat received.
//!
//! The server takes one datagram at a time. It notes the time of arrival
//! before it looks at the payload, takes the sender's address from the
//! transport and never from the payload, decodes the payload and, where that
//! succeeds, makes the one record that is to be appended to storage. A
//! datagram that does not decode leaves no record, in whole or in part, and
//! neither it nor a failure of the transport stops the server.
//!
//! The caller owns the socket, the clock and the storage. It hands each
//! arrival to [`record_datagram`] or [`accept`] and appends the record that
//! comes back.

use crate::message::decode;
use crate::message::decoded;
use crate::message::encoded;
use crate::message::lemma_truncated_rejected;
use crate::message::DecodeError;
use crate::message::Heartbeat;
use crate::time::Timestamp;
use vstd::prelude::*;

verus! {

/// The size of the buffer that a datagram is received into. A longer
/// datagram arrives cut to this length.
pub const RECEIVE_BUFFER_LEN: usize = 1024;

/// The statement that makes the table of heartbeats unless it is there
/// already. It is run once at startup, and running it again changes nothing.
pub const CREATE_TABLE: &'static str = "CREATE TABLE IF NOT EXISTS `heartbeat` (
    `id` INTEGER PRIMARY KEY AUTOINCREMENT ,
    `name` TEXT NOT NULL,
    `src_ip` TEXT NOT NULL,
    `src_port` INTEGER NOT NULL,
    `src_time` INTEGER NOT NULL,
    `recv_time` INTEGER NOT NULL
)";

/// The statement that appends one record. Its parameters are the fields of
/// a [`HeartbeatRecord`] in their order: name, source address, source port,
/// sending time, time of arrival.
pub const INSERT_RECORD: &'static str =
    "INSERT INTO `heartbeat` (`name`, `src_ip`, `src_port`, `src_time`, `recv_time`) VALUES (?1, ?2, ?3, ?4, ?5)";

/// What the server is told at startup. It is not changed afterwards.
#[derive(Debug)]
pub struct ServerConfig {
    /// The address to receive on, as text.
    pub bind_addr: String,
    /// The port to receive on.
    pub bind_port: u16,
}

impl Default for ServerConfig {
    fn default() -> (config: ServerConfig)
        ensures
            config.bind_addr@ == Seq::<char>::empty(),
            config.bind_port == 0,
    {
        ServerConfig { bind_addr: String::new(), bind_port: 0 }
    }
}

/// What is stored of one heartbeat.
#[derive(Debug)]
pub struct HeartbeatRecord {
    /// The sender's name, as the message gave it.
    pub name: String,
    /// The address that the datagram came from, as the transport gave it.
    pub source_ip: String,
    /// The port that the datagram came from, as the transport gave it.
    pub source_port: u16,
    /// The sending time that the message gave.
    pub source_time: Timestamp,
    /// The time at which the datagram was read off the socket.
    pub receive_time: Timestamp,
}

/// What a [`HeartbeatRecord`] says, with its texts as sequences of
/// characters.
#[verifier::ext_equal]
pub struct Record {
    pub name: Seq<char>,
    pub source_ip: Seq<char>,
    pub source_port: u16,
    pub source_time: Timestamp,
    pub receive_time: Timestamp,
}

impl View for HeartbeatRecord {
    type V = Record;

    open spec fn view(&self) -> Record {
        Record {
            name: self.name@,
            source_ip: self.source_ip@,
            source_port: self.source_port,
            source_time: self.source_time,
            receive_time: self.receive_time,
        }
    }
}

/// What one wait on the socket brought.
#[derive(Debug)]
pub enum Arrival {
    /// A datagram, with the sender's address and the time of its arrival.
    Datagram { payload: Vec<u8>, source_ip: String, source_port: u16, receive_time: Timestamp },
    /// The receive failed.
    Failed,
}

/// Why an arrival left no record.
#[derive(Clone, Copy, Debug, PartialEq, Eq, Structural)]
pub enum ServerError {
    /// The transport failed to receive.
    Transport,
    /// The payload is no heartbeat.
    Decode(DecodeError),
}

/// The record of a datagram, or the reason why it has none: the name and the
/// sending time are the payload's, the address and the time of arrival are
/// the ones given.
pub open spec fn recorded(
    payload: Seq<u8>,
    source_ip: Seq<char>,
    source_port: u16,
    receive_time: Timestamp,
) -> Result<Record, DecodeError> {
    match decoded(payload) {
        Ok(heartbeat) => Ok(
            Record {
                name: heartbeat.name,
                source_ip,
                source_port,
                source_time: heartbeat.sending_time,
                receive_time,
            },
        ),
        Err(e) => Err(e),
    }
}

/// What an arrival comes to: its record, or the reason why it has none.
pub open spec fn outcome(arrival: Arrival) -> Result<Record, ServerError> {
    match arrival {
        Arrival::Failed => Err(ServerError::Transport),
        Arrival::Datagram { payload, source_ip, source_port, receive_time } => match recorded(
            payload@,
            source_ip@,
            source_port,
            receive_time,
        ) {
            Ok(record) => Ok(record),
            Err(e) => Err(ServerError::Decode(e)),
        },
    }
}

/// What a run of arrivals comes to, one outcome for each arrival, in order.
pub open spec fn outcomes(arrivals: Seq<Arrival>) -> Seq<Result<Record, ServerError>> {
    Seq::new(arrivals.len(), |i: int| outcome(arrivals[i]))
}

/// The records that a run of outcomes appends to storage: those of the
/// outcomes that are records, in the order of arrival.
pub open spec fn stored(outcomes: Seq<Result<Record, ServerError>>) -> Seq<Record>
    decreases outcomes.len(),
{
    if outcomes.len() == 0 {
        Seq::empty()
    } else {
        match outcomes.last() {
            Ok(record) => stored(outcomes.drop_last()).push(record),
            Err(_) => stored(outcomes.drop_last()),
        }
    }
}

/// What an answer of the server says.
pub open spec fn answer_view(answer: Result<HeartbeatRecord, ServerError>) -> Result<
    Record,
    ServerError,
> {
    match answer {
        Ok(record) => Ok(record@),
        Err(e) => Err(e),
    }
}

/// What a run of answers says, answer by answer.
pub open spec fn answer_views(answers: Seq<Result<HeartbeatRecord, ServerError>>) -> Seq<
    Result<Record, ServerError>,
> {
    Seq::new(answers.len(), |i: int| answer_view(answers[i]))
}

/// Makes the record of one datagram.
///
/// `source_ip` and `source_port` are the sender's address as the transport
/// gave it, `receive_time` the time at which the datagram was read off the
/// socket. Succeeds exactly where the payload decodes; then the record holds
/// the message's name and sending time and the three values given. Where the
/// payload does not decode, the error of [`decode`] is returned and no
/// record is made.
pub fn record_datagram(
    payload: &[u8],
    source_ip: &str,
    source_port: u16,
    receive_time: Timestamp,
) -> (r: Result<HeartbeatRecord, DecodeError>)
    ensures
        match r {
            Ok(record) => recorded(payload@, source_ip@, source_port, receive_time) == Ok::<
                Record,
                DecodeError,
            >(record@),
            Err(e) => recorded(payload@, source_ip@, source_port, receive_time) == Err::<
                Record,
                DecodeError,
            >(e),
        },
{
    match decode(payload) {
        Ok(msg) => Ok(
            HeartbeatRecord {
                name: msg.name,
                source_ip: source_ip.to_owned(),
                source_port,
                source_time: msg.sending_time,
                receive_time,
            },
        ),
        Err(e) => Err(e),
    }
}

/// Answers one arrival: the record to append, or the failure to report.
/// Either way the server goes on to the next arrival.
pub fn accept(arrival: &Arrival) -> (r: Result<HeartbeatRecord, ServerError>)
    ensures
        answer_view(r) == outcome(*arrival),
{
    match arrival {
        Arrival::Failed => Err(ServerError::Transport),
        Arrival::Datagram { payload, source_ip, source_port, receive_time } => {
            match record_datagram(
                payload.as_slice(),
                source_ip.as_str(),
                *source_port,
                *receive_time,
            ) {
                Ok(record) => Ok(record),
                Err(e) => Err(ServerError::Decode(e)),
            }
        },
    }
}

/// Runs the server over a recorded run of arrivals and returns the answer to
/// each, in order. No failure ends the run: every arrival is answered,
/// whatever came before it.
pub fn replay(arrivals: &Vec<Arrival>) -> (answers: Vec<Result<HeartbeatRecord, ServerError>>)
    ensures
        answer_views(answers@) == outcomes(arrivals@),
{
    let mut answers: Vec<Result<HeartbeatRecord, ServerError>> = Vec::new();
    let mut i: usize = 0;
    while i < arrivals.len()
        invariant
            i <= arrivals.len(),
            answers@.len() == i,
            forall|j: int| 0 <= j < i ==> answer_view(answers@[j]) == outcome(arrivals@[j]),
        decreases arrivals.len() - i,
    {
        let answer = accept(&arrivals[i]);
        answers.push(answer);
        i += 1;
    }
    answers
}

/// A heartbeat that does not fit the receive buffer is not recorded: what
/// arrives of it is its first [`RECEIVE_BUFFER_LEN`] bytes, and they do not
/// decode.
pub proof fn lemma_cut_by_buffer_not_recorded(
    heartbeat: Heartbeat,
    bytes: Seq<u8>,
    source_ip: Seq<char>,
    source_port: u16,
    receive_time: Timestamp,
)
    requires
        heartbeat.travels(),
        encoded(heartbeat) == Some(bytes),
        bytes.len() > RECEIVE_BUFFER_LEN,
    ensures
        recorded(
            bytes.subrange(0, RECEIVE_BUFFER_LEN as int),
            source_ip,
            source_port,
            receive_time,
        ) == Err::<Record, DecodeError>(DecodeError::Malformed),
{
    lemma_truncated_rejected(heartbeat, bytes, RECEIVE_BUFFER_LEN as int);
}

/// What is stored of a run does not depend on how the run is cut in two:
/// the records of the first part, then those of the second.
pub proof fn lemma_stored_of_two_runs(first: Seq<Arrival>, second: Seq<Arrival>)
    ensures
        stored(outcomes(first + second)) == stored(outcomes(first)) + stored(outcomes(second)),
    decreases second.len(),
{
    if second.len() > 0 {
        let shorter = second.drop_last();
        assert(outcomes(first + second).drop_last() =~= outcomes(first + shorter));
        assert(outcomes(second).drop_last() =~= outcomes(shorter));
        lemma_stored_of_two_runs(first, shorter);
    }
}

/// One arrival stores its record, if it has one, and nothing else.
pub proof fn lemma_stored_of_one(arrival: Arrival)
    ensures
        stored(outcomes(seq![arrival])) == match outcome(arrival) {
            Ok(record) => seq![record],
            Err(_) => Seq::<Record>::empty(),
        },
{
    assert(stored(outcomes(seq![arrival]).drop_last()) =~= Seq::<Record>::empty());
}

/// A failure is isolated: of an arrival that has no record followed by one
/// that has, exactly the record of the second is stored.
pub proof fn lemma_failure_is_isolated(bad: Arrival, good: Arrival)
    requires
        outcome(bad) is Err,
        outcome(good) is Ok,
    ensures
        outcomes(seq![bad, good]) == seq![outcome(bad), outcome(good)],
        stored(outcomes(seq![bad, good])) == seq![outcome(good)->Ok_0],
{
    assert(seq![bad, good] =~= seq![bad] + seq![good]);
    lemma_stored_of_two_runs(seq![bad], seq![good]);
    lemma_stored_of_one(bad);
    lemma_stored_of_one(good);
}

/// A run of failures stores nothing.
pub proof fn lemma_failures_store_nothing(failures: Seq<Arrival>)
    requires
        forall|i: int| 0 <= i < failures.len() ==> outcome(#[trigger] failures[i]) is Err,
    ensures
        stored(outcomes(failures)) == Seq::<Record>::empty(),
    decreases failures.len(),
{
    if failures.len() > 0 {
        assert(outcomes(failures).drop_last() =~= outcomes(failures.drop_last()));
        lemma_failures_store_nothing(failures.drop_last());
    }
}

/// The server outlasts failures: after any number of arrivals that have no
/// record, nothing is stored and nothing has stopped, and an arrival that
/// has a record is answered with it and it alone is stored.
pub proof fn lemma_outlasts_failures(failures: Seq<Arrival>, good: Arrival)
    requires
        forall|i: int| 0 <= i < failures.len() ==> outcome(#[trigger] failures[i]) is Err,
        outcome(good) is Ok,
    ensures
        outcomes(failures + seq![good]).len() == failures.len() + 1,
        outcomes(failures + seq![good]).last() == outcome(good),
        stored(outcomes(failures)) == Seq::<Record>::empty(),
        stored(outcomes(failures + seq![good])) == seq![outcome(good)->Ok_0],
{
    lemma_failures_store_nothing(failures);
    lemma_stored_of_two_runs(failures, seq![good]);
    lemma_stored_of_one(good);
}

} // verus!
