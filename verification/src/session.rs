//! The handlers that serve one connection each.
//!
//! A handler is a loop of reads and writes on its connection. Here it is
//! the rule of that loop: which operation comes next, given how the last
//! one ended. The echo handler answers every chunk it reads with a fixed
//! marker followed by the chunk, until the peer closes its side. A write
//! may take only a part of what it was given: the handler keeps count and
//! writes the rest before it goes on.

use crate::error::SysError;
use vstd::prelude::*;

verus! {

/// The size of the buffer that an echo handler reads into.
pub const BUFFER_SIZE: usize = 1024;

/// The number of pings that a keepalive handler sends.
pub const KEEPALIVE_PINGS: usize = 20;

/// The length of the marker.
pub const MARKER_LEN: usize = 12;

/// The length of one ping.
pub const PING_LEN: usize = 14;

/// The bytes that precede every echoed chunk: `FromServer: `.
pub open spec fn marker() -> Seq<u8> {
    seq![70u8, 114u8, 111u8, 109u8, 83u8, 101u8, 114u8, 118u8, 101u8, 114u8, 58u8, 32u8]
}

/// The bytes of one keepalive ping: `pingFromServer`.
pub open spec fn ping() -> Seq<u8> {
    seq![
        112u8,
        105u8,
        110u8,
        103u8,
        70u8,
        114u8,
        111u8,
        109u8,
        83u8,
        101u8,
        114u8,
        118u8,
        101u8,
        114u8,
    ]
}

/// The marker as bytes to write.
pub fn marker_bytes() -> (bytes: Vec<u8>)
    ensures
        bytes@ == marker(),
{
    let bytes: Vec<u8> = vec![70u8, 114u8, 111u8, 109u8, 83u8, 101u8, 114u8, 118u8, 101u8, 114u8, 58u8, 32u8];
    proof {
        assert(bytes@ =~= marker());
    }
    bytes
}

/// One ping as bytes to write.
pub fn ping_bytes() -> (bytes: Vec<u8>)
    ensures
        bytes@ == ping(),
{
    let bytes: Vec<u8> = vec![
        112u8,
        105u8,
        110u8,
        103u8,
        70u8,
        114u8,
        111u8,
        109u8,
        83u8,
        101u8,
        114u8,
        118u8,
        101u8,
        114u8,
    ];
    proof {
        assert(bytes@ =~= ping());
    }
    bytes
}

/// Everything that the echo handler sends in answer to one chunk: the
/// marker, then the chunk, byte for byte.
pub fn reply(received: &[u8]) -> (bytes: Vec<u8>)
    ensures
        bytes@ == marker() + received@,
{
    let mut bytes = marker_bytes();
    let mut i: usize = 0;
    while i < received.len()
        invariant
            0 <= i <= received@.len(),
            bytes@ == marker() + received@.take(i as int),
        decreases received@.len() - i,
    {
        bytes.push(received[i]);
        proof {
            assert(received@.take(i + 1) =~= received@.take(i as int).push(received@[i as int]));
            assert(bytes@ =~= marker() + received@.take(i + 1));
        }
        i = i + 1;
    }
    proof {
        assert(received@.take(received@.len() as int) =~= received@);
    }
    bytes
}

/// What a handler does next on its connection.
#[derive(Clone, Copy, Debug, PartialEq, Eq)]
pub enum Action {
    /// Read into the buffer.
    Read,
    /// Write the marker from its byte `from` on.
    WriteMarker { from: usize },
    /// Write the bytes of the buffer from `from` up to, not including,
    /// `len`.
    WritePayload { from: usize, len: usize },
    /// Write one ping from its byte `from` on.
    WritePing { from: usize },
    /// Stop, with success or with the failure that ended the session.
    Finish(Result<(), SysError>),
}

/// Where an echo session stands.
#[derive(Clone, Copy, Debug, PartialEq, Eq)]
pub enum EchoSession {
    /// Waiting for the next chunk.
    Reading,
    /// A chunk of `len` bytes was read; `sent` bytes of the marker are out.
    Marking { len: usize, sent: usize },
    /// The marker is out, and `sent` bytes of the chunk of `len` bytes.
    Echoing { len: usize, sent: usize },
    /// Over: the peer closed its side, or an operation failed.
    Finished(Result<(), SysError>),
}

impl EchoSession {
    /// A state that a session can be in: a chunk is not empty and fits the
    /// buffer, and something of what is being written is still to go.
    pub open spec fn wf(self) -> bool {
        match self {
            EchoSession::Marking { len, sent } => 0 < len <= BUFFER_SIZE && sent < MARKER_LEN,
            EchoSession::Echoing { len, sent } => sent < len <= BUFFER_SIZE,
            _ => true,
        }
    }

    /// Whether the session is in the middle of answering a chunk.
    pub open spec fn writing(self) -> bool {
        self is Marking || self is Echoing
    }

    /// The operation that this state asks for.
    pub open spec fn spec_action(self) -> Action {
        match self {
            EchoSession::Reading => Action::Read,
            EchoSession::Marking { len, sent } => Action::WriteMarker { from: sent },
            EchoSession::Echoing { len, sent } => Action::WritePayload { from: sent, len },
            EchoSession::Finished(outcome) => Action::Finish(outcome),
        }
    }

    /// The state after the operation ended with `result`, the number of
    /// bytes moved or a failure. A read of zero bytes ends the session in
    /// success; a read of more starts the answer. A write goes on to the
    /// next stage only when its count reaches the end of what the stage
    /// has to send; a smaller count is added to what is out and the stage
    /// stays. A failure ends the session with that failure; a finished
    /// session stays as it is.
    pub open spec fn spec_resume(self, result: Result<usize, SysError>) -> EchoSession {
        match self {
            EchoSession::Finished(outcome) => self,
            _ => match result {
                Err(e) => EchoSession::Finished(Err(e)),
                Ok(n) => match self {
                    EchoSession::Reading => if n == 0 {
                        EchoSession::Finished(Ok(()))
                    } else if n > BUFFER_SIZE {
                        EchoSession::Marking { len: BUFFER_SIZE, sent: 0 }
                    } else {
                        EchoSession::Marking { len: n, sent: 0 }
                    },
                    EchoSession::Marking { len, sent } => if sent < MARKER_LEN && n < MARKER_LEN
                        - sent {
                        EchoSession::Marking { len, sent: (sent + n) as usize }
                    } else {
                        EchoSession::Echoing { len, sent: 0 }
                    },
                    EchoSession::Echoing { len, sent } => if sent < len && n < len - sent {
                        EchoSession::Echoing { len, sent: (sent + n) as usize }
                    } else {
                        EchoSession::Reading
                    },
                    _ => self,
                },
            },
        }
    }

    /// The bytes of the answer to the chunk in `buffer` that are still to
    /// be sent.
    pub open spec fn pending(self, buffer: Seq<u8>) -> Seq<u8> {
        match self {
            EchoSession::Marking { len, sent } => marker().skip(sent as int) + buffer.take(
                len as int,
            ),
            EchoSession::Echoing { len, sent } => buffer.subrange(sent as int, len as int),
            _ => Seq::empty(),
        }
    }

    /// The bytes that go out when the write of this state is answered with
    /// the count `n`: the next `n` of what the stage has to send, or all
    /// that is left of it where `n` is more.
    pub open spec fn taken(self, buffer: Seq<u8>, n: usize) -> Seq<u8> {
        match self {
            EchoSession::Marking { len, sent } => if n < MARKER_LEN - sent {
                marker().subrange(sent as int, sent + n)
            } else {
                marker().skip(sent as int)
            },
            EchoSession::Echoing { len, sent } => if n < len - sent {
                buffer.subrange(sent as int, sent + n)
            } else {
                buffer.subrange(sent as int, len as int)
            },
            _ => Seq::empty(),
        }
    }

    /// The state after the writes of one answer were answered with
    /// `counts`, one after the other, as far as the answer needs them.
    pub open spec fn after_writes(self, counts: Seq<usize>) -> EchoSession
        decreases counts.len(),
    {
        if counts.len() == 0 || !self.writing() {
            self
        } else {
            self.spec_resume(Ok(counts[0])).after_writes(counts.skip(1))
        }
    }

    /// All bytes that go out while the writes of one answer are answered
    /// with `counts`, in the order in which they go out.
    pub open spec fn output(self, buffer: Seq<u8>, counts: Seq<usize>) -> Seq<u8>
        decreases counts.len(),
    {
        if counts.len() == 0 || !self.writing() {
            Seq::empty()
        } else {
            self.taken(buffer, counts[0]) + self.spec_resume(Ok(counts[0])).output(
                buffer,
                counts.skip(1),
            )
        }
    }

    /// A session on a fresh connection.
    pub fn new() -> (session: EchoSession)
        ensures
            session == EchoSession::Reading,
    {
        EchoSession::Reading
    }

    /// The operation to perform now.
    pub fn action(&self) -> (action: Action)
        ensures
            action == self.spec_action(),
    {
        match self {
            EchoSession::Reading => Action::Read,
            EchoSession::Marking { len: _, sent } => Action::WriteMarker { from: *sent },
            EchoSession::Echoing { len, sent } => Action::WritePayload { from: *sent, len: *len },
            EchoSession::Finished(outcome) => Action::Finish(*outcome),
        }
    }

    /// Takes the result of the operation and gives the state that follows.
    pub fn resume(self, result: Result<usize, SysError>) -> (next: EchoSession)
        ensures
            next == self.spec_resume(result),
    {
        match self {
            EchoSession::Finished(outcome) => EchoSession::Finished(outcome),
            EchoSession::Reading => match result {
                Err(e) => EchoSession::Finished(Err(e)),
                Ok(n) => if n == 0 {
                    EchoSession::Finished(Ok(()))
                } else if n > BUFFER_SIZE {
                    EchoSession::Marking { len: BUFFER_SIZE, sent: 0 }
                } else {
                    EchoSession::Marking { len: n, sent: 0 }
                },
            },
            EchoSession::Marking { len, sent } => match result {
                Err(e) => EchoSession::Finished(Err(e)),
                Ok(n) => if sent < MARKER_LEN && n < MARKER_LEN - sent {
                    EchoSession::Marking { len, sent: sent + n }
                } else {
                    EchoSession::Echoing { len, sent: 0 }
                },
            },
            EchoSession::Echoing { len, sent } => match result {
                Err(e) => EchoSession::Finished(Err(e)),
                Ok(n) => if sent < len && n < len - sent {
                    EchoSession::Echoing { len, sent: sent + n }
                } else {
                    EchoSession::Reading
                },
            },
        }
    }
}

/// A keepalive session: `sent` whole pings are out, and `offset` bytes of
/// the next one.
#[derive(Clone, Copy, Debug, PartialEq, Eq)]
pub enum KeepaliveSession {
    Pinging { sent: usize, offset: usize },
    Finished(Result<(), SysError>),
}

impl KeepaliveSession {
    /// The operation that this state asks for.
    pub open spec fn spec_action(self) -> Action {
        match self {
            KeepaliveSession::Pinging { sent, offset } => if sent < KEEPALIVE_PINGS {
                Action::WritePing { from: offset }
            } else {
                Action::Finish(Ok(()))
            },
            KeepaliveSession::Finished(outcome) => Action::Finish(outcome),
        }
    }

    /// The state after a write ended with `result`. A count that reaches
    /// the end of the ping makes one more ping whole; a smaller count is
    /// added to what is out of it. A failure ends the session with that
    /// failure. Once all pings are out, or the session is finished,
    /// nothing changes.
    pub open spec fn spec_resume(self, result: Result<usize, SysError>) -> KeepaliveSession {
        match self {
            KeepaliveSession::Pinging { sent, offset } => if sent < KEEPALIVE_PINGS {
                match result {
                    Ok(n) => if offset < PING_LEN && n < PING_LEN - offset {
                        KeepaliveSession::Pinging { sent, offset: (offset + n) as usize }
                    } else {
                        KeepaliveSession::Pinging { sent: (sent + 1) as usize, offset: 0 }
                    },
                    Err(e) => KeepaliveSession::Finished(Err(e)),
                }
            } else {
                KeepaliveSession::Finished(Ok(()))
            },
            KeepaliveSession::Finished(outcome) => self,
        }
    }

    /// A session on a fresh connection.
    pub fn new() -> (session: KeepaliveSession)
        ensures
            session == (KeepaliveSession::Pinging { sent: 0, offset: 0 }),
    {
        KeepaliveSession::Pinging { sent: 0, offset: 0 }
    }

    /// The operation to perform now.
    pub fn action(&self) -> (action: Action)
        ensures
            action == self.spec_action(),
    {
        match self {
            KeepaliveSession::Pinging { sent, offset } => if *sent < KEEPALIVE_PINGS {
                Action::WritePing { from: *offset }
            } else {
                Action::Finish(Ok(()))
            },
            KeepaliveSession::Finished(outcome) => Action::Finish(*outcome),
        }
    }

    /// Takes the result of a write and gives the state that follows.
    pub fn resume(self, result: Result<usize, SysError>) -> (next: KeepaliveSession)
        ensures
            next == self.spec_resume(result),
    {
        match self {
            KeepaliveSession::Pinging { sent, offset } => if sent < KEEPALIVE_PINGS {
                match result {
                    Ok(n) => if offset < PING_LEN && n < PING_LEN - offset {
                        KeepaliveSession::Pinging { sent, offset: offset + n }
                    } else {
                        KeepaliveSession::Pinging { sent: sent + 1, offset: 0 }
                    },
                    Err(e) => KeepaliveSession::Finished(Err(e)),
                }
            } else {
                KeepaliveSession::Finished(Ok(()))
            },
            KeepaliveSession::Finished(outcome) => KeepaliveSession::Finished(outcome),
        }
    }
}

/// Every state that a session reaches is one it can be in: a fresh
/// session is, and so is the state after any result.
pub proof fn lemma_echo_session_stays_wf(session: EchoSession, result: Result<usize, SysError>)
    requires
        session.wf(),
    ensures
        EchoSession::Reading.wf(),
        session.spec_resume(result).wf(),
{
}

/// One write of an answer sends the next bytes that are still to be sent,
/// and leaves the rest to be sent: nothing is skipped and nothing goes out
/// twice, whatever count the write is answered with.
pub proof fn lemma_echo_write_sends_next_bytes(session: EchoSession, buffer: Seq<u8>, n: usize)
    requires
        session.wf(),
        session.writing(),
        buffer.len() == BUFFER_SIZE,
    ensures
        session.taken(buffer, n) + session.spec_resume(Ok(n)).pending(buffer) == session.pending(
            buffer,
        ),
{
    let next = session.spec_resume(Ok(n));
    match session {
        EchoSession::Marking { len, sent } => {
            if n < MARKER_LEN - sent {
                assert(marker().subrange(sent as int, sent + n) + marker().skip(sent + n)
                    =~= marker().skip(sent as int));
                assert(session.taken(buffer, n) + next.pending(buffer) =~= session.pending(
                    buffer,
                ));
            } else {
                assert(next.pending(buffer) =~= buffer.take(len as int));
            }
        },
        EchoSession::Echoing { len, sent } => {
            if n < len - sent {
                assert(session.taken(buffer, n) + next.pending(buffer) =~= session.pending(
                    buffer,
                ));
            } else {
                assert(session.taken(buffer, n) + next.pending(buffer) =~= session.pending(
                    buffer,
                ));
            }
        },
        _ => {},
    }
}

/// What went out during the writes of an answer, followed by what is still
/// to be sent after them, is what was to be sent before them.
pub proof fn lemma_echo_output_is_prefix(
    session: EchoSession,
    buffer: Seq<u8>,
    counts: Seq<usize>,
)
    requires
        session.wf(),
        buffer.len() == BUFFER_SIZE,
    ensures
        session.after_writes(counts).wf(),
        session.output(buffer, counts) + session.after_writes(counts).pending(buffer)
            == session.pending(buffer),
    decreases counts.len(),
{
    if counts.len() == 0 || !session.writing() {
        assert(session.output(buffer, counts) + session.pending(buffer) =~= session.pending(
            buffer,
        ));
    } else {
        let next = session.spec_resume(Ok(counts[0]));
        lemma_echo_write_sends_next_bytes(session, buffer, counts[0]);
        lemma_echo_output_is_prefix(next, buffer, counts.skip(1));
        let first = session.taken(buffer, counts[0]);
        let rest = next.output(buffer, counts.skip(1));
        let left = next.after_writes(counts.skip(1)).pending(buffer);
        assert((first + rest) + left =~= first + (rest + left));
    }
}

/// One round of an echo session. A read of `len` bytes, with `len` above
/// zero and within the buffer, starts an answer. Whatever counts its
/// writes are answered with, once the session reads again the bytes that
/// went out are the marker followed by exactly the `len` bytes that were
/// read, each once and in order.
pub proof fn lemma_echo_round(buffer: Seq<u8>, len: usize, counts: Seq<usize>)
    requires
        buffer.len() == BUFFER_SIZE,
        0 < len <= BUFFER_SIZE,
        EchoSession::Reading.spec_resume(Ok(len)).after_writes(counts) == EchoSession::Reading,
    ensures
        EchoSession::Reading.spec_action() == Action::Read,
        EchoSession::Reading.spec_resume(Ok(len)).output(buffer, counts) == marker()
            + buffer.take(len as int),
{
    let start = EchoSession::Reading.spec_resume(Ok(len));
    lemma_echo_output_is_prefix(start, buffer, counts);
    assert(marker().skip(0) =~= marker());
    assert(start.output(buffer, counts) + Seq::<u8>::empty() =~= start.output(buffer, counts));
}

/// An answer whose writes are each taken in full is two writes: the whole
/// marker, then the whole chunk; after them the session reads again.
pub proof fn lemma_echo_round_of_full_writes(len: usize)
    requires
        0 < len <= BUFFER_SIZE,
    ensures
        ({
            let read = EchoSession::Reading.spec_resume(Ok(len));
            let wrote_marker = read.spec_resume(Ok(MARKER_LEN));
            let wrote_chunk = wrote_marker.spec_resume(Ok(len));
            &&& read.spec_action() == Action::WriteMarker { from: 0 }
            &&& wrote_marker.spec_action() == Action::WritePayload { from: 0, len }
            &&& wrote_chunk == EchoSession::Reading
        }),
{
}

/// A write that takes at least one byte, but not all that is left, leaves
/// the session in its stage and asks for the rest: the next write starts
/// where this one ended.
pub proof fn lemma_echo_short_write_continues(session: EchoSession, n: usize)
    requires
        session.wf(),
    ensures
        match session {
            EchoSession::Marking { len, sent } => n < MARKER_LEN - sent ==> session.spec_resume(
                Ok(n),
            ).spec_action() == Action::WriteMarker { from: (sent + n) as usize },
            EchoSession::Echoing { len, sent } => n < len - sent ==> session.spec_resume(
                Ok(n),
            ).spec_action() == Action::WritePayload { from: (sent + n) as usize, len },
            _ => true,
        },
{
}

/// A read of zero bytes ends an echo session in success, and a finished
/// session asks for nothing more, whatever it is told afterwards.
pub proof fn lemma_echo_stops_at_end_of_input(later: Result<usize, SysError>)
    ensures
        EchoSession::Reading.spec_resume(Ok(0)) == EchoSession::Finished(Ok(())),
        EchoSession::Finished(Ok(())).spec_action() == Action::Finish(Ok(())),
        EchoSession::Finished(Ok(())).spec_resume(later) == EchoSession::Finished(Ok(())),
{
}

/// A failure of any operation ends an unfinished echo session with that
/// failure.
pub proof fn lemma_echo_failure_ends_session(session: EchoSession, e: SysError)
    requires
        !(session is Finished),
    ensures
        session.spec_resume(Err(e)) == EchoSession::Finished(Err(e)),
{
}

} // verus!
