//! The stream echo worker's decisions, and the per-connection echo session.
//!
//! A stream worker loops accepting connections on its listening socket. Each
//! accepted connection is handed to an independent echo task, so accepting is
//! never held up by any one connection. A failed accept attempt is logged and
//! the worker keeps accepting: one bad inbound attempt never brings the
//! listener down. The worker only terminates when its own socket is gone.
//!
//! The echo task copies bytes back to the peer until the peer closes or an
//! I/O error ends the connection. [`EchoSession`] carries that copy loop's
//! guarantee: each reply is exactly the bytes just read, and over the whole
//! connection the echoed stream equals the received stream, whatever the
//! chunking.

use vstd::prelude::*;
use crate::buffer::copy_prefix;
use crate::errors::IoErrorKind;

verus! {

/// The state of one stream worker.
#[derive(Clone, Copy, Debug, PartialEq, Eq, Structural)]
pub enum WorkerState {
    /// Accepting connections.
    Listening,
    /// The worker's own socket is gone; the loop has ended.
    Terminated,
}

/// The outcome of one accept attempt.
#[derive(Clone, Copy, Debug, PartialEq, Eq, Structural)]
pub enum AcceptEvent {
    /// A connection was accepted.
    Accepted,
    /// One accept attempt failed.
    AcceptFailed { kind: IoErrorKind },
    /// The listening socket itself is closed.
    SocketClosed,
}

/// What the worker does next.
#[derive(Clone, Copy, Debug, PartialEq, Eq, Structural)]
pub enum AcceptAction {
    /// Hand the connection to an independent echo task and accept again.
    SpawnEchoTask,
    /// Log the failed attempt and accept again.
    LogAndContinue,
    /// End the worker's loop.
    Stop,
}

/// The worker's reaction to one accept outcome: a listening worker spawns an
/// echo task for every accepted connection, keeps listening through every
/// failed attempt, and stops only when its socket is closed.
pub open spec fn spec_stream_step(state: WorkerState, event: AcceptEvent) -> (WorkerState, AcceptAction) {
    match state {
        WorkerState::Terminated => (WorkerState::Terminated, AcceptAction::Stop),
        WorkerState::Listening => match event {
            AcceptEvent::Accepted => (WorkerState::Listening, AcceptAction::SpawnEchoTask),
            AcceptEvent::AcceptFailed { .. } => (WorkerState::Listening, AcceptAction::LogAndContinue),
            AcceptEvent::SocketClosed => (WorkerState::Terminated, AcceptAction::Stop),
        },
    }
}

/// Decides a stream worker's next state and action after one accept attempt.
pub fn stream_step(state: WorkerState, event: &AcceptEvent) -> (r: (WorkerState, AcceptAction))
    ensures
        r == spec_stream_step(state, *event),
{
    match state {
        WorkerState::Terminated => (WorkerState::Terminated, AcceptAction::Stop),
        WorkerState::Listening => match *event {
            AcceptEvent::Accepted => (WorkerState::Listening, AcceptAction::SpawnEchoTask),
            AcceptEvent::AcceptFailed { .. } => (WorkerState::Listening, AcceptAction::LogAndContinue),
            AcceptEvent::SocketClosed => (WorkerState::Terminated, AcceptAction::Stop),
        },
    }
}

/// The worker's state after reacting to a whole sequence of accept outcomes.
pub open spec fn run_worker(state: WorkerState, events: Seq<AcceptEvent>) -> WorkerState
    decreases events.len(),
{
    if events.len() == 0 {
        state
    } else {
        run_worker(spec_stream_step(state, events.first()).0, events.drop_first())
    }
}

/// Accept isolation: one failing accept attempt leaves the worker listening,
/// and the next accepted connection is still handed to an echo task.
pub proof fn lemma_accept_isolation(kind: IoErrorKind)
    ensures
        spec_stream_step(WorkerState::Listening, AcceptEvent::AcceptFailed { kind }).0 is Listening,
        spec_stream_step(
            spec_stream_step(WorkerState::Listening, AcceptEvent::AcceptFailed { kind }).0,
            AcceptEvent::Accepted,
        ).1 is SpawnEchoTask,
{
}

/// However many accept attempts fail, and in whatever order connections
/// arrive, a listening worker is still listening as long as its own socket
/// stays open.
pub proof fn lemma_worker_survives_accept_errors(state: WorkerState, events: Seq<AcceptEvent>)
    requires
        state is Listening,
        forall|i: int| 0 <= i < events.len() ==> !(#[trigger] events[i] is SocketClosed),
    ensures
        run_worker(state, events) is Listening,
    decreases events.len(),
{
    if events.len() > 0 {
        let next = spec_stream_step(state, events.first()).0;
        assert(events[0] == events.first());
        assert(next is Listening);
        assert(forall|i: int|
            0 <= i < events.drop_first().len() ==> !(#[trigger] events.drop_first()[i] is SocketClosed));
        lemma_worker_survives_accept_errors(next, events.drop_first());
    }
}

/// One connection's echo state: the bytes received from the peer so far, and
/// the bytes echoed back so far, both oldest first.
pub struct EchoSession {
    pub received: Ghost<Seq<u8>>,
    pub echoed: Ghost<Seq<u8>>,
}

impl EchoSession {
    /// Everything received so far has been echoed back, byte for byte and in
    /// order.
    pub open spec fn wf(self) -> bool {
        self.echoed@ == self.received@
    }

    /// A session for a freshly accepted connection: nothing received, nothing
    /// echoed.
    pub fn new() -> (session: Self)
        ensures
            session.wf(),
            session.received@ == Seq::<u8>::empty(),
            session.echoed@ == Seq::<u8>::empty(),
    {
        EchoSession { received: Ghost(Seq::empty()), echoed: Ghost(Seq::empty()) }
    }

    /// One iteration of the copy loop: a read put `amt` bytes at the front of
    /// the scratch buffer, and the reply is exactly those bytes, in order.
    /// Received and echoed streams both grow by the same bytes, so a session
    /// that echoed everything so far still has.
    pub fn process_chunk(&mut self, buf: &Vec<u8>, amt: usize) -> (reply: Vec<u8>)
        requires
            amt <= buf.len(),
        ensures
            reply@ == buf@.subrange(0, amt as int),
            final(self).received@ == old(self).received@ + buf@.subrange(0, amt as int),
            final(self).echoed@ == old(self).echoed@ + reply@,
            old(self).wf() ==> final(self).wf(),
    {
        let reply = copy_prefix(buf, amt);
        proof {
            self.received@ = self.received@ + buf@.subrange(0, amt as int);
            self.echoed@ = self.echoed@ + reply@;
        }
        reply
    }
}

/// A session's streams after processing a sequence of chunks, mirroring
/// [`EchoSession::process_chunk`]: the pair (received, echoed), each extended
/// by every chunk in order.
pub open spec fn run_session(streams: (Seq<u8>, Seq<u8>), chunks: Seq<Seq<u8>>) -> (Seq<u8>, Seq<u8>)
    decreases chunks.len(),
{
    if chunks.len() == 0 {
        streams
    } else {
        run_session((streams.0 + chunks.first(), streams.1 + chunks.first()), chunks.drop_first())
    }
}

proof fn lemma_run_session(streams: (Seq<u8>, Seq<u8>), chunks: Seq<Seq<u8>>)
    ensures
        run_session(streams, chunks).0 == streams.0 + chunks.flatten(),
        run_session(streams, chunks).1 == streams.1 + chunks.flatten(),
    decreases chunks.len(),
{
    if chunks.len() == 0 {
        assert(chunks.flatten() == Seq::<u8>::empty());
        assert(streams.0 + chunks.flatten() =~= streams.0);
        assert(streams.1 + chunks.flatten() =~= streams.1);
    } else {
        let c = chunks.first();
        let rest = chunks.drop_first();
        lemma_run_session((streams.0 + c, streams.1 + c), rest);
        assert((streams.0 + c) + rest.flatten() =~= streams.0 + (c + rest.flatten()));
        assert((streams.1 + c) + rest.flatten() =~= streams.1 + (c + rest.flatten()));
        assert(chunks.flatten() == c + rest.flatten());
    }
}

/// Echo fidelity over one connection: however a peer's byte sequence is
/// chunked across reads, a fresh session that processes the chunks in order
/// receives exactly their concatenation and echoes exactly their
/// concatenation — the peer reads back exactly what it sent, in order.
pub proof fn lemma_stream_echo_fidelity(chunks: Seq<Seq<u8>>)
    ensures
        run_session((Seq::<u8>::empty(), Seq::<u8>::empty()), chunks).0 == chunks.flatten(),
        run_session((Seq::<u8>::empty(), Seq::<u8>::empty()), chunks).1 == chunks.flatten(),
{
    lemma_run_session((Seq::<u8>::empty(), Seq::<u8>::empty()), chunks);
    assert(Seq::<u8>::empty() + chunks.flatten() =~= chunks.flatten());
}

/// Connection independence: each connection is echoed from its own session
/// alone, so two simultaneous connections each read back exactly their own
/// bytes — one session's echoed stream is a function of its own chunks only,
/// and never holds the other's data.
pub proof fn lemma_connection_independence(a_chunks: Seq<Seq<u8>>, b_chunks: Seq<Seq<u8>>)
    ensures
        run_session((Seq::<u8>::empty(), Seq::<u8>::empty()), a_chunks).1 == a_chunks.flatten(),
        run_session((Seq::<u8>::empty(), Seq::<u8>::empty()), b_chunks).1 == b_chunks.flatten(),
{
    lemma_stream_echo_fidelity(a_chunks);
    lemma_stream_echo_fidelity(b_chunks);
}

} // verus!
