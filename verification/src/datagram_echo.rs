//! The datagram echo worker's decisions.
//!
//! A datagram worker loops: receive one datagram, send the same bytes straight
//! back to its sender over the same socket. This module decides what each
//! receive outcome means. The decision is the same under both scheduling
//! variants; they differ only in what `Retry` is in practice — an immediate
//! repeat of the blocking call on a dedicated thread, or the end of one
//! cooperative receive task until the next readiness event starts a fresh one.

use vstd::prelude::*;
use crate::errors::{classify, spec_classify, ErrorClass, IoErrorKind};

verus! {

/// The outcome of one receive call on a datagram socket.
#[derive(Clone, Copy, Debug, PartialEq, Eq, Structural)]
pub enum RecvEvent {
    /// A datagram of `len` bytes arrived.
    Datagram { len: usize },
    /// The receive call failed.
    Failed { kind: IoErrorKind },
}

/// What the worker does next.
#[derive(Clone, Copy, Debug, PartialEq, Eq, Structural)]
pub enum DatagramAction {
    /// Send the `len` received bytes back to the sender, then receive again.
    Reply { len: usize },
    /// A transient condition: receive again, with nothing sent and nothing
    /// reported.
    Retry,
    /// A fatal failure: stop this worker and surface the kind to the
    /// supervisor. Sibling workers are unaffected.
    Terminate { kind: IoErrorKind },
}

/// The worker's reaction to one receive outcome.
pub open spec fn spec_datagram_step(event: RecvEvent) -> DatagramAction {
    match event {
        RecvEvent::Datagram { len } => DatagramAction::Reply { len },
        RecvEvent::Failed { kind } => if spec_classify(kind) is Transient {
            DatagramAction::Retry
        } else {
            DatagramAction::Terminate { kind }
        },
    }
}

/// Decides the worker's next action: every received datagram is answered with
/// exactly its own length, a would-block or interrupted receive is retried,
/// and any other failure terminates the worker with that failure's kind.
pub fn datagram_step(event: &RecvEvent) -> (action: DatagramAction)
    ensures
        action == spec_datagram_step(*event),
        *event matches RecvEvent::Datagram { len } ==> action == (DatagramAction::Reply { len }),
        *event matches RecvEvent::Failed { kind } ==> if spec_classify(kind) is Transient {
            action is Retry
        } else {
            action == (DatagramAction::Terminate { kind })
        },
{
    match *event {
        RecvEvent::Datagram { len } => DatagramAction::Reply { len },
        RecvEvent::Failed { kind } => {
            match classify(kind) {
                ErrorClass::Transient => DatagramAction::Retry,
                ErrorClass::Fatal => DatagramAction::Terminate { kind },
            }
        },
    }
}

} // verus!
