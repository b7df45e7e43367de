//! The error taxonomy of the echo engine.
//!
//! Receive and send failures fall in exactly two classes. A would-block or an
//! interrupted call is a transient condition: it is retried in place and is
//! never an error. Everything else on a worker's own socket is fatal for that
//! worker alone, and is surfaced to the supervisor as a [`WorkerError`].

use vstd::prelude::*;
use crate::provision::Transport;

verus! {

/// The kind of an I/O failure, as the operating system reports it. Kinds the
/// engine does not distinguish are folded into `Other`.
#[derive(Clone, Copy, Debug, PartialEq, Eq, Structural)]
pub enum IoErrorKind {
    WouldBlock,
    Interrupted,
    ConnectionReset,
    ConnectionAborted,
    AddrInUse,
    PermissionDenied,
    TimedOut,
    Other,
}

/// What a failure means for the worker that hit it.
#[derive(Clone, Copy, Debug, PartialEq, Eq, Structural)]
pub enum ErrorClass {
    /// Retry in place; not an error.
    Transient,
    /// Terminate the worker and surface the failure to the supervisor.
    Fatal,
}

/// The class of a failure kind: transient exactly for would-block and
/// interrupted, fatal for everything else.
pub open spec fn spec_classify(kind: IoErrorKind) -> ErrorClass {
    match kind {
        IoErrorKind::WouldBlock => ErrorClass::Transient,
        IoErrorKind::Interrupted => ErrorClass::Transient,
        _ => ErrorClass::Fatal,
    }
}

/// Classifies a receive or send failure on a worker's own socket.
pub fn classify(kind: IoErrorKind) -> (class: ErrorClass)
    ensures
        class == spec_classify(kind),
        class is Transient <==> (kind is WouldBlock || kind is Interrupted),
{
    match kind {
        IoErrorKind::WouldBlock => ErrorClass::Transient,
        IoErrorKind::Interrupted => ErrorClass::Transient,
        _ => ErrorClass::Fatal,
    }
}

/// A fatal failure of one worker: which transport it served, its ordinal among
/// the workers of that transport, and the kind of failure that stopped it.
#[derive(Clone, Copy, Debug, PartialEq, Eq, Structural)]
pub struct WorkerError {
    pub transport: Transport,
    pub ordinal: usize,
    pub kind: IoErrorKind,
}

} // verus!
