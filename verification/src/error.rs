//! The kinds of fault the pipeline absorbs.

use vstd::prelude::*;

verus! {

/// The closed set of faults. None of them stops the pipeline; each is
/// reported once, beside the action of the step that met it.
#[derive(Debug, Clone, Copy, PartialEq, Eq, Structural)]
pub enum ErrorKind {
    /// A payload could not be decoded into a record; it was dropped.
    DecodeError,
    /// The transport reported a connection failure.
    TransportError,
    /// The store refused a bulk write; the batch is lost.
    PersistenceError,
}

} // verus!
