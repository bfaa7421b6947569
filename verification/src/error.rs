//! The driver's error taxonomy.

use vstd::prelude::*;

verus! {

/// What went wrong with a driver operation.  Errors are never swallowed on
/// the main data path; retry policy, if any, is a caller concern.
#[derive(Clone, Copy, PartialEq, Eq, Structural, Debug)]
pub enum ExpanderError {
    /// The device path was invalid or inaccessible; fatal to construction.
    Open,
    /// Bus parameter negotiation failed; fatal to construction.
    Configure,
    /// An individual read or write transaction failed at the transport layer.
    Transaction,
}

} // verus!
