use vstd::prelude::*;

verus! {

/// Why one usage event could not be accounted.
#[derive(Clone, Copy, Debug, PartialEq, Eq, Structural)]
pub enum QuotaError {
    /// The stored row holds an unknown plan, an unreadable date, a negative
    /// hit count, or lacks a field that its plan needs.
    DataIntegrity,
    /// No ledger row exists for the key.
    NotFound,
    /// A concurrent writer changed the row since it was read.
    StaleWrite,
    /// The store itself failed (transport, availability, range).
    Store,
    /// The event carried no usable API key.
    MalformedEvent,
}

} // verus!
