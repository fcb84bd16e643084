use vstd::prelude::*;

verus! {

/// Trust state of a relationship.
#[derive(Debug, Clone, Copy, PartialEq, Eq, Structural)]
pub enum TrustState {
    /// Fully trusted
    Trusted,
    /// Partially trusted
    Partial,
    /// Not trusted
    Untrusted,
}

/// What one side does in a round.
#[derive(Debug, Clone, Copy, PartialEq, Eq, Structural)]
pub enum Action {
    Cooperate,
    Defect,
}

} // verus!
