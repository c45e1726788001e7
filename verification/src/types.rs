//! The two qualifiers of a refspec: what it is for, and how it applies.

use vstd::prelude::*;

verus! {

/// The transfer that a refspec governs. It decides which side of the
/// refspec names the remote reference and which the local one.
#[derive(Clone, Copy, Debug, PartialEq, Eq, Structural, PartialOrd, Ord, Hash)]
pub enum Operation {
    /// The refspec describes what to take from the remote.
    Fetch,
    /// The refspec describes what to send to the remote.
    Push,
}

/// How a refspec applies to the references it matches.
#[derive(Clone, Copy, Debug, PartialEq, Eq, Structural, PartialOrd, Ord, Hash)]
pub enum Mode {
    /// Update only where the update is a fast-forward.
    Normal,
    /// Update even where the update is not a fast-forward.
    Force,
    /// Leave out what the refspec matches. Only a fetch can say so.
    Negative,
}

} // verus!
