//! The error taxonomy of the issuance core.
//!
//! Every error aborts the whole invocation; nothing is retried or
//! downgraded inside the core.

use vstd::prelude::*;

verus! {

/// Why an invocation was rejected.
#[derive(Clone, Copy, Debug, PartialEq, Eq, Structural)]
pub enum CardError {
    /// The command envelope could not be decoded.
    MalformedInstruction,
    /// A supplied account does not match its required derived address or role.
    InvalidArgument,
    /// An ownership record for the (subject, holder, rarity) triple already
    /// exists: a business-rule rejection, not a bug.
    AlreadyOwned,
    /// A counter increment would overflow; never wrapped silently.
    CounterOverflow,
    /// No valid canonical address was found within the bounded salt search.
    DerivationExhausted,
    /// Existing counter bytes do not decode to the expected shape.
    CorruptState,
}

} // verus!
