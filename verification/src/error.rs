use vstd::prelude::*;

verus! {

/// Errors that the trade composer itself can raise.
///
/// Failures of the external collaborators (an insufficient balance during
/// the tip transfer, a live price moving past the computed bound) are
/// surfaced by those collaborators at execution time and propagated
/// verbatim by the caller; they never originate here.
#[derive(Clone, Copy, Debug, PartialEq, Eq, Structural)]
pub enum ErrorCode {
    /// The curve account buffer is too short or carries the wrong
    /// leading discriminator.
    MalformedAccount,
    /// A virtual reserve of the curve is zero, so no spot price exists.
    InvalidPrice,
    /// An amount conversion or bound computation does not fit in 64 bits.
    ArithmeticOverflow,
    /// A caller-supplied account key differs from the configured constant
    /// address it must equal.
    AccountMismatch,
}

} // verus!
