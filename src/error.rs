use vstd::prelude::*;

verus! {

/// Why an instruction was refused. Every refusal aborts the whole call.
#[derive(Clone, Copy, Debug, PartialEq, Eq, Structural)]
pub enum ErrorCode {
    /// A record exists where it must not, or is missing where it is required.
    PreconditionViolation,
    /// The collection name or symbol exceeds its reserved byte budget.
    InputTooLarge,
    /// The token counter cannot be advanced without overflowing.
    ArithmeticOverflow,
    /// A declared account is not the address derived for its role.
    AuthorityMismatch,
}

} // verus!
