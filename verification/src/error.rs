use vstd::prelude::*;

verus! {

/// Why an invocation was aborted.
#[derive(Clone, Copy, Debug, PartialEq, Eq, Structural)]
pub enum HookError {
    /// The configuration record already exists.
    AlreadyInitialized,
    /// The list of extra accounts is already published for the mint.
    AlreadyPublished,
    /// The caller is not the stored authority.
    Unauthorized,
    /// An account does not have the address, derivation, mint or owner that
    /// the hook demands.
    ConstraintViolation,
    /// The caller left out an account that the hook needs.
    MissingAccount,
    /// The raw instruction is not one that the hook knows.
    UnknownInstruction,
    /// The token movement was rejected.
    TransferFailure,
}

} // verus!
