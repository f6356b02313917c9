use vstd::prelude::*;

verus! {

/// The failures a campaign transition can report to its caller.
///
/// Every precondition check of the three operations surfaces one of these
/// immediately; the core never recovers or retries, and a failed call leaves
/// the supplied accounts untouched.
#[derive(Clone, Copy, Debug, PartialEq, Eq, Structural)]
pub enum ProgramError {
    /// The instruction envelope is empty, carries an unknown tag, or its
    /// decoded payload contradicts the operation (such as an admin mismatch
    /// on campaign creation).
    MalformedInstruction,
    /// A payload or a stored account buffer is not a structurally valid
    /// encoding of the expected record.
    Decode,
    /// An account that the operation must rewrite is not owned by this
    /// program.
    Ownership,
    /// A required signer is missing, or the signer is not the campaign admin.
    Authorization,
    /// A balance check failed: the account would drop below its minimum
    /// balance floor, or it cannot cover the requested transfer.
    InsufficientFunds,
}

impl ProgramError {
    /// A human-readable diagnostic for each error kind; the exact text is not
    /// part of any contract.
    pub fn message(&self) -> &'static str {
        match self {
            ProgramError::MalformedInstruction => "instruction envelope is empty or has no matching entry point",
            ProgramError::Decode => "byte buffer is not a valid record encoding",
            ProgramError::Ownership => "account is not owned by this program",
            ProgramError::Authorization => "required signer is missing or is not the campaign admin",
            ProgramError::InsufficientFunds => "balance would drop below the required floor",
        }
    }
}

} // verus!
