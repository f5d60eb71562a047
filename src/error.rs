use vstd::prelude::*;

verus! {

/// Every way in which a transition can be refused.
///
/// The first eleven variants are the program's own error kinds; the rest
/// mirror the runtime's generic failures that the transitions can raise.
#[derive(Debug, Clone, Copy, PartialEq, Eq, Structural)]
pub enum MetalityGameContractError {
    /// The instruction buffer is empty or its opcode is unknown.
    InvalidInstruction,
    /// A derived authority address does not match.
    IncorrectPDA,
    /// An account that must authorize the transition did not sign.
    UserNotSigner,
    /// A custody record is not owned by the expected identity.
    IncorrectATAOwner,
    /// Two values that must be equal differ.
    EqualityMismatch,
    /// A custody record does not hold exactly one unit of a zero-decimal asset.
    InvalidTokenATA,
    /// A record that must be created afresh already exists.
    AlreadyInitialized,
    /// The caller is not the signing arbiter.
    NotAdmin,
    /// A joining party reuses an identity of the first party.
    SameUserJoining,
    /// The declared winner is neither recorded party.
    InvalidWinner,
    /// The game record is not held by this program, or holds no data.
    InvalidStateAccount,
    /// Stored bytes do not decode into the expected record shape.
    InvalidAccountData,
    /// A record decodes but is not initialized.
    UninitializedAccount,
    /// Fewer accounts were supplied than the transition reads.
    NotEnoughAccountKeys,
    /// No authority address can be derived from the seeds.
    InvalidSeeds,
    /// The sequence counter cannot be advanced further.
    ArithmeticOverflow,
}

impl MetalityGameContractError {
    /// The program-specific numeric code of an error, if it is one of the
    /// program's own kinds; the runtime's generic failures have none.
    pub fn custom_code(&self) -> (r: Option<u32>)
        ensures
            r == custom_code_of(*self),
    {
        match self {
            MetalityGameContractError::InvalidInstruction => Some(0),
            MetalityGameContractError::IncorrectPDA => Some(1),
            MetalityGameContractError::UserNotSigner => Some(2),
            MetalityGameContractError::IncorrectATAOwner => Some(3),
            MetalityGameContractError::EqualityMismatch => Some(4),
            MetalityGameContractError::InvalidTokenATA => Some(5),
            MetalityGameContractError::AlreadyInitialized => Some(6),
            MetalityGameContractError::NotAdmin => Some(7),
            MetalityGameContractError::SameUserJoining => Some(8),
            MetalityGameContractError::InvalidWinner => Some(9),
            MetalityGameContractError::InvalidStateAccount => Some(10),
            _ => None,
        }
    }
}

/// The numeric code of each of the program's own error kinds, in declaration order.
pub open spec fn custom_code_of(e: MetalityGameContractError) -> Option<u32> {
    match e {
        MetalityGameContractError::InvalidInstruction => Some(0),
        MetalityGameContractError::IncorrectPDA => Some(1),
        MetalityGameContractError::UserNotSigner => Some(2),
        MetalityGameContractError::IncorrectATAOwner => Some(3),
        MetalityGameContractError::EqualityMismatch => Some(4),
        MetalityGameContractError::InvalidTokenATA => Some(5),
        MetalityGameContractError::AlreadyInitialized => Some(6),
        MetalityGameContractError::NotAdmin => Some(7),
        MetalityGameContractError::SameUserJoining => Some(8),
        MetalityGameContractError::InvalidWinner => Some(9),
        MetalityGameContractError::InvalidStateAccount => Some(10),
        _ => None,
    }
}

} // verus!
