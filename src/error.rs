use vstd::prelude::*;
use anchor_lang::solana_program::program_error::ProgramError;

verus! {

/// Every way a bridge operation can be refused.
#[derive(Clone, Copy, Debug, PartialEq, Eq, Structural)]
pub enum BridgeError {
    BridgeNotActive,
    UnapprovedHookProgram,
    NonTransferableToken,
    InsufficientLockedTokens,
    InvalidTokenVault,
    BridgeTokenMintMismatch,
    MaxApprovedHooksReached,
    HookProgramAlreadyApproved,
    Unauthorized,
    InvalidExtensionConfig,
    TokenVaultAlreadyExists,
    TransferFeeCalculationFailed,
    HookValidationFailed,
    InvalidBridgeTokenAmount,
    MathOverflow,
    SenderNotWhitelisted,
    IsNotCurrentlyTransferring,
}

impl BridgeError {
    /// The human-readable message of each error.
    pub open spec fn spec_message(&self) -> &'static str {
        match self {
            BridgeError::BridgeNotActive => "Bridge is not active",
            BridgeError::UnapprovedHookProgram => "Transfer hook program is not approved",
            BridgeError::NonTransferableToken => "Token is non-transferable and cannot be bridged",
            BridgeError::InsufficientLockedTokens => "Insufficient locked tokens for unwrap",
            BridgeError::InvalidTokenVault => "Invalid token vault for this mint",
            BridgeError::BridgeTokenMintMismatch => "Bridge token mint mismatch",
            BridgeError::MaxApprovedHooksReached => "Maximum approved hook programs reached",
            BridgeError::HookProgramAlreadyApproved => "Hook program already approved",
            BridgeError::Unauthorized => "Unauthorized: only bridge authority can perform this action",
            BridgeError::InvalidExtensionConfig => "Invalid extension configuration",
            BridgeError::TokenVaultAlreadyExists => "Token vault already exists for this mint",
            BridgeError::TransferFeeCalculationFailed => "Transfer fee calculation failed",
            BridgeError::HookValidationFailed => "Hook validation failed during unwrap",
            BridgeError::InvalidBridgeTokenAmount => "Invalid bridge token amount",
            BridgeError::MathOverflow => "Math overflow error",
            BridgeError::SenderNotWhitelisted => "Sender is not whitelisted",
            BridgeError::IsNotCurrentlyTransferring => "The token is not currently transferring",
        }
    }

    /// The human-readable message of each error.
    pub fn message(&self) -> (r: &'static str)
        ensures
            r == self.spec_message(),
    {
        match self {
            BridgeError::BridgeNotActive => "Bridge is not active",
            BridgeError::UnapprovedHookProgram => "Transfer hook program is not approved",
            BridgeError::NonTransferableToken => "Token is non-transferable and cannot be bridged",
            BridgeError::InsufficientLockedTokens => "Insufficient locked tokens for unwrap",
            BridgeError::InvalidTokenVault => "Invalid token vault for this mint",
            BridgeError::BridgeTokenMintMismatch => "Bridge token mint mismatch",
            BridgeError::MaxApprovedHooksReached => "Maximum approved hook programs reached",
            BridgeError::HookProgramAlreadyApproved => "Hook program already approved",
            BridgeError::Unauthorized => "Unauthorized: only bridge authority can perform this action",
            BridgeError::InvalidExtensionConfig => "Invalid extension configuration",
            BridgeError::TokenVaultAlreadyExists => "Token vault already exists for this mint",
            BridgeError::TransferFeeCalculationFailed => "Transfer fee calculation failed",
            BridgeError::HookValidationFailed => "Hook validation failed during unwrap",
            BridgeError::InvalidBridgeTokenAmount => "Invalid bridge token amount",
            BridgeError::MathOverflow => "Math overflow error",
            BridgeError::SenderNotWhitelisted => "Sender is not whitelisted",
            BridgeError::IsNotCurrentlyTransferring => "The token is not currently transferring",
        }
    }
}

/// Why the transfer hook or its dispatcher refused a call.
#[derive(Debug)]
pub enum HookError {
    /// A refusal of the bridge's own.
    Bridge(BridgeError),
    /// A refusal of the token runtime's libraries, passed through.
    Program(ProgramError),
    /// The account meant for a new descriptor list has been written already.
    AccountAlreadyInitialized,
    /// The instruction data cannot be decoded.
    InvalidInstructionData,
    /// The whitelist record is shorter than its type tag.
    AccountDiscriminatorNotFound,
    /// The whitelist record carries another type's tag.
    AccountDiscriminatorMismatch,
    /// The whitelist record's fields cannot be read.
    AccountDidNotDeserialize,
}

} // verus!
