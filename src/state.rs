use vstd::prelude::*;
use crate::pubkey::Pubkey;

verus! {

/// The bridge's singleton configuration record.
#[derive(Clone, Debug)]
pub struct BridgeConfig {
    /// The key allowed to change this record.
    pub authority: Pubkey,
    /// Bump seed of the record's derived address.
    pub bump: u8,
    /// The claim asset minted against locked tokens (zero until created).
    pub bridge_token_mint: Pubkey,
    /// Hook programs a vault may be bound to.
    pub approved_hook_programs: Vec<Pubkey>,
    /// Sum of the locked amounts of all vaults.
    pub total_locked_amount: u64,
    /// Whether wraps and unwraps are accepted.
    pub is_active: bool,
}

impl BridgeConfig {
    pub const MAX_APPROVED_HOOKS: usize = 10;

    pub const SPACE: usize = 8 + 32 + 1 + 32 + (4 + 32 * 10) + 8 + 1;

    /// At most ten approved hook programs, none listed twice.
    pub open spec fn wf(&self) -> bool {
        &&& self.approved_hook_programs@.len() <= Self::MAX_APPROVED_HOOKS
        &&& self.approved_hook_programs@.no_duplicates()
    }
}

/// The escrow record of one restricted asset.
#[derive(Clone, Copy, Debug)]
pub struct TokenVault {
    pub bridge_config: Pubkey,
    /// The restricted asset held here (zero until the first wrap).
    pub restricted_token_mint: Pubkey,
    /// The token account that holds the locked tokens.
    pub vault_token_account: Pubkey,
    pub bridge_token_mint: Pubkey,
    /// Amount of the restricted asset locked here.
    pub total_locked: u64,
    /// The transfer hook this vault is bound to, if any.
    pub hook_program_id: Option<Pubkey>,
    pub extensions_bitmap: u64,
    pub bump: u8,
}

impl TokenVault {
    pub const SPACE: usize = 8 + 32 + 32 + 32 + 32 + 8 + (1 + 32) + 8 + 1;

    /// Whether the vault has been set up by a first wrap.
    pub open spec fn is_initialized(&self) -> bool {
        !self.restricted_token_mint.is_zeroed()
    }

    /// A record not yet set up holds nothing.
    pub open spec fn wf(&self) -> bool {
        self.is_initialized() || self.total_locked == 0
    }
}

/// The kind of policy a hook program enforces.
#[derive(Clone, Copy, Debug, PartialEq, Eq, Structural)]
pub enum HookType {
    Whitelist,
    KYC,
    TransferLimit,
    Custom,
}

/// Describes the hook program bound to a vault.
#[derive(Clone, Copy, Debug)]
pub struct HookMetadata {
    pub vault: Pubkey,
    pub hook_program_id: Pubkey,
    pub extra_account_meta_list: Pubkey,
    pub hook_type: HookType,
    pub is_active: bool,
    pub bump: u8,
}

impl HookMetadata {
    pub const SPACE: usize = 8 + 32 + 32 + 32 + 1 + 1 + 1;
}

/// Bits of `TokenVault::extensions_bitmap`.
pub struct ExtensionFlags;

impl ExtensionFlags {
    pub const TRANSFER_HOOK: u64 = 1;
    pub const TRANSFER_FEE: u64 = 2;
    pub const DEFAULT_ACCOUNT_STATE: u64 = 4;
    pub const NON_TRANSFERABLE: u64 = 8;
    pub const METADATA: u64 = 16;
}

} // verus!
