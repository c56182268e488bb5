use vstd::prelude::*;
use spl_tlv_account_resolution::account::ExtraAccountMeta;
use spl_transfer_hook_interface::instruction::TransferHookInstruction;
use crate::error::{BridgeError, HookError};
use crate::interface::{
    all_zero, meta_list_fits, meta_list_written,
    execute_discriminator, initialize_metas_discriminator, le_bytes, meta_list_count_fits, meta_list_shaped, metas_decoded,
    opens_with, update_metas_discriminator,
};
use crate::pubkey::{lemma_view_injective, Pubkey};
use crate::whitelist::{
    publish_meta_list,stored_key, stored_user_count, stored_whitelist_admits, stored_whitelist_error, SimpleWhitelist};

verus! {

/// One account handed to the dispatcher: its address and raw data.
#[derive(Clone, Debug)]
pub struct HookAccount {
    pub key: Pubkey,
    pub data: Vec<u8>,
}

/// What an accepted interface instruction asks of the caller.
#[derive(Debug)]
pub enum FallbackAction {
    /// The transfer is allowed.
    Approved,
    /// Store `data` in account 0: its old contents with the descriptor list
    /// published.
    InitializeExtraAccountMetaList { data: Vec<u8> },
    /// Overwrite the descriptor list in account 0 with this one.
    UpdateExtraAccountMetaList { extra_account_metas: Vec<ExtraAccountMeta> },
}

/// Whether the first eight bytes of `data` are `tag`.
fn opens_with_tag(data: &[u8], tag: &[u8; 8]) -> (r: bool)
    requires
        data@.len() >= 8,
    ensures
        r == (data@.subrange(0, 8) == tag@),
{
    let mut i: usize = 0;
    while i < 8
        invariant
            0 <= i <= 8,
            data@.len() >= 8,
            tag@.len() == 8,
            forall|j: int| 0 <= j < i ==> data@[j] == tag@[j],
        decreases 8 - i,
    {
        if data[i] != tag[i] {
            assert(data@.subrange(0, 8)[i as int] != tag@[i as int]);
            return false;
        }
        i = i + 1;
    }
    assert(data@.subrange(0, 8) =~= tag@);
    true
}

/// Whether a descriptor-list instruction counts no more descriptors than it
/// carries.
fn meta_count_fits(data: &[u8]) -> (r: bool)
    ensures
        r == meta_list_count_fits(data@),
{
    if data.len() < 12 || (data.len() - 12) % 35 != 0 {
        return true;
    }
    let init_tag: [u8; 8] = [43, 34, 13, 49, 167, 88, 235, 235];
    let update_tag: [u8; 8] = [157, 105, 42, 146, 102, 85, 241, 174];
    assert(init_tag@ =~= initialize_metas_discriminator());
    assert(update_tag@ =~= update_metas_discriminator());
    if !opens_with_tag(data, &init_tag) && !opens_with_tag(data, &update_tag) {
        return true;
    }
    let n: u64 = data[8] as u64 + 256 * (data[9] as u64 + 256 * (data[10] as u64 + 256 * (data[11] as u64)));
    proof {
        reveal_with_fuel(le_bytes, 5);
        assert(n == le_bytes(data@, 8, 4));
    }
    35 * n <= (data.len() - 12) as u64
}

/// The outcome of an `Execute` call on the six accounts it needs: the
/// record in account 5 must be readable and admit the owner in account 3.
pub open spec fn execute_outcome(accounts: Seq<HookAccount>) -> Result<(), HookError> {
    if accounts.len() < 6 {
        Err(HookError::Bridge(BridgeError::IsNotCurrentlyTransferring))
    } else if let Some(e) = stored_whitelist_error(accounts[5].data@) {
        Err(e)
    } else if !stored_whitelist_admits(accounts[5].data@, accounts[3].key) {
        Err(HookError::Bridge(BridgeError::SenderNotWhitelisted))
    } else {
        Ok(())
    }
}

/// A decoded whitelist admits exactly whom its stored bytes admit.
proof fn lemma_decoded_admits(data: Seq<u8>, w: SimpleWhitelist, user: Pubkey)
    requires
        w.users@.len() == stored_user_count(data),
        forall|i: int| 0 <= i < stored_user_count(data) ==> (#[trigger] w.users@[i])@ == stored_key(data, 76 + 32 * i),
        w.is_active == (data[crate::whitelist::stored_users_end(data)] == 1),
    ensures
        w.admits(user) == stored_whitelist_admits(data, user),
{
    if w.users@.contains(user) {
        let i = choose|i: int| 0 <= i < w.users@.len() && w.users@[i] == user;
        assert(stored_key(data, 76 + 32 * i) == user@);
    }
    if exists|i: int| 0 <= i < stored_user_count(data) && #[trigger] stored_key(data, 76 + 32 * i) == user@ {
        let i = choose|i: int| 0 <= i < stored_user_count(data) && #[trigger] stored_key(data, 76 + 32 * i) == user@;
        lemma_view_injective(w.users@[i], user);
        assert(w.users@[i] == user);
    }
}

/// The entry point the token runtime calls through the transfer hook
/// interface. The first eight bytes of `data` select the instruction:
/// `Execute` checks the owner (account 3) against the whitelist record stored
/// in account 5 and changes nothing; the two descriptor-list instructions
/// hand back what to store in account 0, without any authority check of their
/// own: initialization the account's new contents, update the list that is
/// to replace the one stored there. Any other instruction is refused, and so is a descriptor list
/// that counts more entries than it carries.
pub fn whitelist_fallback(accounts: &Vec<HookAccount>, data: &[u8]) -> (r: Result<FallbackAction, HookError>)
    ensures
        !opens_with(data@, execute_discriminator()) && !opens_with(data@, initialize_metas_discriminator())
            && !opens_with(data@, update_metas_discriminator()) ==> r matches Err(HookError::Program(_)),
        opens_with(data@, execute_discriminator()) ==> if data@.len() < 16 {
            r matches Err(HookError::Program(_))
        } else {
            match execute_outcome(accounts@) {
                Ok(()) => r matches Ok(FallbackAction::Approved),
                Err(HookError::Bridge(e)) => r matches Err(HookError::Bridge(f)) && f == e,
                Err(HookError::AccountDiscriminatorNotFound) => r matches Err(HookError::AccountDiscriminatorNotFound),
                Err(HookError::AccountDiscriminatorMismatch) => r matches Err(HookError::AccountDiscriminatorMismatch),
                Err(HookError::AccountDidNotDeserialize) => r matches Err(HookError::AccountDidNotDeserialize),
                Err(HookError::Program(_)) | Err(HookError::InvalidInstructionData) | Err(
                    HookError::AccountAlreadyInitialized,
                ) => false,
            }
        },
        opens_with(data@, initialize_metas_discriminator()) ==> if !meta_list_count_fits(data@) {
            r matches Err(HookError::InvalidInstructionData)
        } else if !meta_list_shaped(data@) {
            r matches Err(HookError::Program(_))
        } else if accounts@.len() < 1 {
            r matches Err(HookError::Bridge(BridgeError::IsNotCurrentlyTransferring))
        } else {
            exists|metas: Seq<ExtraAccountMeta>|
                {
                    &&& #[trigger] metas_decoded(data@, metas)
                    &&& if !all_zero(accounts@[0].data@) {
                        r matches Err(HookError::AccountAlreadyInitialized)
                    } else if meta_list_fits(accounts@[0].data@.len() as int, metas.len() as int) {
                        r matches Ok(FallbackAction::InitializeExtraAccountMetaList { data: out })
                            && out@.len() == accounts@[0].data@.len() && meta_list_written(out@, metas)
                    } else {
                        r matches Err(HookError::Program(_))
                    }
                }
        },
        opens_with(data@, update_metas_discriminator()) ==> if !meta_list_count_fits(data@) {
            r matches Err(HookError::InvalidInstructionData)
        } else if !meta_list_shaped(data@) {
            r matches Err(HookError::Program(_))
        } else if accounts@.len() < 1 {
            r matches Err(HookError::Bridge(BridgeError::IsNotCurrentlyTransferring))
        } else {
            r matches Ok(FallbackAction::UpdateExtraAccountMetaList { extra_account_metas }) && metas_decoded(
                data@,
                extra_account_metas@,
            )
        },
{
    if !meta_count_fits(data) {
        return Err(HookError::InvalidInstructionData);
    }
    let instruction = match TransferHookInstruction::unpack(data) {
        Ok(i) => i,
        Err(e) => return Err(HookError::Program(e)),
    };
    match instruction {
        TransferHookInstruction::Execute { amount: _ } => {
            if accounts.len() < 6 {
                return Err(HookError::Bridge(BridgeError::IsNotCurrentlyTransferring));
            }
            let owner = &accounts[3].key;
            let whitelist = SimpleWhitelist::try_deserialize(accounts[5].data.as_slice())?;
            proof {
                lemma_decoded_admits(accounts@[5].data@, whitelist, *owner);
            }
            if !whitelist.is_whitelisted(owner) {
                return Err(HookError::Bridge(BridgeError::SenderNotWhitelisted));
            }
            Ok(FallbackAction::Approved)
        },
        TransferHookInstruction::InitializeExtraAccountMetaList { extra_account_metas } => {
            if accounts.len() < 1 {
                return Err(HookError::Bridge(BridgeError::IsNotCurrentlyTransferring));
            }
            let written = publish_meta_list(&accounts[0].data, &extra_account_metas)?;
            Ok(FallbackAction::InitializeExtraAccountMetaList { data: written })
        },
        TransferHookInstruction::UpdateExtraAccountMetaList { extra_account_metas } => {
            if accounts.len() < 1 {
                return Err(HookError::Bridge(BridgeError::IsNotCurrentlyTransferring));
            }
            Ok(FallbackAction::UpdateExtraAccountMetaList { extra_account_metas })
        },
    }
}

} // verus!
