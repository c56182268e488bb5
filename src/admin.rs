use vstd::prelude::*;
use crate::error::BridgeError;
use crate::pubkey::{
    contains_key, lemma_first_index_chosen, lemma_push_keeps_distinct, lemma_remove_keeps_distinct,
    position_of, without_first, lemma_without_first_is_filter, Pubkey,
};
use crate::state::BridgeConfig;

verus! {

/// `b` is `a` with only the approved hook list possibly changed.
pub open spec fn same_except_hooks(a: BridgeConfig, b: BridgeConfig) -> bool {
    &&& b.authority == a.authority
    &&& b.bump == a.bump
    &&& b.bridge_token_mint == a.bridge_token_mint
    &&& b.total_locked_amount == a.total_locked_amount
    &&& b.is_active == a.is_active
}

/// The error, if any, with which adding `id` to the approved list is refused.
pub open spec fn add_hook_error(c: BridgeConfig, signer: Pubkey, id: Pubkey) -> Option<BridgeError> {
    if signer != c.authority {
        Some(BridgeError::Unauthorized)
    } else if c.approved_hook_programs@.contains(id) {
        Some(BridgeError::HookProgramAlreadyApproved)
    } else if c.approved_hook_programs@.len() >= BridgeConfig::MAX_APPROVED_HOOKS {
        Some(BridgeError::MaxApprovedHooksReached)
    } else {
        None
    }
}

/// A fresh configuration: `authority` in charge, no claim asset yet, no approved
/// hooks, nothing locked, active.
pub fn initialize_bridge(authority: Pubkey, bump: u8) -> (r: BridgeConfig)
    ensures
        r.authority == authority,
        r.bump == bump,
        r.bridge_token_mint.is_zeroed(),
        r.approved_hook_programs@.len() == 0,
        r.total_locked_amount == 0,
        r.is_active,
        r.wf(),
{
    BridgeConfig {
        authority,
        bump,
        bridge_token_mint: Pubkey::zeroed(),
        approved_hook_programs: Vec::new(),
        total_locked_amount: 0,
        is_active: true,
    }
}

/// Records `mint` as the claim asset, once; only the authority may do so.
/// A claim asset already recorded is never replaced.
pub fn create_bridge_token_mint(config: &mut BridgeConfig, signer: &Pubkey, mint: Pubkey) -> (r:
    Result<(), BridgeError>)
    ensures
        *signer != old(config).authority ==> r == Err::<(), BridgeError>(BridgeError::Unauthorized),
        *signer == old(config).authority && !old(config).bridge_token_mint.is_zeroed() ==> r == Err::<
            (),
            BridgeError,
        >(BridgeError::BridgeTokenMintMismatch),
        r is Ok <==> *signer == old(config).authority && old(config).bridge_token_mint.is_zeroed(),
        r is Err ==> *final(config) == *old(config),
        r is Ok ==> *final(config) == (BridgeConfig { bridge_token_mint: mint, ..*old(config) }),
{
    if *signer != config.authority {
        return Err(BridgeError::Unauthorized);
    }
    if !config.bridge_token_mint.is_zero() {
        return Err(BridgeError::BridgeTokenMintMismatch);
    }
    config.bridge_token_mint = mint;
    Ok(())
}

/// Approves a hook program, refusing a full list or one already present.
pub fn add_approved_hook_program(config: &mut BridgeConfig, signer: &Pubkey, hook_program_id: Pubkey) -> (r:
    Result<(), BridgeError>)
    ensures
        r is Ok <==> add_hook_error(*old(config), *signer, hook_program_id) is None,
        r matches Err(e) ==> Some(e) == add_hook_error(*old(config), *signer, hook_program_id)
            && *final(config) == *old(config),
        r is Ok ==> same_except_hooks(*old(config), *final(config))
            && final(config).approved_hook_programs@ == old(
            config,
        ).approved_hook_programs@.push(hook_program_id),
        old(config).wf() ==> final(config).wf(),
{
    if *signer != config.authority {
        return Err(BridgeError::Unauthorized);
    }
    if contains_key(&config.approved_hook_programs, &hook_program_id) {
        return Err(BridgeError::HookProgramAlreadyApproved);
    }
    if config.approved_hook_programs.len() >= BridgeConfig::MAX_APPROVED_HOOKS {
        return Err(BridgeError::MaxApprovedHooksReached);
    }
    config.approved_hook_programs.push(hook_program_id);
    proof {
        lemma_push_keeps_distinct(old(config).approved_hook_programs@, hook_program_id);
    }
    Ok(())
}

/// Withdraws approval of a hook program; an id that is not approved is left alone.
pub fn remove_approved_hook_program(config: &mut BridgeConfig, signer: &Pubkey, hook_program_id: Pubkey) -> (r:
    Result<(), BridgeError>)
    ensures
        r is Err <==> *signer != old(config).authority,
        r matches Err(e) ==> e == BridgeError::Unauthorized && *final(config) == *old(config),
        r is Ok ==> same_except_hooks(*old(config), *final(config))
            && final(config).approved_hook_programs@ == without_first(
            old(config).approved_hook_programs@,
            hook_program_id,
        ),
        old(config).wf() ==> final(config).wf(),
        r is Ok && old(config).wf() ==> !final(config).approved_hook_programs@.contains(hook_program_id)
            && final(config).approved_hook_programs@ == old(config).approved_hook_programs@.filter(
            |x: Pubkey| x != hook_program_id,
        ),
{
    if *signer != config.authority {
        return Err(BridgeError::Unauthorized);
    }
    let ghost s = config.approved_hook_programs@;
    proof {
        if s.no_duplicates() {
            lemma_without_first_is_filter(s, hook_program_id);
        }
    }
    match position_of(&config.approved_hook_programs, &hook_program_id) {
        Some(pos) => {
            config.approved_hook_programs.remove(pos);
            proof {
                lemma_first_index_chosen(s, hook_program_id, pos as int);
                lemma_remove_keeps_distinct(s, pos as int);
            }
        },
        None => {},
    }
    Ok(())
}

/// Flips whether the bridge accepts wraps and unwraps.
pub fn toggle_bridge_status(config: &mut BridgeConfig, signer: &Pubkey) -> (r: Result<(), BridgeError>)
    ensures
        r is Err <==> *signer != old(config).authority,
        r matches Err(e) ==> e == BridgeError::Unauthorized && *final(config) == *old(config),
        r is Ok ==> *final(config) == (BridgeConfig { is_active: !old(config).is_active, ..*old(config) }),
{
    if *signer != config.authority {
        return Err(BridgeError::Unauthorized);
    }
    config.is_active = !config.is_active;
    Ok(())
}

/// Hands the bridge to `new_authority`, in one step.
pub fn update_bridge_authority(config: &mut BridgeConfig, signer: &Pubkey, new_authority: Pubkey) -> (r:
    Result<(), BridgeError>)
    ensures
        r is Err <==> *signer != old(config).authority,
        r matches Err(e) ==> e == BridgeError::Unauthorized && *final(config) == *old(config),
        r is Ok ==> *final(config) == (BridgeConfig { authority: new_authority, ..*old(config) }),
{
    if *signer != config.authority {
        return Err(BridgeError::Unauthorized);
    }
    config.authority = new_authority;
    Ok(())
}

/// Approving an id a second time is refused with `HookProgramAlreadyApproved`,
/// however full the list is.
pub proof fn lemma_second_approval_refused(c0: BridgeConfig, c1: BridgeConfig, signer: Pubkey, id: Pubkey)
    requires
        add_hook_error(c0, signer, id) is None,
        same_except_hooks(c0, c1),
        c1.approved_hook_programs@ == c0.approved_hook_programs@.push(id),
    ensures
        add_hook_error(c1, signer, id) == Some(BridgeError::HookProgramAlreadyApproved),
{
    assert(c1.approved_hook_programs@[c0.approved_hook_programs@.len() as int] == id);
}

/// An accepted approval never takes the list past its bound.
pub proof fn lemma_approved_list_bounded(c: BridgeConfig, signer: Pubkey, id: Pubkey)
    requires
        add_hook_error(c, signer, id) is None,
    ensures
        c.approved_hook_programs@.push(id).len() <= BridgeConfig::MAX_APPROVED_HOOKS,
{
}

/// Toggling the bridge twice, by its authority, gives back the configuration
/// it started from.
pub proof fn lemma_toggle_twice(c: BridgeConfig)
    ensures
        ({
            let c1 = BridgeConfig { is_active: !c.is_active, ..c };
            &&& c1.authority == c.authority
            &&& (BridgeConfig { is_active: !c1.is_active, ..c1 }) == c
        }),
{
}

} // verus!
