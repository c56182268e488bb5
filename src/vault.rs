use vstd::prelude::*;
use crate::error::BridgeError;
use crate::ledger::{
    lemma_plan_deltas_concat, plan_balance_delta, plan_supply_delta, CallSigner, CustodyCall, PlannedCall,
};
use crate::pubkey::{contains_key, Pubkey};
use crate::state::{BridgeConfig, TokenVault};

verus! {

/// The accounts a wrap names, as checked by the runtime before the call.
#[derive(Clone, Copy, Debug)]
pub struct WrapTokens {
    pub user: Pubkey,
    /// Address of the bridge configuration record.
    pub bridge_config: Pubkey,
    pub restricted_token_mint: Pubkey,
    /// Decimals of the restricted asset.
    pub mint_decimals: u8,
    pub user_restricted_token_account: Pubkey,
    /// Bump seed of the vault record's derived address.
    pub token_vault_bump: u8,
    pub vault_token_account: Pubkey,
    pub bridge_token_mint: Pubkey,
    pub user_bridge_token_account: Pubkey,
}

/// The accounts an unwrap names, with the user's claim balance.
#[derive(Clone, Copy, Debug)]
pub struct UnwrapTokens {
    pub user: Pubkey,
    pub bridge_config: Pubkey,
    pub restricted_token_mint: Pubkey,
    pub mint_decimals: u8,
    pub user_restricted_token_account: Pubkey,
    /// Address of the vault record, which signs the release.
    pub token_vault: Pubkey,
    pub vault_token_account: Pubkey,
    pub bridge_token_mint: Pubkey,
    pub user_bridge_token_account: Pubkey,
    /// The user's balance of the claim asset.
    pub user_bridge_token_balance: u64,
}

/// The error, if any, with which a wrap of `amount` is refused.
pub open spec fn wrap_error(c: BridgeConfig, v: TokenVault, a: WrapTokens, amount: u64) -> Option<BridgeError> {
    if !c.is_active {
        Some(BridgeError::BridgeNotActive)
    } else if a.restricted_token_mint.is_zeroed() || (v.is_initialized() && (v.restricted_token_mint
        != a.restricted_token_mint || v.vault_token_account != a.vault_token_account)) {
        Some(BridgeError::InvalidTokenVault)
    } else if a.bridge_token_mint != c.bridge_token_mint {
        Some(BridgeError::BridgeTokenMintMismatch)
    } else if amount == 0 {
        Some(BridgeError::InvalidBridgeTokenAmount)
    } else if v.total_locked + amount > u64::MAX || c.total_locked_amount + amount > u64::MAX {
        Some(BridgeError::MathOverflow)
    } else {
        None
    }
}

/// The vault a wrap works on: `v` itself, or a fresh one for the first wrap.
pub open spec fn opened_vault(c: BridgeConfig, v: TokenVault, a: WrapTokens) -> TokenVault {
    if v.is_initialized() {
        v
    } else {
        TokenVault {
            bridge_config: a.bridge_config,
            restricted_token_mint: a.restricted_token_mint,
            vault_token_account: a.vault_token_account,
            bridge_token_mint: c.bridge_token_mint,
            total_locked: 0,
            hook_program_id: None,
            extensions_bitmap: 0,
            bump: a.token_vault_bump,
        }
    }
}

/// The vault after a wrap of `amount`.
pub open spec fn wrapped_vault(c: BridgeConfig, v: TokenVault, a: WrapTokens, amount: u64) -> TokenVault {
    let o = opened_vault(c, v, a);
    TokenVault { total_locked: (o.total_locked + amount) as u64, ..o }
}

/// A wrap's calls: lock the user's tokens in the vault, then mint as many
/// claim tokens to the user, signed by the bridge.
pub open spec fn wrap_calls(c: BridgeConfig, a: WrapTokens, amount: u64) -> Seq<PlannedCall> {
    seq![
        PlannedCall {
            call: CustodyCall::TransferChecked {
                from: a.user_restricted_token_account,
                mint: a.restricted_token_mint,
                to: a.vault_token_account,
                authority: a.user,
                amount,
                decimals: a.mint_decimals,
            },
            signer: CallSigner::User,
            failure: None,
        },
        PlannedCall {
            call: CustodyCall::MintTo {
                mint: a.bridge_token_mint,
                to: a.user_bridge_token_account,
                authority: a.bridge_config,
                amount,
            },
            signer: CallSigner::BridgeConfig { bump: c.bump },
            failure: None,
        },
    ]
}

/// The error, if any, with which an unwrap of `amount` is refused.
pub open spec fn unwrap_error(c: BridgeConfig, v: TokenVault, a: UnwrapTokens, amount: u64) -> Option<BridgeError> {
    if !c.is_active {
        Some(BridgeError::BridgeNotActive)
    } else if !v.is_initialized() {
        Some(BridgeError::InsufficientLockedTokens)
    } else if v.restricted_token_mint != a.restricted_token_mint {
        Some(BridgeError::InvalidTokenVault)
    } else if v.total_locked < amount {
        Some(BridgeError::InsufficientLockedTokens)
    } else if a.vault_token_account != v.vault_token_account {
        Some(BridgeError::InvalidTokenVault)
    } else if a.bridge_token_mint != c.bridge_token_mint {
        Some(BridgeError::BridgeTokenMintMismatch)
    } else if a.user_bridge_token_balance < amount || amount == 0 {
        Some(BridgeError::InvalidBridgeTokenAmount)
    } else if v.hook_program_id matches Some(h) && !c.approved_hook_programs@.contains(h) {
        Some(BridgeError::UnapprovedHookProgram)
    } else if c.total_locked_amount < amount {
        Some(BridgeError::MathOverflow)
    } else {
        None
    }
}

/// An unwrap's calls: burn the user's claim tokens, then release as many
/// locked tokens, signed by the vault; a refusal of the release by the
/// asset's transfer hook is reported as `HookValidationFailed`.
pub open spec fn unwrap_calls(v: TokenVault, a: UnwrapTokens, amount: u64) -> Seq<PlannedCall> {
    seq![
        PlannedCall {
            call: CustodyCall::Burn {
                mint: a.bridge_token_mint,
                from: a.user_bridge_token_account,
                authority: a.user,
                amount,
            },
            signer: CallSigner::User,
            failure: None,
        },
        PlannedCall {
            call: CustodyCall::TransferChecked {
                from: a.vault_token_account,
                mint: a.restricted_token_mint,
                to: a.user_restricted_token_account,
                authority: a.token_vault,
                amount,
                decimals: a.mint_decimals,
            },
            signer: CallSigner::TokenVault { restricted_token_mint: a.restricted_token_mint, bump: v.bump },
            failure: Some(BridgeError::HookValidationFailed),
        },
    ]
}

/// Locks `amount` of the restricted asset and issues as many claim tokens.
///
/// On success the vault (opened on the first wrap) and the bridge's total
/// both grow by `amount`, and the returned plan holds the calls that move the
/// tokens; they are to run in order, all or none. On refusal nothing changes.
pub fn wrap_tokens(config: &mut BridgeConfig, vault: &mut TokenVault, accounts: &WrapTokens, amount: u64) -> (r:
    Result<Vec<PlannedCall>, BridgeError>)
    ensures
        r is Ok <==> wrap_error(*old(config), *old(vault), *accounts, amount) is None,
        r matches Err(e) ==> Some(e) == wrap_error(*old(config), *old(vault), *accounts, amount)
            && *final(config) == *old(config) && *final(vault) == *old(vault),
        r matches Ok(calls) ==> {
            &&& *final(vault) == wrapped_vault(*old(config), *old(vault), *accounts, amount)
            &&& *final(config) == (BridgeConfig {
                total_locked_amount: (old(config).total_locked_amount + amount) as u64,
                ..*old(config)
            })
            &&& calls@ == wrap_calls(*old(config), *accounts, amount)
        },
        old(vault).wf() ==> final(vault).wf(),
{
    if !config.is_active {
        return Err(BridgeError::BridgeNotActive);
    }
    let initialized = !vault.restricted_token_mint.is_zero();
    if accounts.restricted_token_mint.is_zero() || (initialized && (vault.restricted_token_mint
        != accounts.restricted_token_mint || vault.vault_token_account != accounts.vault_token_account)) {
        return Err(BridgeError::InvalidTokenVault);
    }
    if accounts.bridge_token_mint != config.bridge_token_mint {
        return Err(BridgeError::BridgeTokenMintMismatch);
    }
    if amount == 0 {
        return Err(BridgeError::InvalidBridgeTokenAmount);
    }
    let locked = match vault.total_locked.checked_add(amount) {
        Some(x) => x,
        None => return Err(BridgeError::MathOverflow),
    };
    let total = match config.total_locked_amount.checked_add(amount) {
        Some(x) => x,
        None => return Err(BridgeError::MathOverflow),
    };
    if !initialized {
        *vault = TokenVault {
            bridge_config: accounts.bridge_config,
            restricted_token_mint: accounts.restricted_token_mint,
            vault_token_account: accounts.vault_token_account,
            bridge_token_mint: config.bridge_token_mint,
            total_locked: 0,
            hook_program_id: None,
            extensions_bitmap: 0,
            bump: accounts.token_vault_bump,
        };
        vault.total_locked = amount;
    } else {
        vault.total_locked = locked;
    }
    config.total_locked_amount = total;
    let calls = vec![
        PlannedCall {
            call: CustodyCall::TransferChecked {
                from: accounts.user_restricted_token_account,
                mint: accounts.restricted_token_mint,
                to: accounts.vault_token_account,
                authority: accounts.user,
                amount,
                decimals: accounts.mint_decimals,
            },
            signer: CallSigner::User,
            failure: None,
        },
        PlannedCall {
            call: CustodyCall::MintTo {
                mint: accounts.bridge_token_mint,
                to: accounts.user_bridge_token_account,
                authority: accounts.bridge_config,
                amount,
            },
            signer: CallSigner::BridgeConfig { bump: config.bump },
            failure: None,
        },
    ];
    assert(calls@ =~= wrap_calls(*old(config), *accounts, amount));
    Ok(calls)
}

/// Burns `amount` claim tokens and releases as many locked tokens.
///
/// A vault bound to a hook program is served only while that program is
/// approved. On success the vault and the bridge's total both shrink by
/// `amount`; on refusal nothing changes.
pub fn unwrap_tokens(config: &mut BridgeConfig, vault: &mut TokenVault, accounts: &UnwrapTokens, amount: u64) -> (r:
    Result<Vec<PlannedCall>, BridgeError>)
    ensures
        r is Ok <==> unwrap_error(*old(config), *old(vault), *accounts, amount) is None,
        r matches Err(e) ==> Some(e) == unwrap_error(*old(config), *old(vault), *accounts, amount)
            && *final(config) == *old(config) && *final(vault) == *old(vault),
        r matches Ok(calls) ==> {
            &&& *final(vault) == (TokenVault {
                total_locked: (old(vault).total_locked - amount) as u64,
                ..*old(vault)
            })
            &&& *final(config) == (BridgeConfig {
                total_locked_amount: (old(config).total_locked_amount - amount) as u64,
                ..*old(config)
            })
            &&& calls@ == unwrap_calls(*old(vault), *accounts, amount)
        },
        old(vault).wf() ==> final(vault).wf(),
{
    if !config.is_active {
        return Err(BridgeError::BridgeNotActive);
    }
    if vault.restricted_token_mint.is_zero() {
        return Err(BridgeError::InsufficientLockedTokens);
    }
    if vault.restricted_token_mint != accounts.restricted_token_mint {
        return Err(BridgeError::InvalidTokenVault);
    }
    if vault.total_locked < amount {
        return Err(BridgeError::InsufficientLockedTokens);
    }
    if accounts.vault_token_account != vault.vault_token_account {
        return Err(BridgeError::InvalidTokenVault);
    }
    if accounts.bridge_token_mint != config.bridge_token_mint {
        return Err(BridgeError::BridgeTokenMintMismatch);
    }
    if accounts.user_bridge_token_balance < amount || amount == 0 {
        return Err(BridgeError::InvalidBridgeTokenAmount);
    }
    if let Some(hook_program_id) = vault.hook_program_id {
        if !contains_key(&config.approved_hook_programs, &hook_program_id) {
            return Err(BridgeError::UnapprovedHookProgram);
        }
    }
    let total = match config.total_locked_amount.checked_sub(amount) {
        Some(x) => x,
        None => return Err(BridgeError::MathOverflow),
    };
    let calls = vec![
        PlannedCall {
            call: CustodyCall::Burn {
                mint: accounts.bridge_token_mint,
                from: accounts.user_bridge_token_account,
                authority: accounts.user,
                amount,
            },
            signer: CallSigner::User,
            failure: None,
        },
        PlannedCall {
            call: CustodyCall::TransferChecked {
                from: accounts.vault_token_account,
                mint: accounts.restricted_token_mint,
                to: accounts.user_restricted_token_account,
                authority: accounts.token_vault,
                amount,
                decimals: accounts.mint_decimals,
            },
            signer: CallSigner::TokenVault {
                restricted_token_mint: accounts.restricted_token_mint,
                bump: vault.bump,
            },
            failure: Some(BridgeError::HookValidationFailed),
        },
    ];
    vault.total_locked = vault.total_locked - amount;
    config.total_locked_amount = total;
    assert(calls@ =~= unwrap_calls(*old(vault), *accounts, amount));
    Ok(calls)
}

/// One wrap or unwrap request against a vault.
#[derive(Clone, Copy, Debug)]
#[allow(inconsistent_fields)]
pub enum VaultOp {
    Wrap { accounts: WrapTokens, amount: u64 },
    Unwrap { accounts: UnwrapTokens, amount: u64 },
}

/// The effect of one request: the new configuration and vault, the calls it
/// issued, and the amount it locked (negative: released). A refused request
/// changes nothing and issues nothing.
pub open spec fn step(c: BridgeConfig, v: TokenVault, op: VaultOp) -> (BridgeConfig, TokenVault, Seq<PlannedCall>, int) {
    match op {
        VaultOp::Wrap { accounts, amount } => if wrap_error(c, v, accounts, amount) is None {
            (
                BridgeConfig { total_locked_amount: (c.total_locked_amount + amount) as u64, ..c },
                wrapped_vault(c, v, accounts, amount),
                wrap_calls(c, accounts, amount),
                amount as int,
            )
        } else {
            (c, v, seq![], 0)
        },
        VaultOp::Unwrap { accounts, amount } => if unwrap_error(c, v, accounts, amount) is None {
            (
                BridgeConfig { total_locked_amount: (c.total_locked_amount - amount) as u64, ..c },
                TokenVault { total_locked: (v.total_locked - amount) as u64, ..v },
                unwrap_calls(v, accounts, amount),
                -(amount as int),
            )
        } else {
            (c, v, seq![], 0)
        },
    }
}

/// The effect of a sequence of requests run one after the other; the last
/// component is the sum of the amounts wrapped minus the sum of the amounts
/// unwrapped, over the requests that were accepted.
pub open spec fn run(c: BridgeConfig, v: TokenVault, ops: Seq<VaultOp>) -> (BridgeConfig, TokenVault, Seq<PlannedCall>, int)
    decreases ops.len(),
{
    if ops.len() == 0 {
        (c, v, seq![], 0)
    } else {
        let (c1, v1, earlier, moved_before) = run(c, v, ops.drop_last());
        let (c2, v2, later, moved_last) = step(c1, v1, ops.last());
        (c2, v2, earlier + later, moved_before + moved_last)
    }
}

/// Over any sequence of wraps and unwraps on one vault, the vault's locked
/// amount and the bridge's total both move by exactly what was wrapped minus
/// what was unwrapped, and the supply of the claim asset moves by the same.
pub proof fn lemma_locked_tracks_history(c: BridgeConfig, v: TokenVault, ops: Seq<VaultOp>)
    requires
        v.wf(),
    ensures
        run(c, v, ops).1.wf(),
        ({
            let (c2, v2, p, n) = run(c, v, ops);
            &&& v2.total_locked == v.total_locked + n
            &&& c2.total_locked_amount == c.total_locked_amount + n
            &&& plan_supply_delta(p, c.bridge_token_mint) == n
            &&& c2.bridge_token_mint == c.bridge_token_mint
        }),
    decreases ops.len(),
{
    if ops.len() > 0 {
        lemma_locked_tracks_history(c, v, ops.drop_last());
        let (c1, v1, earlier, moved_before) = run(c, v, ops.drop_last());
        let (c2, v2, later, moved_last) = step(c1, v1, ops.last());
        lemma_plan_deltas_concat(earlier, later, c.bridge_token_mint);
        assert(plan_supply_delta(seq![], c.bridge_token_mint) == 0);
        match ops.last() {
            VaultOp::Wrap { accounts, amount } => {
                if wrap_error(c1, v1, accounts, amount) is None {
                    lemma_two_call_plan(later, c.bridge_token_mint);
                }
            },
            VaultOp::Unwrap { accounts, amount } => {
                if unwrap_error(c1, v1, accounts, amount) is None {
                    lemma_two_call_plan(later, c.bridge_token_mint);
                }
            },
        }
    }
}

/// Whether a request names `account` as the vault's token account and uses
/// other accounts for the user's two token accounts.
pub open spec fn uses_vault_account(op: VaultOp, account: Pubkey) -> bool {
    match op {
        VaultOp::Wrap { accounts, .. } => accounts.vault_token_account == account
            && accounts.user_restricted_token_account != account && accounts.user_bridge_token_account != account,
        VaultOp::Unwrap { accounts, .. } => accounts.vault_token_account == account
            && accounts.user_restricted_token_account != account && accounts.user_bridge_token_account != account,
    }
}

/// Over any sequence of wraps and unwraps through the vault's token account,
/// the balance of that account moves by exactly what was wrapped minus what
/// was unwrapped, as the locked amount does.
pub proof fn lemma_vault_account_tracks_history(c: BridgeConfig, v: TokenVault, ops: Seq<VaultOp>, account: Pubkey)
    requires
        forall|i: int| 0 <= i < ops.len() ==> uses_vault_account(#[trigger] ops[i], account),
    ensures
        plan_balance_delta(run(c, v, ops).2, account) == run(c, v, ops).3,
    decreases ops.len(),
{
    if ops.len() > 0 {
        let init = ops.drop_last();
        assert forall|i: int| 0 <= i < init.len() implies uses_vault_account(#[trigger] init[i], account) by {
            assert(init[i] == ops[i]);
        }
        lemma_vault_account_tracks_history(c, v, init, account);
        let (c1, v1, earlier, moved_before) = run(c, v, init);
        let (c2, v2, later, moved_last) = step(c1, v1, ops.last());
        lemma_plan_deltas_concat(earlier, later, account);
        assert(plan_balance_delta(seq![], account) == 0);
        assert(uses_vault_account(ops[ops.len() - 1], account));
        match ops.last() {
            VaultOp::Wrap { accounts, amount } => {
                if wrap_error(c1, v1, accounts, amount) is None {
                    lemma_two_call_plan(later, account);
                }
            },
            VaultOp::Unwrap { accounts, amount } => {
                if unwrap_error(c1, v1, accounts, amount) is None {
                    lemma_two_call_plan(later, account);
                }
            },
        }
    }
}

proof fn lemma_two_call_plan(p: Seq<PlannedCall>, x: Pubkey)
    requires
        p.len() == 2,
    ensures
        plan_supply_delta(p, x) == crate::ledger::supply_delta(p[0].call, x) + crate::ledger::supply_delta(
            p[1].call,
            x,
        ),
        plan_balance_delta(p, x) == crate::ledger::balance_delta(p[0].call, x)
            + crate::ledger::balance_delta(p[1].call, x),
{
    let q = p.drop_last();
    assert(q.drop_last().len() == 0);
    assert(q.last() == p[0]);
    assert(plan_supply_delta(q.drop_last(), x) == 0);
    assert(plan_balance_delta(q.drop_last(), x) == 0);
    assert(plan_supply_delta(q, x) == crate::ledger::supply_delta(p[0].call, x));
    assert(plan_balance_delta(q, x) == crate::ledger::balance_delta(p[0].call, x));
}

/// A wrap followed by an unwrap of the same amount by the same party leaves
/// the locked amount, the bridge's total and every balance of both assets as
/// they were; the unwrap is accepted whenever the party holds the claim tokens
/// and the vault's hook, if any, is approved.
pub proof fn lemma_wrap_unwrap_round_trip(c: BridgeConfig, v: TokenVault, wa: WrapTokens, ua: UnwrapTokens, amount: u64)
    requires
        wrap_error(c, v, wa, amount) is None,
        ua.user == wa.user,
        ua.restricted_token_mint == wa.restricted_token_mint,
        ua.user_restricted_token_account == wa.user_restricted_token_account,
        ua.vault_token_account == wa.vault_token_account,
        ua.bridge_token_mint == wa.bridge_token_mint,
        ua.user_bridge_token_account == wa.user_bridge_token_account,
        ua.user_bridge_token_balance >= amount,
    ensures
        ({
            let c1 = BridgeConfig { total_locked_amount: (c.total_locked_amount + amount) as u64, ..c };
            let v1 = wrapped_vault(c, v, wa, amount);
            let c2 = BridgeConfig { total_locked_amount: (c1.total_locked_amount - amount) as u64, ..c1 };
            let v2 = TokenVault { total_locked: (v1.total_locked - amount) as u64, ..v1 };
            let p = wrap_calls(c, wa, amount) + unwrap_calls(v1, ua, amount);
            &&& (v1.hook_program_id matches Some(h) ==> c.approved_hook_programs@.contains(h))
                ==> unwrap_error(c1, v1, ua, amount) is None
            &&& c2 == c
            &&& v2 == opened_vault(c, v, wa)
            &&& v2.total_locked == if v.is_initialized() {
                v.total_locked
            } else {
                0
            }
            &&& v.is_initialized() ==> v2 == v
            &&& forall|x: Pubkey| plan_balance_delta(p, x) == 0 && plan_supply_delta(p, x) == 0
            &&& (v1.hook_program_id matches Some(h) ==> c.approved_hook_programs@.contains(h)) ==> run(
                c,
                v,
                seq![VaultOp::Wrap { accounts: wa, amount }, VaultOp::Unwrap { accounts: ua, amount }],
            ) == (c2, v2, p, 0int)
        }),
{
    let c1 = BridgeConfig { total_locked_amount: (c.total_locked_amount + amount) as u64, ..c };
    let v1 = wrapped_vault(c, v, wa, amount);
    let earlier = wrap_calls(c, wa, amount);
    let later = unwrap_calls(v1, ua, amount);
    assert(v1.is_initialized());
    let ops = seq![VaultOp::Wrap { accounts: wa, amount }, VaultOp::Unwrap { accounts: ua, amount }];
    assert(ops.drop_last().drop_last() =~= Seq::<VaultOp>::empty());
    assert(ops.drop_last().last() == ops[0]);
    assert(Seq::<PlannedCall>::empty() + earlier =~= earlier);
    assert(run(c, v, ops.drop_last().drop_last()) == (c, v, Seq::<PlannedCall>::empty(), 0int));
    assert(run(c, v, ops.drop_last()) == (c1, v1, earlier, amount as int));
    assert forall|x: Pubkey| plan_balance_delta(earlier + later, x) == 0 && plan_supply_delta(earlier + later, x) == 0 by {
        lemma_plan_deltas_concat(earlier, later, x);
        lemma_two_call_plan(earlier, x);
        lemma_two_call_plan(later, x);
    }
}

/// On an active bridge, an unwrap of more than the vault holds is refused with
/// `InsufficientLockedTokens`, whatever the vault's state; a vault not yet set
/// up holds nothing and refuses every unwrap so. (A vault of another asset is
/// refused as `InvalidTokenVault` instead.)
pub proof fn lemma_unwrap_over_locked_refused(c: BridgeConfig, v: TokenVault, a: UnwrapTokens, amount: u64)
    requires
        c.is_active,
        v.is_initialized() ==> v.restricted_token_mint == a.restricted_token_mint && amount > v.total_locked,
    ensures
        unwrap_error(c, v, a, amount) == Some(BridgeError::InsufficientLockedTokens),
        step(c, v, VaultOp::Unwrap { accounts: a, amount }) == (c, v, Seq::<PlannedCall>::empty(), 0int),
{
}

/// While the bridge is inactive every wrap and every unwrap is refused with
/// `BridgeNotActive`.
pub proof fn lemma_inactive_bridge_refuses(c: BridgeConfig, v: TokenVault, wa: WrapTokens, ua: UnwrapTokens, amount: u64)
    requires
        !c.is_active,
    ensures
        wrap_error(c, v, wa, amount) == Some(BridgeError::BridgeNotActive),
        unwrap_error(c, v, ua, amount) == Some(BridgeError::BridgeNotActive),
{
}

} // verus!
