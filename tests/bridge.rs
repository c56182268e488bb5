use token_bridge::admin::{
    add_approved_hook_program, create_bridge_token_mint, initialize_bridge, remove_approved_hook_program,
    toggle_bridge_status, update_bridge_authority,
};
use token_bridge::error::BridgeError;
use token_bridge::ledger::{CallSigner, CustodyCall};
use token_bridge::pubkey::Pubkey;
use token_bridge::state::{BridgeConfig, TokenVault};
use token_bridge::vault::{unwrap_tokens, wrap_tokens, UnwrapTokens, WrapTokens};

fn key(b: u8) -> Pubkey {
    Pubkey::new_from_array([b; 32])
}

fn empty_vault() -> TokenVault {
    TokenVault {
        bridge_config: Pubkey::zeroed(),
        restricted_token_mint: Pubkey::zeroed(),
        vault_token_account: Pubkey::zeroed(),
        bridge_token_mint: Pubkey::zeroed(),
        total_locked: 0,
        hook_program_id: None,
        extensions_bitmap: 0,
        bump: 0,
    }
}

fn bridge() -> BridgeConfig {
    let mut c = initialize_bridge(key(1), 254);
    create_bridge_token_mint(&mut c, &key(1), key(2)).unwrap();
    c
}

fn wrap_accounts(user: Pubkey) -> WrapTokens {
    WrapTokens {
        user,
        bridge_config: key(10),
        restricted_token_mint: key(3),
        mint_decimals: 6,
        user_restricted_token_account: key(20),
        token_vault_bump: 253,
        vault_token_account: key(11),
        bridge_token_mint: key(2),
        user_bridge_token_account: key(21),
    }
}

fn unwrap_accounts(user: Pubkey, balance: u64) -> UnwrapTokens {
    UnwrapTokens {
        user,
        bridge_config: key(10),
        restricted_token_mint: key(3),
        mint_decimals: 6,
        user_restricted_token_account: key(20),
        token_vault: key(12),
        vault_token_account: key(11),
        bridge_token_mint: key(2),
        user_bridge_token_account: key(21),
        user_bridge_token_balance: balance,
    }
}

#[test]
fn initialize_bridge_sets_defaults() {
    let c = initialize_bridge(key(1), 7);
    assert!(c.authority == key(1));
    assert_eq!(c.bump, 7);
    assert!(c.bridge_token_mint.is_zero());
    assert!(c.approved_hook_programs.is_empty());
    assert_eq!(c.total_locked_amount, 0);
    assert!(c.is_active);
}

#[test]
fn wrap_then_unwrap_scenario() {
    let mut c = bridge();
    let mut v = empty_vault();
    let u = key(5);
    let calls = wrap_tokens(&mut c, &mut v, &wrap_accounts(u), 100).unwrap();
    assert_eq!(v.total_locked, 100);
    assert_eq!(c.total_locked_amount, 100);
    assert!(v.restricted_token_mint == key(3));
    assert!(v.vault_token_account == key(11));
    assert_eq!(v.bump, 253);
    assert_eq!(calls.len(), 2);
    match calls[0].call {
        CustodyCall::TransferChecked { from, to, amount, decimals, .. } => {
            assert!(from == key(20) && to == key(11));
            assert_eq!((amount, decimals), (100, 6));
        }
        _ => panic!("expected a transfer"),
    }
    match calls[1].call {
        CustodyCall::MintTo { mint, to, amount, .. } => {
            assert!(mint == key(2) && to == key(21));
            assert_eq!(amount, 100);
        }
        _ => panic!("expected a mint"),
    }
    // the user holds 100 claim tokens now
    let calls = unwrap_tokens(&mut c, &mut v, &unwrap_accounts(u, 100), 40).unwrap();
    assert_eq!(v.total_locked, 60);
    assert_eq!(c.total_locked_amount, 60);
    match calls[0].call {
        CustodyCall::Burn { from, amount, .. } => {
            assert!(from == key(21));
            assert_eq!(amount, 40);
        }
        _ => panic!("expected a burn"),
    }
    match calls[1].call {
        CustodyCall::TransferChecked { from, to, amount, .. } => {
            assert!(from == key(11) && to == key(20));
            assert_eq!(amount, 40);
        }
        _ => panic!("expected a transfer"),
    }
    assert_eq!(calls[1].failure, Some(BridgeError::HookValidationFailed));
    // the user holds 60 now; asking for 100 is refused and nothing moves
    let before = v;
    let r = unwrap_tokens(&mut c, &mut v, &unwrap_accounts(u, 60), 100);
    assert_eq!(r.unwrap_err(), BridgeError::InsufficientLockedTokens);
    assert_eq!(v.total_locked, before.total_locked);
    assert_eq!(c.total_locked_amount, 60);
}

#[test]
fn wrap_unwrap_round_trip() {
    let mut c = bridge();
    let mut v = empty_vault();
    wrap_tokens(&mut c, &mut v, &wrap_accounts(key(5)), 500).unwrap();
    unwrap_tokens(&mut c, &mut v, &unwrap_accounts(key(5), 500), 500).unwrap();
    assert_eq!(v.total_locked, 0);
    assert_eq!(c.total_locked_amount, 0);
}

#[test]
fn wrap_zero_refused() {
    let mut c = bridge();
    let mut v = empty_vault();
    let r = wrap_tokens(&mut c, &mut v, &wrap_accounts(key(5)), 0);
    assert_eq!(r.unwrap_err(), BridgeError::InvalidBridgeTokenAmount);
    assert!(v.restricted_token_mint.is_zero());
}

#[test]
fn wrap_overflow_refused() {
    let mut c = bridge();
    let mut v = empty_vault();
    wrap_tokens(&mut c, &mut v, &wrap_accounts(key(5)), u64::MAX).unwrap();
    let r = wrap_tokens(&mut c, &mut v, &wrap_accounts(key(5)), 1);
    assert_eq!(r.unwrap_err(), BridgeError::MathOverflow);
    assert_eq!(v.total_locked, u64::MAX);
}

#[test]
fn wrap_wrong_claim_mint_refused() {
    let mut c = bridge();
    let mut v = empty_vault();
    let mut a = wrap_accounts(key(5));
    a.bridge_token_mint = key(99);
    let r = wrap_tokens(&mut c, &mut v, &a, 5);
    assert_eq!(r.unwrap_err(), BridgeError::BridgeTokenMintMismatch);
}

#[test]
fn unwrap_without_vault_refused() {
    let mut c = bridge();
    let mut v = empty_vault();
    let r = unwrap_tokens(&mut c, &mut v, &unwrap_accounts(key(5), 10), 1);
    assert_eq!(r.unwrap_err(), BridgeError::InsufficientLockedTokens);
    let r = unwrap_tokens(&mut c, &mut v, &unwrap_accounts(key(5), 10), 0);
    assert_eq!(r.unwrap_err(), BridgeError::InsufficientLockedTokens);
    assert!(v.restricted_token_mint.is_zero());
}

#[test]
fn unwrap_more_than_claim_balance_refused() {
    let mut c = bridge();
    let mut v = empty_vault();
    wrap_tokens(&mut c, &mut v, &wrap_accounts(key(5)), 50).unwrap();
    let r = unwrap_tokens(&mut c, &mut v, &unwrap_accounts(key(5), 10), 20);
    assert_eq!(r.unwrap_err(), BridgeError::InvalidBridgeTokenAmount);
    assert_eq!(v.total_locked, 50);
}

#[test]
fn unwrap_with_unapproved_hook_refused() {
    let mut c = bridge();
    let mut v = empty_vault();
    wrap_tokens(&mut c, &mut v, &wrap_accounts(key(5)), 50).unwrap();
    v.hook_program_id = Some(key(40));
    let r = unwrap_tokens(&mut c, &mut v, &unwrap_accounts(key(5), 50), 20);
    assert_eq!(r.unwrap_err(), BridgeError::UnapprovedHookProgram);
    add_approved_hook_program(&mut c, &key(1), key(40)).unwrap();
    let calls = unwrap_tokens(&mut c, &mut v, &unwrap_accounts(key(5), 50), 20).unwrap();
    match calls[1].signer {
        CallSigner::TokenVault { restricted_token_mint, bump } => {
            assert!(restricted_token_mint == key(3));
            assert_eq!(bump, 253);
        }
        _ => panic!("expected the vault to sign"),
    }
    assert_eq!(v.total_locked, 30);
}

#[test]
fn inactive_bridge_refuses_everything() {
    let mut c = bridge();
    let mut v = empty_vault();
    wrap_tokens(&mut c, &mut v, &wrap_accounts(key(5)), 50).unwrap();
    toggle_bridge_status(&mut c, &key(1)).unwrap();
    assert!(!c.is_active);
    let r = wrap_tokens(&mut c, &mut v, &wrap_accounts(key(5)), 5);
    assert_eq!(r.unwrap_err(), BridgeError::BridgeNotActive);
    let r = unwrap_tokens(&mut c, &mut v, &unwrap_accounts(key(5), 50), 5);
    assert_eq!(r.unwrap_err(), BridgeError::BridgeNotActive);
    toggle_bridge_status(&mut c, &key(1)).unwrap();
    assert!(c.is_active);
    wrap_tokens(&mut c, &mut v, &wrap_accounts(key(5)), 5).unwrap();
    assert_eq!(v.total_locked, 55);
}

#[test]
fn hook_program_approval_rules() {
    let mut c = bridge();
    assert_eq!(add_approved_hook_program(&mut c, &key(9), key(40)), Err(BridgeError::Unauthorized));
    add_approved_hook_program(&mut c, &key(1), key(40)).unwrap();
    assert_eq!(
        add_approved_hook_program(&mut c, &key(1), key(40)),
        Err(BridgeError::HookProgramAlreadyApproved)
    );
    for b in 41..50u8 {
        add_approved_hook_program(&mut c, &key(1), key(b)).unwrap();
    }
    assert_eq!(c.approved_hook_programs.len(), BridgeConfig::MAX_APPROVED_HOOKS);
    assert_eq!(
        add_approved_hook_program(&mut c, &key(1), key(49)),
        Err(BridgeError::HookProgramAlreadyApproved)
    );
    assert_eq!(
        add_approved_hook_program(&mut c, &key(1), key(60)),
        Err(BridgeError::MaxApprovedHooksReached)
    );
    remove_approved_hook_program(&mut c, &key(1), key(45)).unwrap();
    assert_eq!(c.approved_hook_programs.len(), 9);
    assert!(!c.approved_hook_programs.contains(&key(45)));
    // removing an absent id is no error
    remove_approved_hook_program(&mut c, &key(1), key(45)).unwrap();
    assert_eq!(c.approved_hook_programs.len(), 9);
}

#[test]
fn claim_mint_set_once() {
    let mut c = initialize_bridge(key(1), 254);
    assert_eq!(create_bridge_token_mint(&mut c, &key(9), key(2)), Err(BridgeError::Unauthorized));
    create_bridge_token_mint(&mut c, &key(1), key(2)).unwrap();
    assert_eq!(create_bridge_token_mint(&mut c, &key(1), key(8)), Err(BridgeError::BridgeTokenMintMismatch));
    assert!(c.bridge_token_mint == key(2));
}

#[test]
fn unwrap_of_other_assets_vault_refused() {
    let mut c = bridge();
    let mut v = empty_vault();
    wrap_tokens(&mut c, &mut v, &wrap_accounts(key(5)), 10).unwrap();
    let mut a = unwrap_accounts(key(5), 10);
    a.restricted_token_mint = key(4);
    assert_eq!(unwrap_tokens(&mut c, &mut v, &a, 5).unwrap_err(), BridgeError::InvalidTokenVault);
}

#[test]
fn authority_handover() {
    let mut c = bridge();
    assert_eq!(update_bridge_authority(&mut c, &key(9), key(9)), Err(BridgeError::Unauthorized));
    update_bridge_authority(&mut c, &key(1), key(9)).unwrap();
    assert!(c.authority == key(9));
    assert_eq!(toggle_bridge_status(&mut c, &key(1)), Err(BridgeError::Unauthorized));
    toggle_bridge_status(&mut c, &key(9)).unwrap();
    assert!(!c.is_active);
}

#[test]
fn signer_seeds_are_tag_and_bump() {
    let s = CallSigner::BridgeConfig { bump: 254 }.seeds();
    assert_eq!(s, vec![b"bridge_config".to_vec(), vec![254]]);
    let s = CallSigner::TokenVault { restricted_token_mint: key(3), bump: 7 }.seeds();
    assert_eq!(s, vec![b"token_vault".to_vec(), vec![3u8; 32], vec![7]]);
    assert!(CallSigner::User.seeds().is_empty());
}

#[test]
fn error_messages() {
    assert_eq!(BridgeError::BridgeNotActive.message(), "Bridge is not active");
    assert_eq!(BridgeError::SenderNotWhitelisted.message(), "Sender is not whitelisted");
}

#[test]
fn locked_tracks_history() {
    let mut c = bridge();
    let mut v = empty_vault();
    let u = key(5);
    let mut minted: i128 = 0;
    let steps: [(bool, u64); 6] = [(true, 30), (true, 70), (false, 20), (false, 500), (true, 5), (false, 85)];
    let mut expected: u64 = 0;
    for (is_wrap, amount) in steps {
        if is_wrap {
            let calls = wrap_tokens(&mut c, &mut v, &wrap_accounts(u), amount).unwrap();
            if let CustodyCall::MintTo { amount, .. } = calls[1].call {
                minted += amount as i128;
            }
            expected += amount;
        } else {
            match unwrap_tokens(&mut c, &mut v, &unwrap_accounts(u, expected), amount) {
                Ok(calls) => {
                    if let CustodyCall::Burn { amount, .. } = calls[0].call {
                        minted -= amount as i128;
                    }
                    expected -= amount;
                }
                Err(e) => assert_eq!(e, BridgeError::InsufficientLockedTokens),
            }
        }
        assert_eq!(v.total_locked, expected);
        assert_eq!(c.total_locked_amount, expected);
        assert_eq!(minted, expected as i128);
    }
    assert_eq!(expected, 0);
}

#[test]
fn unwrap_over_locked_refused_in_any_state() {
    for locked in [1u64, 10, 1000] {
        let mut c = bridge();
        let mut v = empty_vault();
        wrap_tokens(&mut c, &mut v, &wrap_accounts(key(5)), locked).unwrap();
        v.hook_program_id = Some(key(77));
        let r = unwrap_tokens(&mut c, &mut v, &unwrap_accounts(key(5), 0), locked + 1);
        assert_eq!(r.unwrap_err(), BridgeError::InsufficientLockedTokens);
        assert_eq!(v.total_locked, locked);
        assert_eq!(c.total_locked_amount, locked);
    }
}

#[test]
fn wrap_into_other_assets_vault_refused() {
    let mut c = bridge();
    let mut v = empty_vault();
    wrap_tokens(&mut c, &mut v, &wrap_accounts(key(5)), 10).unwrap();
    let mut a = wrap_accounts(key(5));
    a.restricted_token_mint = key(4);
    assert_eq!(wrap_tokens(&mut c, &mut v, &a, 10).unwrap_err(), BridgeError::InvalidTokenVault);
    assert_eq!(v.total_locked, 10);
}
