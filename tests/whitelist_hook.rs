use anchor_lang::solana_program::hash::hash;
use anchor_spl::token_2022::spl_token_2022::extension::transfer_hook::TransferHookAccount;
use anchor_spl::token_2022::spl_token_2022::extension::{
    BaseStateWithExtensionsMut, ExtensionType, StateWithExtensionsMut,
};
use anchor_spl::token_2022::spl_token_2022::state::{Account, AccountState};
use spl_pod::primitives::PodBool;
use spl_tlv_account_resolution::seeds::Seed;
use spl_tlv_account_resolution::account::ExtraAccountMeta;
use spl_tlv_account_resolution::state::ExtraAccountMetaList;
use spl_transfer_hook_interface::instruction::{ExecuteInstruction, TransferHookInstruction};
use token_bridge::dispatch::{whitelist_fallback, FallbackAction, HookAccount};
use token_bridge::error::{BridgeError, HookError};
use token_bridge::pubkey::Pubkey;
use token_bridge::resolution::resolve_seeds;
use token_bridge::whitelist::{
    add_to_whitelist, assert_is_transferring, initialize_whitelist, remove_from_whitelist,
    toggle_whitelist_status, whitelist_authorization_check, whitelist_transfer_hook, InitializeWhitelist,
    SimpleWhitelist, WhitelistTransferHook,
};

fn key(b: u8) -> Pubkey {
    Pubkey::new_from_array([b; 32])
}

fn new_whitelist() -> SimpleWhitelist {
    let accounts = InitializeWhitelist { authority: key(1), mint: key(3), whitelist_bump: 250 };
    initialize_whitelist(&accounts, &vec![0u8; ExtraAccountMetaList::size_of(1).unwrap()]).unwrap().0
}

/// What the token library itself writes for `metas` into `len` zero bytes.
fn reference_list(metas: &[ExtraAccountMeta], len: usize) -> Vec<u8> {
    let mut d = vec![0u8; len];
    ExtraAccountMetaList::init::<ExecuteInstruction>(&mut d, metas).unwrap();
    d
}

fn token_account_data(transferring: bool) -> Vec<u8> {
    let size =
        ExtensionType::try_calculate_account_len::<Account>(&[ExtensionType::TransferHookAccount]).unwrap();
    let mut data = vec![0u8; size];
    let mut state = StateWithExtensionsMut::<Account>::unpack_uninitialized(&mut data).unwrap();
    state.base = Account {
        mint: anchor_lang::solana_program::pubkey::Pubkey::new_from_array([3; 32]),
        owner: anchor_lang::solana_program::pubkey::Pubkey::new_from_array([5; 32]),
        state: AccountState::Initialized,
        ..Account::default()
    };
    state.pack_base();
    state.init_account_type().unwrap();
    let ext = state.init_extension::<TransferHookAccount>(true).unwrap();
    ext.transferring = PodBool::from(transferring);
    data
}

fn stored(w: &SimpleWhitelist) -> Vec<u8> {
    let mut d = hash(b"account:SimpleWhitelist").to_bytes()[..8].to_vec();
    d.extend_from_slice(&w.authority.to_bytes());
    d.extend_from_slice(&w.mint.to_bytes());
    d.extend_from_slice(&(w.users.len() as u32).to_le_bytes());
    for u in &w.users {
        d.extend_from_slice(&u.to_bytes());
    }
    d.push(w.is_active as u8);
    d.push(w.bump);
    d
}

fn hook_accounts(w: &SimpleWhitelist, owner: Pubkey) -> Vec<HookAccount> {
    let mut v: Vec<HookAccount> = (0..5u8).map(|i| HookAccount { key: key(100 + i), data: vec![] }).collect();
    v[3].key = owner;
    v.push(HookAccount { key: key(105), data: stored(w) });
    v
}

#[test]
fn initialize_whitelist_is_active_and_empty() {
    let accounts = InitializeWhitelist { authority: key(1), mint: key(3), whitelist_bump: 250 };
    let len = ExtraAccountMetaList::size_of(1).unwrap() + 8;
    let (w, written) = initialize_whitelist(&accounts, &vec![0u8; len]).unwrap();
    assert!(w.authority == key(1) && w.mint == key(3));
    assert!(w.users.is_empty());
    assert!(w.is_active);
    assert_eq!(w.bump, 250);
    let metas = InitializeWhitelist::extra_account_metas().unwrap();
    assert_eq!(metas.len(), 1);
    assert_eq!(written, reference_list(&metas, len));
    assert_eq!(&written[..8], &[105u8, 37, 101, 197, 75, 251, 102, 26][..]);
    assert_eq!(&written[8..16], &[39u8, 0, 0, 0, 1, 0, 0, 0][..]);
    let m = metas[0];
    assert_eq!(m.discriminator, 1);
    let mut expected = vec![1u8, 9];
    expected.extend_from_slice(b"whitelist");
    expected.extend_from_slice(&[3, 1]);
    expected.resize(32, 0);
    assert_eq!(m.address_config.to_vec(), expected);
    assert_eq!(m.is_signer, PodBool::from(false));
    assert_eq!(m.is_writable, PodBool::from(false));
}

#[test]
fn initialize_whitelist_refuses_used_or_small_account() {
    let accounts = InitializeWhitelist { authority: key(1), mint: key(3), whitelist_bump: 250 };
    let mut used = vec![0u8; 64];
    used[40] = 1;
    assert!(matches!(initialize_whitelist(&accounts, &used), Err(HookError::AccountAlreadyInitialized)));
    assert!(matches!(initialize_whitelist(&accounts, &vec![0u8; 50]), Err(HookError::Program(_))));
}

#[test]
fn whitelist_transfer_scenario() {
    let mut w = new_whitelist();
    let u = key(5);
    assert_eq!(whitelist_authorization_check(&w, &u, true), Err(BridgeError::SenderNotWhitelisted));
    add_to_whitelist(&mut w, &key(1), u).unwrap();
    assert_eq!(whitelist_authorization_check(&w, &u, true), Ok(()));
    toggle_whitelist_status(&mut w, &key(1)).unwrap();
    assert_eq!(whitelist_authorization_check(&w, &u, true), Err(BridgeError::SenderNotWhitelisted));
}

#[test]
fn removed_member_refused_next() {
    let mut w = new_whitelist();
    add_to_whitelist(&mut w, &key(1), key(5)).unwrap();
    add_to_whitelist(&mut w, &key(1), key(6)).unwrap();
    remove_from_whitelist(&mut w, &key(1), key(5)).unwrap();
    assert_eq!(whitelist_authorization_check(&w, &key(5), true), Err(BridgeError::SenderNotWhitelisted));
    assert_eq!(whitelist_authorization_check(&w, &key(6), true), Ok(()));
    assert_eq!(whitelist_authorization_check(&w, &key(6), false), Err(BridgeError::IsNotCurrentlyTransferring));
}

#[test]
fn whitelist_management_rules() {
    let mut w = new_whitelist();
    assert_eq!(add_to_whitelist(&mut w, &key(9), key(5)), Err(BridgeError::Unauthorized));
    assert_eq!(remove_from_whitelist(&mut w, &key(9), key(5)), Err(BridgeError::Unauthorized));
    assert_eq!(toggle_whitelist_status(&mut w, &key(9)), Err(BridgeError::Unauthorized));
    add_to_whitelist(&mut w, &key(1), key(5)).unwrap();
    add_to_whitelist(&mut w, &key(1), key(5)).unwrap();
    assert_eq!(w.users.len(), 1);
    for b in 10..59u8 {
        add_to_whitelist(&mut w, &key(1), key(b)).unwrap();
    }
    assert_eq!(w.users.len(), SimpleWhitelist::MAX_USERS);
    assert_eq!(add_to_whitelist(&mut w, &key(1), key(200)), Err(BridgeError::MaxApprovedHooksReached));
    remove_from_whitelist(&mut w, &key(1), key(200)).unwrap();
    assert_eq!(w.users.len(), SimpleWhitelist::MAX_USERS);
}

#[test]
fn transfer_hook_reads_transferring_flag() {
    let mut w = new_whitelist();
    add_to_whitelist(&mut w, &key(1), key(5)).unwrap();
    let mut accounts = WhitelistTransferHook {
        source_token: key(20),
        source_token_data: token_account_data(true),
        mint: key(3),
        destination_token: key(21),
        owner: key(5),
        extra_account_meta_list: key(22),
        whitelist: w,
    };
    assert!(whitelist_transfer_hook(&accounts, 10).is_ok());
    accounts.source_token_data = token_account_data(false);
    assert_eq!(whitelist_transfer_hook(&accounts, 10), Err(BridgeError::IsNotCurrentlyTransferring));
    accounts.source_token_data = vec![];
    assert_eq!(whitelist_transfer_hook(&accounts, 10), Err(BridgeError::IsNotCurrentlyTransferring));
    accounts.owner = key(6);
    assert_eq!(whitelist_transfer_hook(&accounts, 10), Err(BridgeError::SenderNotWhitelisted));
}

#[test]
fn is_transferring_on_raw_data() {
    assert!(assert_is_transferring(&token_account_data(true)).is_ok());
    assert_eq!(assert_is_transferring(&token_account_data(false)), Err(BridgeError::IsNotCurrentlyTransferring));
    assert_eq!(assert_is_transferring(&[1u8, 2, 3]), Err(BridgeError::IsNotCurrentlyTransferring));
}

#[test]
fn stored_whitelist_round_trip() {
    let mut w = new_whitelist();
    add_to_whitelist(&mut w, &key(1), key(5)).unwrap();
    add_to_whitelist(&mut w, &key(1), key(7)).unwrap();
    let mut bytes = stored(&w);
    bytes.extend_from_slice(&[0u8; 40]);
    let d = SimpleWhitelist::try_deserialize(&bytes).unwrap();
    assert!(d.authority == key(1) && d.mint == key(3));
    assert_eq!(d.users.len(), 2);
    assert!(d.users[0] == key(5) && d.users[1] == key(7));
    assert!(d.is_active);
    assert_eq!(d.bump, 250);
}

#[test]
fn stored_whitelist_errors() {
    let w = new_whitelist();
    let good = stored(&w);
    assert!(matches!(SimpleWhitelist::try_deserialize(&good[..7]), Err(HookError::AccountDiscriminatorNotFound)));
    let mut bad = good.clone();
    bad[0] ^= 1;
    assert!(matches!(SimpleWhitelist::try_deserialize(&bad), Err(HookError::AccountDiscriminatorMismatch)));
    assert!(matches!(
        SimpleWhitelist::try_deserialize(&good[..good.len() - 1]),
        Err(HookError::AccountDidNotDeserialize)
    ));
    let mut flag = good.clone();
    let n = flag.len();
    flag[n - 2] = 2;
    assert!(matches!(SimpleWhitelist::try_deserialize(&flag), Err(HookError::AccountDidNotDeserialize)));
}

#[test]
fn discriminators_match_interface() {
    let execute = TransferHookInstruction::Execute { amount: 0 }.pack();
    assert_eq!(&execute[..8], &[105u8, 37, 101, 197, 75, 251, 102, 26][..]);
    let init = TransferHookInstruction::InitializeExtraAccountMetaList { extra_account_metas: vec![] }.pack();
    assert_eq!(&init[..8], &[43u8, 34, 13, 49, 167, 88, 235, 235][..]);
    let update = TransferHookInstruction::UpdateExtraAccountMetaList { extra_account_metas: vec![] }.pack();
    assert_eq!(&update[..8], &[157u8, 105, 42, 146, 102, 85, 241, 174][..]);
}

#[test]
fn fallback_execute_checks_whitelist() {
    let mut w = new_whitelist();
    let data = TransferHookInstruction::Execute { amount: 7 }.pack();
    let r = whitelist_fallback(&hook_accounts(&w, key(5)), &data);
    assert!(matches!(r, Err(HookError::Bridge(BridgeError::SenderNotWhitelisted))));
    add_to_whitelist(&mut w, &key(1), key(5)).unwrap();
    let r = whitelist_fallback(&hook_accounts(&w, key(5)), &data);
    assert!(matches!(r, Ok(FallbackAction::Approved)));
    let mut short = hook_accounts(&w, key(5));
    short.truncate(5);
    let r = whitelist_fallback(&short, &data);
    assert!(matches!(r, Err(HookError::Bridge(BridgeError::IsNotCurrentlyTransferring))));
    let r = whitelist_fallback(&hook_accounts(&w, key(5)), &data[..12]);
    assert!(matches!(r, Err(HookError::Program(_))));
}

#[test]
fn fallback_meta_list_instructions() {
    let w = new_whitelist();
    let metas = InitializeWhitelist::extra_account_metas().unwrap();
    let init = TransferHookInstruction::InitializeExtraAccountMetaList { extra_account_metas: metas.clone() }.pack();
    let mut accounts = hook_accounts(&w, key(5));
    accounts[0].data = vec![0u8; 60];
    match whitelist_fallback(&accounts, &init) {
        Ok(FallbackAction::InitializeExtraAccountMetaList { data }) => assert_eq!(data, reference_list(&metas, 60)),
        _ => panic!("expected an initialization"),
    }
    accounts[0].data = reference_list(&metas, 60);
    assert!(matches!(whitelist_fallback(&accounts, &init), Err(HookError::AccountAlreadyInitialized)));
    let update = TransferHookInstruction::UpdateExtraAccountMetaList { extra_account_metas: metas.clone() }.pack();
    assert!(matches!(
        whitelist_fallback(&hook_accounts(&w, key(5)), &update),
        Ok(FallbackAction::UpdateExtraAccountMetaList { .. })
    ));
    assert!(matches!(whitelist_fallback(&vec![], &update), Err(HookError::Bridge(BridgeError::IsNotCurrentlyTransferring))));
    assert!(matches!(whitelist_fallback(&hook_accounts(&w, key(5)), &[1, 2, 3, 4, 5, 6, 7, 8]), Err(HookError::Program(_))));
}

#[test]
fn resolve_whitelist_descriptor() {
    let seeds = InitializeWhitelist::whitelist_seeds();
    let keys: Vec<Pubkey> = (0..5u8).map(key).collect();
    let r = resolve_seeds(&seeds, &keys).unwrap();
    assert_eq!(r, vec![b"whitelist".to_vec(), vec![1u8; 32]]);
    assert!(resolve_seeds(&seeds, &keys[..1].to_vec()).is_none());
    let data_seed = vec![Seed::AccountData { account_index: 0, data_index: 0, length: 4 }];
    assert!(resolve_seeds(&data_seed, &keys).is_none());
}

#[test]
fn fallback_refuses_overcounted_meta_list() {
    let w = new_whitelist();
    let metas = InitializeWhitelist::extra_account_metas().unwrap();
    let mut init = TransferHookInstruction::InitializeExtraAccountMetaList { extra_account_metas: metas }.pack();
    assert_eq!(init.len(), 12 + 35);
    init[8] = 2;
    let r = whitelist_fallback(&hook_accounts(&w, key(5)), &init);
    assert!(matches!(r, Err(HookError::InvalidInstructionData)));
    init[8] = 1;
    init.push(0);
    let r = whitelist_fallback(&hook_accounts(&w, key(5)), &init);
    assert!(matches!(r, Err(HookError::Program(_))));
}
