use vstd::prelude::*;
use anchor_lang::solana_program::program_error::ProgramError;
use spl_tlv_account_resolution::account::ExtraAccountMeta;
use spl_tlv_account_resolution::seeds::Seed;
use crate::error::{BridgeError, HookError};
use crate::interface::{
    all_zero, le_bytes, meta_list_fits, meta_list_written, meta_size, packed_seeds, read_transferring_flag, transferring_flag,
    write_meta_list,
};
use crate::pubkey::{
    contains_key, is_first_index, lemma_first_index_chosen, lemma_push_keeps_distinct, lemma_remove_keeps_distinct,
    position_of, without_first, lemma_without_first_is_filter, Pubkey,
};

verus! {

/// The set of owners allowed to move one restricted asset.
#[derive(Clone, Debug)]
pub struct SimpleWhitelist {
    /// The key allowed to change this record.
    pub authority: Pubkey,
    /// The asset this record governs.
    pub mint: Pubkey,
    pub users: Vec<Pubkey>,
    /// Whether transfers are accepted at all.
    pub is_active: bool,
    pub bump: u8,
}

/// Tag "whitelist", the literal seed of a whitelist record's address.
pub open spec fn whitelist_tag() -> Seq<u8> {
    seq![119u8, 104, 105, 116, 101, 108, 105, 115, 116]
}

/// The type tag that opens a stored whitelist record.
pub open spec fn whitelist_discriminator() -> Seq<u8> {
    seq![69u8, 202, 246, 224, 255, 143, 157, 186]
}

/// Number of members a stored record claims to hold.
pub open spec fn stored_user_count(s: Seq<u8>) -> nat {
    le_bytes(s, 72, 4)
}

/// Offset of the field after the member list of a stored record.
pub open spec fn stored_users_end(s: Seq<u8>) -> int {
    76 + 32 * (stored_user_count(s) as int)
}

/// Whether the bytes after the type tag hold a whole record: two keys, a
/// member count and that many keys, an active flag of 0 or 1, and a bump.
pub open spec fn stored_fields_readable(s: Seq<u8>) -> bool {
    &&& s.len() >= 76
    &&& s.len() >= stored_users_end(s) + 2
    &&& s[stored_users_end(s)] <= 1
}

/// The 32 bytes of the key stored at `at`.
pub open spec fn stored_key(s: Seq<u8>, at: int) -> Seq<u8> {
    s.subrange(at, at + 32)
}

/// The error with which a stored record is refused, if it is.
pub open spec fn stored_whitelist_error(s: Seq<u8>) -> Option<HookError> {
    if s.len() < 8 {
        Some(HookError::AccountDiscriminatorNotFound)
    } else if s.subrange(0, 8) != whitelist_discriminator() {
        Some(HookError::AccountDiscriminatorMismatch)
    } else if !stored_fields_readable(s) {
        Some(HookError::AccountDidNotDeserialize)
    } else {
        None
    }
}

/// Whether a readable stored record admits `user`: its active flag is 1 and
/// one of its member keys is `user`'s.
pub open spec fn stored_whitelist_admits(s: Seq<u8>, user: Pubkey) -> bool {
    &&& s[stored_users_end(s)] == 1
    &&& exists|i: int| 0 <= i < stored_user_count(s) && #[trigger] stored_key(s, 76 + 32 * i) == user@
}

/// The key whose bytes are `data[at..at + 32]`.
fn key_at(data: &[u8], at: usize) -> (r: Pubkey)
    requires
        at + 32 <= data@.len(),
    ensures
        r@ == stored_key(data@, at as int),
{
    let mut b: [u8; 32] = [0u8; 32];
    let mut i: usize = 0;
    let size: usize = data.len();
    while i < 32
        invariant
            0 <= i <= 32,
            size == data@.len(),
            at + 32 <= data@.len(),
            b@.len() == 32,
            forall|j: int| 0 <= j < i ==> b@[j] == data@[at + j],
        decreases 32 - i,
    {
        b[i] = data[at + i];
        i = i + 1;
    }
    let r = Pubkey { bytes: b };
    assert(r@ =~= stored_key(data@, at as int));
    r
}

impl SimpleWhitelist {
    pub const MAX_USERS: usize = 50;

    pub const SPACE: usize = 8 + 32 + 32 + (4 + 32 * 50) + 1 + 1;

    /// At most fifty members, none listed twice.
    pub open spec fn wf(&self) -> bool {
        &&& self.users@.len() <= Self::MAX_USERS
        &&& self.users@.no_duplicates()
    }

    /// Whether `user` may move the asset now.
    pub open spec fn admits(&self, user: Pubkey) -> bool {
        self.is_active && self.users@.contains(user)
    }

    /// Whether `user` may move the asset now: the list is active and holds `user`.
    pub fn is_whitelisted(&self, user: &Pubkey) -> (r: bool)
        ensures
            r == self.admits(*user),
    {
        self.is_active && contains_key(&self.users, user)
    }

    /// Reads a stored whitelist record: the type tag, then the authority, the
    /// mint, the member count as a little-endian `u32` and the members, the
    /// active flag and the bump. Bytes after the record are ignored.
    pub fn try_deserialize(data: &[u8]) -> (r: Result<SimpleWhitelist, HookError>)
        ensures
            r is Ok <==> stored_whitelist_error(data@) is None,
            r matches Err(e) ==> Some(e) == stored_whitelist_error(data@),
            r matches Ok(w) ==> {
                let n = stored_user_count(data@);
                let end = stored_users_end(data@);
                &&& w.authority@ == stored_key(data@, 8)
                &&& w.mint@ == stored_key(data@, 40)
                &&& w.users@.len() == n
                &&& forall|i: int| 0 <= i < n ==> (#[trigger] w.users@[i])@ == stored_key(data@, 76 + 32 * i)
                &&& w.is_active == (data@[end] == 1)
                &&& w.bump == data@[end + 1]
            },
    {
        if data.len() < 8 {
            return Err(HookError::AccountDiscriminatorNotFound);
        }
        let tag: [u8; 8] = [69, 202, 246, 224, 255, 143, 157, 186];
        let mut i: usize = 0;
        while i < 8
            invariant
                0 <= i <= 8,
                data@.len() >= 8,
                tag@ == whitelist_discriminator(),
                forall|j: int| 0 <= j < i ==> data@[j] == tag@[j],
            decreases 8 - i,
        {
            if data[i] != tag[i] {
                assert(data@.subrange(0, 8)[i as int] != whitelist_discriminator()[i as int]);
                return Err(HookError::AccountDiscriminatorMismatch);
            }
            i = i + 1;
        }
        assert(data@.subrange(0, 8) =~= whitelist_discriminator());
        if data.len() < 76 {
            return Err(HookError::AccountDidNotDeserialize);
        }
        let n: u64 = data[72] as u64 + 256 * (data[73] as u64 + 256 * (data[74] as u64 + 256 * (
        data[75] as u64)));
        proof {
            reveal_with_fuel(le_bytes, 5);
            assert(n == stored_user_count(data@));
        }
        let len = data.len() as u64;
        if len < 78 || (len - 78) / 32 < n {
            return Err(HookError::AccountDidNotDeserialize);
        }
        assert(len >= 76 + 32 * n + 2) by (nonlinear_arith)
            requires
                len >= 78,
                (len - 78) / 32 >= n,
        ;
        let end = (76 + 32 * n) as usize;
        if data[end] > 1 {
            return Err(HookError::AccountDidNotDeserialize);
        }
        let authority = key_at(data, 8);
        let mint = key_at(data, 40);
        let mut users: Vec<Pubkey> = Vec::new();
        let mut k: usize = 0;
        let size: usize = data.len();
        while (k as u64) < n
            invariant
                k <= n,
                size == data@.len(),
                n == stored_user_count(data@),
                76 + 32 * n + 2 <= data@.len(),
                users@.len() == k,
                forall|j: int| 0 <= j < k ==> (#[trigger] users@[j])@ == stored_key(data@, 76 + 32 * j),
            decreases n - k,
        {
            assert(76 + 32 * k + 32 <= 76 + 32 * n) by (nonlinear_arith)
                requires
                    k < n,
            ;
            let key = key_at(data, 76 + 32 * k);
            users.push(key);
            k = k + 1;
        }
        Ok(SimpleWhitelist { authority, mint, users, is_active: data[end] == 1, bump: data[end + 1] })
    }
}

/// The accounts that set up a whitelist for an asset.
#[derive(Clone, Copy, Debug)]
pub struct InitializeWhitelist {
    pub authority: Pubkey,
    pub mint: Pubkey,
    /// Bump seed of the whitelist record's derived address.
    pub whitelist_bump: u8,
}

/// The seeds of the one extra account a transfer check needs: the tag
/// "whitelist" and the key of the base instruction's account 1, the mint.
pub open spec fn whitelist_seeds_ok(s: Seq<Seed>) -> bool {
    &&& s.len() == 2
    &&& s[0] matches Seed::Literal { bytes } && bytes@ == whitelist_tag()
    &&& s[1] == (Seed::AccountKey { index: 1 })
}

/// Whether `m` is the whitelist's descriptor: read-only, not a signer, its
/// address derived from the seeds above.
pub open spec fn is_whitelist_descriptor(m: ExtraAccountMeta) -> bool {
    exists|s: Seq<Seed>|
        {
            &&& whitelist_seeds_ok(s)
            &&& m.discriminator == 1
            &&& #[trigger] m.address_config@ == packed_seeds(s) + Seq::new(
                (32 - packed_seeds(s).len()) as nat,
                |i: int| 0u8,
            )
            &&& m.is_signer.0 == 0
            &&& m.is_writable.0 == 0
        }
}

impl InitializeWhitelist {
    /// The seeds of the whitelist record's address, as a descriptor states them.
    pub fn whitelist_seeds() -> (r: Vec<Seed>)
        ensures
            whitelist_seeds_ok(r@),
    {
        let bytes: Vec<u8> = vec![119, 104, 105, 116, 101, 108, 105, 115, 116];
        assert(bytes@ =~= whitelist_tag());
        vec![Seed::Literal { bytes }, Seed::AccountKey { index: 1 }]
    }

    /// The descriptor list published for the asset: one read-only, unsigned
    /// account, the whitelist record, found from the seeds above.
    pub fn extra_account_metas() -> (r: Result<Vec<ExtraAccountMeta>, ProgramError>)
        ensures
            r matches Ok(metas) && metas@.len() == 1 && is_whitelist_descriptor(metas@[0]),
    {
        let seeds = Self::whitelist_seeds();
        proof {
            let s = seeds@;
            reveal_with_fuel(packed_seeds, 3);
            assert(s.drop_last().drop_last().len() == 0);
            assert(s.drop_last().last() == s[0]);
            assert(packed_seeds(s).len() == 13);
            assert(crate::interface::literal_fits(s[0]));
            assert(crate::interface::literal_fits(s[1]));
        }
        let meta = ExtraAccountMeta::new_with_seeds(seeds.as_slice(), false, false)?;
        Ok(vec![meta])
    }
}

/// Whether every byte of `data` is zero.
pub fn is_blank(data: &Vec<u8>) -> (r: bool)
    ensures
        r == all_zero(data@),
{
    let mut i: usize = 0;
    while i < data.len()
        invariant
            0 <= i <= data@.len(),
            forall|j: int| 0 <= j < i ==> data@[j] == 0u8,
        decreases data.len() - i,
    {
        if data[i] != 0 {
            return false;
        }
        i = i + 1;
    }
    true
}

/// The contents of an account never written, once `metas` are published in
/// it as the `Execute` instruction's descriptor list. An account already
/// written is refused, and so is one too small for the list.
pub fn publish_meta_list(data: &Vec<u8>, metas: &Vec<ExtraAccountMeta>) -> (r: Result<Vec<u8>, HookError>)
    ensures
        !all_zero(data@) ==> r matches Err(HookError::AccountAlreadyInitialized),
        all_zero(data@) ==> (r is Ok <==> meta_list_fits(data@.len() as int, metas@.len() as int)),
        all_zero(data@) && r is Err ==> r matches Err(HookError::Program(_)),
        r matches Ok(out) ==> out@.len() == data@.len() && meta_list_written(out@, metas@),
{
    if !is_blank(data) {
        return Err(HookError::AccountAlreadyInitialized);
    }
    let mut out = data.clone();
    assert(out@ == data@);
    match write_meta_list(&mut out, metas) {
        Ok(()) => Ok(out),
        Err(e) => Err(HookError::Program(e)),
    }
}

/// Sets up an active, empty whitelist for `accounts.mint`, held by
/// `accounts.authority`, and the contents of the descriptor-list account
/// (`meta_list_data`, never written before) with the whitelist's descriptor
/// published in it.
pub fn initialize_whitelist(accounts: &InitializeWhitelist, meta_list_data: &Vec<u8>) -> (r: Result<
    (SimpleWhitelist, Vec<u8>),
    HookError,
>)
    ensures
        !all_zero(meta_list_data@) ==> r matches Err(HookError::AccountAlreadyInitialized),
        all_zero(meta_list_data@) ==> (r is Ok <==> meta_list_data@.len() >= 16 + meta_size()),
        r matches Ok((w, data)) ==> {
            &&& w.authority == accounts.authority
            &&& w.mint == accounts.mint
            &&& w.users@.len() == 0
            &&& w.is_active
            &&& w.bump == accounts.whitelist_bump
            &&& w.wf()
            &&& data@.len() == meta_list_data@.len()
            &&& exists|m: ExtraAccountMeta| is_whitelist_descriptor(m) && meta_list_written(data@, seq![m])
        },
{
    let metas = match InitializeWhitelist::extra_account_metas() {
        Ok(m) => m,
        Err(e) => return Err(HookError::Program(e)),
    };
    let data = publish_meta_list(meta_list_data, &metas)?;
    assert(metas@ =~= seq![metas@[0]]);
    let w = SimpleWhitelist {
        authority: accounts.authority,
        mint: accounts.mint,
        users: Vec::new(),
        is_active: true,
        bump: accounts.whitelist_bump,
    };
    Ok((w, data))
}

/// `b` is `a` with only the member list possibly changed.
pub open spec fn same_except_users(a: SimpleWhitelist, b: SimpleWhitelist) -> bool {
    &&& b.authority == a.authority
    &&& b.mint == a.mint
    &&& b.is_active == a.is_active
    &&& b.bump == a.bump
}

/// Admits `user`; a full list refuses even a member already present.
pub fn add_to_whitelist(whitelist: &mut SimpleWhitelist, signer: &Pubkey, user: Pubkey) -> (r: Result<(), BridgeError>)
    ensures
        *signer != old(whitelist).authority ==> r == Err::<(), BridgeError>(BridgeError::Unauthorized),
        *signer == old(whitelist).authority && old(whitelist).users@.len() >= SimpleWhitelist::MAX_USERS
            ==> r == Err::<(), BridgeError>(BridgeError::MaxApprovedHooksReached),
        r is Err ==> *final(whitelist) == *old(whitelist),
        r is Ok <==> *signer == old(whitelist).authority && old(whitelist).users@.len() < SimpleWhitelist::MAX_USERS,
        r is Ok ==> same_except_users(*old(whitelist), *final(whitelist)) && final(whitelist).users@ == if old(
            whitelist,
        ).users@.contains(user) {
            old(whitelist).users@
        } else {
            old(whitelist).users@.push(user)
        },
        old(whitelist).wf() ==> final(whitelist).wf(),
{
    if *signer != whitelist.authority {
        return Err(BridgeError::Unauthorized);
    }
    if whitelist.users.len() >= SimpleWhitelist::MAX_USERS {
        return Err(BridgeError::MaxApprovedHooksReached);
    }
    if !contains_key(&whitelist.users, &user) {
        whitelist.users.push(user);
        proof {
            lemma_push_keeps_distinct(old(whitelist).users@, user);
        }
    }
    Ok(())
}

/// Withdraws `user`'s admission; a non-member is left alone.
pub fn remove_from_whitelist(whitelist: &mut SimpleWhitelist, signer: &Pubkey, user: Pubkey) -> (r: Result<(), BridgeError>)
    ensures
        r is Err <==> *signer != old(whitelist).authority,
        r matches Err(e) ==> e == BridgeError::Unauthorized && *final(whitelist) == *old(whitelist),
        r is Ok ==> same_except_users(*old(whitelist), *final(whitelist))
            && final(whitelist).users@ == without_first(old(whitelist).users@, user),
        old(whitelist).wf() ==> final(whitelist).wf(),
        r is Ok && old(whitelist).wf() ==> !final(whitelist).users@.contains(user)
            && final(whitelist).users@ == old(whitelist).users@.filter(|x: Pubkey| x != user),
{
    if *signer != whitelist.authority {
        return Err(BridgeError::Unauthorized);
    }
    let ghost s = whitelist.users@;
    proof {
        if s.no_duplicates() {
            lemma_without_first_is_filter(s, user);
        }
    }
    match position_of(&whitelist.users, &user) {
        Some(pos) => {
            whitelist.users.remove(pos);
            proof {
                lemma_first_index_chosen(s, user, pos as int);
                lemma_remove_keeps_distinct(s, pos as int);
            }
        },
        None => {},
    }
    Ok(())
}

/// Flips whether the whitelist accepts transfers.
pub fn toggle_whitelist_status(whitelist: &mut SimpleWhitelist, signer: &Pubkey) -> (r: Result<(), BridgeError>)
    ensures
        r is Err <==> *signer != old(whitelist).authority,
        r matches Err(e) ==> e == BridgeError::Unauthorized && *final(whitelist) == *old(whitelist),
        r is Ok ==> *final(whitelist) == (SimpleWhitelist { is_active: !old(whitelist).is_active, ..*old(whitelist) }),
{
    if *signer != whitelist.authority {
        return Err(BridgeError::Unauthorized);
    }
    whitelist.is_active = !whitelist.is_active;
    Ok(())
}

/// The decision of the transfer check: the owner must be admitted by the
/// whitelist, and the token account must be in the middle of a transfer.
pub open spec fn authorization_result(w: SimpleWhitelist, owner: Pubkey, transferring: bool) -> Result<(), BridgeError> {
    if !w.admits(owner) {
        Err(BridgeError::SenderNotWhitelisted)
    } else if !transferring {
        Err(BridgeError::IsNotCurrentlyTransferring)
    } else {
        Ok(())
    }
}

/// Decides a transfer of the restricted asset by `owner`, given whether the
/// source account's transfer-hook flag is set.
pub fn whitelist_authorization_check(whitelist: &SimpleWhitelist, owner: &Pubkey, transferring: bool) -> (r: Result<(), BridgeError>)
    ensures
        r == authorization_result(*whitelist, *owner, transferring),
{
    if !whitelist.is_whitelisted(owner) {
        return Err(BridgeError::SenderNotWhitelisted);
    }
    if !transferring {
        return Err(BridgeError::IsNotCurrentlyTransferring);
    }
    Ok(())
}

/// The accounts the token runtime hands to the transfer check, in order.
#[derive(Clone, Debug)]
pub struct WhitelistTransferHook {
    pub source_token: Pubkey,
    /// Raw data of the source token account.
    pub source_token_data: Vec<u8>,
    pub mint: Pubkey,
    pub destination_token: Pubkey,
    /// Owner of the source account: the party moving the tokens.
    pub owner: Pubkey,
    pub extra_account_meta_list: Pubkey,
    pub whitelist: SimpleWhitelist,
}

/// Fails with `IsNotCurrentlyTransferring` unless the source token account's
/// transfer-hook flag is present and set.
pub fn assert_is_transferring(source_token_data: &[u8]) -> (r: Result<(), BridgeError>)
    ensures
        r is Ok <==> transferring_flag(source_token_data@) == Some(true),
        r is Err ==> r == Err::<(), BridgeError>(BridgeError::IsNotCurrentlyTransferring),
{
    match read_transferring_flag(source_token_data) {
        Ok(true) => Ok(()),
        _ => Err(BridgeError::IsNotCurrentlyTransferring),
    }
}

/// The check the token runtime runs before it commits a transfer of the
/// restricted asset: the owner must be admitted, then the source account must
/// be mid-transfer (its flag present and set). It changes nothing.
pub fn whitelist_transfer_hook(accounts: &WhitelistTransferHook, amount: u64) -> (r: Result<(), BridgeError>)
    ensures
        r == authorization_result(
            accounts.whitelist,
            accounts.owner,
            transferring_flag(accounts.source_token_data@) == Some(true),
        ),
{
    if !accounts.whitelist.is_whitelisted(&accounts.owner) {
        return Err(BridgeError::SenderNotWhitelisted);
    }
    let transferring = assert_is_transferring(accounts.source_token_data.as_slice()).is_ok();
    whitelist_authorization_check(&accounts.whitelist, &accounts.owner, transferring)
}

/// A member removed from the whitelist is refused by the very next check,
/// whatever the state of the transfer.
pub proof fn lemma_removed_member_refused(w0: SimpleWhitelist, w1: SimpleWhitelist, user: Pubkey, transferring: bool)
    requires
        w0.wf(),
        same_except_users(w0, w1),
        w1.users@ == without_first(w0.users@, user),
    ensures
        authorization_result(w1, user, transferring) == Err::<(), BridgeError>(BridgeError::SenderNotWhitelisted),
{
    let s = w0.users@;
    if s.contains(user) {
        let pos = choose|i: int| is_first_index(s, user, i);
        let j = choose|j: int| 0 <= j < s.len() && s[j] == user;
        assert(is_first_index(s, user, j) || exists|i: int| 0 <= i < j && s[i] == user);
        if !is_first_index(s, user, j) {
            let i = choose|i: int| 0 <= i < j && s[i] == user;
            assert(s[i] == s[j]);
        }
        lemma_remove_keeps_distinct(s, pos);
    }
}

/// The check admits exactly the members of an active whitelist, while the
/// transfer is in flight.
pub proof fn lemma_authorization_exact(w: SimpleWhitelist, user: Pubkey)
    ensures
        authorization_result(w, user, true) is Ok <==> w.is_active && w.users@.contains(user),
{
}

} // verus!
