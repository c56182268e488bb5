use vstd::prelude::*;
use anchor_lang::solana_program::program_error::ProgramError;
use spl_pod::primitives::PodBool;
use spl_tlv_account_resolution::account::ExtraAccountMeta;
use spl_tlv_account_resolution::seeds::Seed;
use spl_tlv_account_resolution::state::ExtraAccountMetaList;
use spl_transfer_hook_interface::instruction::{ExecuteInstruction, TransferHookInstruction};
use anchor_spl::token_2022::spl_token_2022::extension::transfer_hook::TransferHookAccount;
use anchor_spl::token_2022::spl_token_2022::extension::{BaseStateWithExtensions, PodStateWithExtensions};
use anchor_spl::token_2022::spl_token_2022::pod::PodAccount;

verus! {

#[verifier::external_type_specification]
#[verifier::external_body]
pub struct ExProgramError(ProgramError);

#[verifier::external_type_specification]
pub struct ExPodBool(PodBool);

#[verifier::external_type_specification]
pub struct ExExtraAccountMeta(ExtraAccountMeta);

#[verifier::external_type_specification]
pub struct ExSeed(Seed);

#[verifier::external_type_specification]
pub struct ExTransferHookInstruction(TransferHookInstruction);

/// First eight bytes of the `Execute` instruction of the transfer hook interface.
pub open spec fn execute_discriminator() -> Seq<u8> {
    seq![105u8, 37, 101, 197, 75, 251, 102, 26]
}

/// First eight bytes of its `InitializeExtraAccountMetaList` instruction.
pub open spec fn initialize_metas_discriminator() -> Seq<u8> {
    seq![43u8, 34, 13, 49, 167, 88, 235, 235]
}

/// First eight bytes of its `UpdateExtraAccountMetaList` instruction.
pub open spec fn update_metas_discriminator() -> Seq<u8> {
    seq![157u8, 105, 42, 146, 102, 85, 241, 174]
}

/// The unsigned little-endian number in `s[at..at + n]`.
pub open spec fn le_bytes(s: Seq<u8>, at: int, n: nat) -> nat
    decreases n,
{
    if n == 0 {
        0
    } else {
        s[at] as nat + 256 * le_bytes(s, at + 1, (n - 1) as nat)
    }
}

/// How a seed is written into a descriptor's 32-byte configuration.
pub open spec fn packed_seed(s: Seed) -> Seq<u8> {
    match s {
        Seed::Uninitialized => seq![],
        Seed::Literal { bytes } => seq![1u8, bytes@.len() as u8] + bytes@,
        Seed::InstructionData { index, length } => seq![2u8, index, length],
        Seed::AccountKey { index } => seq![3u8, index],
        Seed::AccountData { account_index, data_index, length } => seq![4u8, account_index, data_index, length],
    }
}

/// A literal seed whose length the packing can count without overflow.
pub open spec fn literal_fits(s: Seed) -> bool {
    s matches Seed::Literal { bytes } ==> bytes@.len() < 254
}

/// The seeds written one after the other.
pub open spec fn packed_seeds(seeds: Seq<Seed>) -> Seq<u8>
    decreases seeds.len(),
{
    if seeds.len() == 0 {
        seq![]
    } else {
        packed_seeds(seeds.drop_last()) + packed_seed(seeds.last())
    }
}

/// Whether `input` opens with the eight bytes `d`.
pub open spec fn opens_with(input: Seq<u8>, d: Seq<u8>) -> bool {
    input.len() >= 8 && input.subrange(0, 8) == d
}

/// Size of one stored descriptor: a tag, a 32-byte configuration, two flags.
pub open spec fn meta_size() -> int {
    35
}

/// Whether the bytes after a descriptor-list instruction's tag form a list:
/// a little-endian `u32` count, then whole descriptors.
pub open spec fn meta_list_shaped(input: Seq<u8>) -> bool {
    input.len() >= 12 && (input.len() - 12) % meta_size() == 0
}

/// Whether a descriptor-list instruction counts no more descriptors than it
/// carries; a larger count makes the decoder index past the list.
pub open spec fn meta_list_count_fits(input: Seq<u8>) -> bool {
    (opens_with(input, initialize_metas_discriminator()) || opens_with(input, update_metas_discriminator()))
        && meta_list_shaped(input) ==> meta_size() * le_bytes(input, 8, 4) <= input.len() - 12
}

/// Whether `m` is the descriptor stored at `input[at..at + 35]`: its tag, its
/// 32-byte configuration, then its signer and writable flags.
pub open spec fn meta_stored_at(input: Seq<u8>, at: int, m: ExtraAccountMeta) -> bool {
    &&& m.discriminator == input[at]
    &&& m.address_config@ == input.subrange(at + 1, at + 33)
    &&& m.is_signer.0 == input[at + 33]
    &&& m.is_writable.0 == input[at + 34]
}

/// Whether `metas` are the descriptors a descriptor-list instruction carries:
/// as many as its count says, read one after the other from byte 12.
pub open spec fn metas_decoded(input: Seq<u8>, metas: Seq<ExtraAccountMeta>) -> bool {
    &&& meta_list_shaped(input)
    &&& metas.len() == le_bytes(input, 8, 4)
    &&& forall|i: int| 0 <= i < metas.len() ==> meta_stored_at(input, 12 + meta_size() * i, #[trigger] metas[i])
}

/// Relies on `TransferHookInstruction::unpack`: the first eight bytes select
/// the instruction; `Execute` reads its amount as a little-endian `u64` from the
/// next eight bytes; the descriptor-list instructions read a `u32` count and
/// that many 35-byte descriptors, laid out field by field, from a list of whole
/// descriptors (a count larger than the list makes it panic); anything else is
/// refused.
pub assume_specification[ TransferHookInstruction::unpack ](input: &[u8]) -> (r: Result<
    TransferHookInstruction,
    ProgramError,
>)
    requires
        meta_list_count_fits(input@),
    ensures
        input@.len() < 8 ==> r is Err,
        input@.len() >= 8 && input@.subrange(0, 8) == execute_discriminator() ==> (match r {
            Ok(TransferHookInstruction::Execute { amount }) => input@.len() >= 16 && amount == le_bytes(
                input@,
                8,
                8,
            ),
            Ok(_) => false,
            Err(_) => input@.len() < 16,
        }),
        opens_with(input@, initialize_metas_discriminator()) ==> (match r {
            Ok(TransferHookInstruction::InitializeExtraAccountMetaList { extra_account_metas }) => metas_decoded(
                input@,
                extra_account_metas@,
            ),
            Ok(_) => false,
            Err(_) => !meta_list_shaped(input@),
        }),
        opens_with(input@, update_metas_discriminator()) ==> (match r {
            Ok(TransferHookInstruction::UpdateExtraAccountMetaList { extra_account_metas }) => metas_decoded(
                input@,
                extra_account_metas@,
            ),
            Ok(_) => false,
            Err(_) => !meta_list_shaped(input@),
        }),
        input@.len() >= 8 && input@.subrange(0, 8) != execute_discriminator() && input@.subrange(0, 8)
            != initialize_metas_discriminator() && input@.subrange(0, 8) != update_metas_discriminator()
            ==> r is Err,
;

/// Relies on `ExtraAccountMeta::new_with_seeds`: the seeds are written one
/// after the other into a zero-filled 32-byte configuration, which must hold
/// them all; an unset seed is refused.
pub assume_specification[ ExtraAccountMeta::new_with_seeds ](
    seeds: &[Seed],
    is_signer: bool,
    is_writable: bool,
) -> (r: Result<ExtraAccountMeta, ProgramError>)
    requires
        forall|i: int| 0 <= i < seeds@.len() ==> literal_fits(#[trigger] seeds@[i]),
    ensures
        r is Ok <==> packed_seeds(seeds@).len() <= 32 && forall|i: int|
            0 <= i < seeds@.len() ==> !(#[trigger] seeds@[i] is Uninitialized),
        r matches Ok(m) ==> {
            &&& m.discriminator == 1
            &&& m.address_config@ == packed_seeds(seeds@) + Seq::new(
                (32 - packed_seeds(seeds@).len()) as nat,
                |i: int| 0u8,
            )
            &&& m.is_signer.0 == (if is_signer { 1u8 } else { 0u8 })
            &&& m.is_writable.0 == (if is_writable { 1u8 } else { 0u8 })
        },
;

/// The `transferring` flag of the transfer-hook extension of a token account
/// whose raw data is `data`, if the data holds such an account and extension.
pub uninterp spec fn transferring_flag(data: Seq<u8>) -> Option<bool>;

/// Relies on `PodStateWithExtensions::<PodAccount>::unpack` and its
/// `get_extension::<TransferHookAccount>`: they read the token account and its
/// transfer-hook extension from the data alone.
#[verifier::external_body]
pub(crate) fn read_transferring_flag(data: &[u8]) -> (r: Result<bool, ProgramError>)
    ensures
        r is Ok <==> transferring_flag(data@) is Some,
        r matches Ok(b) ==> transferring_flag(data@) == Some(b),
{
    let account = PodStateWithExtensions::<PodAccount>::unpack(data)?;
    let extension = account.get_extension::<TransferHookAccount>()?;
    Ok(bool::from(extension.transferring))
}

/// Whether every byte of `s` is zero, as in an account never written.
pub open spec fn all_zero(s: Seq<u8>) -> bool {
    forall|i: int| 0 <= i < s.len() ==> s[i] == 0u8
}

/// Whether `s` holds, from its start, the descriptor list of the `Execute`
/// instruction: its tag, the entry length, the count, then the descriptors
/// one after the other, and zeros after them.
pub open spec fn meta_list_written(s: Seq<u8>, metas: Seq<ExtraAccountMeta>) -> bool {
    let end = 16 + meta_size() * metas.len();
    &&& s.len() >= end
    &&& s.subrange(0, 8) == execute_discriminator()
    &&& le_bytes(s, 8, 4) == 4 + meta_size() * metas.len()
    &&& le_bytes(s, 12, 4) == metas.len()
    &&& forall|i: int| 0 <= i < metas.len() ==> meta_stored_at(s, 16 + meta_size() * i, #[trigger] metas[i])
    &&& forall|j: int| end <= j < s.len() ==> s[j] == 0u8
}

/// Whether an account of `len` bytes can hold a descriptor list of `n`
/// entries, whose entry length must also fit in a `u32`.
pub open spec fn meta_list_fits(len: int, n: int) -> bool {
    len >= 16 + meta_size() * n && 4 + meta_size() * n <= u32::MAX
}

/// Relies on `ExtraAccountMetaList::init::<ExecuteInstruction>`: on an account
/// never written, it allocates the first TLV entry under the `Execute` tag and
/// writes the descriptors into it; the account must hold the whole entry.
#[verifier::external_body]
pub(crate) fn write_meta_list(data: &mut Vec<u8>, metas: &Vec<ExtraAccountMeta>) -> (r: Result<(), ProgramError>)
    requires
        all_zero(old(data)@),
    ensures
        final(data)@.len() == old(data)@.len(),
        r is Ok <==> meta_list_fits(old(data)@.len() as int, metas@.len() as int),
        r is Ok ==> meta_list_written(final(data)@, metas@),
{
    ExtraAccountMetaList::init::<ExecuteInstruction>(data.as_mut_slice(), metas.as_slice())
}

} // verus!
