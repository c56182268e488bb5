use vstd::prelude::*;
use spl_tlv_account_resolution::seeds::Seed;
use crate::pubkey::Pubkey;

verus! {

/// Whether a seed can be resolved from the base instruction's account list:
/// a literal always, a positional reference when the position exists. Seeds
/// that would read instruction or account data are not resolved.
pub open spec fn seed_resolvable(s: Seed, keys: Seq<Pubkey>) -> bool {
    match s {
        Seed::Literal { .. } => true,
        Seed::AccountKey { index } => index < keys.len(),
        _ => false,
    }
}

/// The bytes a resolvable seed stands for.
pub open spec fn resolved_seed(s: Seed, keys: Seq<Pubkey>) -> Seq<u8> {
    match s {
        Seed::Literal { bytes } => bytes@,
        Seed::AccountKey { index } => if index < keys.len() {
            keys[index as int]@
        } else {
            seq![]
        },
        _ => seq![],
    }
}

/// Turns a descriptor's seeds into the byte strings from which its account's
/// address is derived, using nothing but the seeds and the addresses of the
/// base instruction's accounts; `None` when a seed cannot be resolved so.
pub fn resolve_seeds(seeds: &Vec<Seed>, account_keys: &Vec<Pubkey>) -> (r: Option<Vec<Vec<u8>>>)
    ensures
        r is Some <==> forall|i: int| 0 <= i < seeds@.len() ==> seed_resolvable(#[trigger] seeds@[i], account_keys@),
        r matches Some(out) ==> out@.len() == seeds@.len() && forall|i: int|
            0 <= i < seeds@.len() ==> (#[trigger] out@[i])@ == resolved_seed(seeds@[i], account_keys@),
{
    let mut out: Vec<Vec<u8>> = Vec::new();
    let mut i: usize = 0;
    while i < seeds.len()
        invariant
            0 <= i <= seeds.len(),
            out@.len() == i,
            forall|j: int| 0 <= j < i ==> seed_resolvable(#[trigger] seeds@[j], account_keys@),
            forall|j: int| 0 <= j < i ==> (#[trigger] out@[j])@ == resolved_seed(seeds@[j], account_keys@),
        decreases seeds.len() - i,
    {
        match &seeds[i] {
            Seed::Literal { bytes } => {
                out.push(bytes.clone());
            },
            Seed::AccountKey { index } => {
                if (*index as usize) >= account_keys.len() {
                    return None;
                }
                let key = &account_keys[*index as usize];
                let mut b: Vec<u8> = Vec::new();
                let mut k: usize = 0;
                while k < 32
                    invariant
                        0 <= k <= 32,
                        b@ == key@.subrange(0, k as int),
                    decreases 32 - k,
                {
                    b.push(key.bytes[k]);
                    k = k + 1;
                    assert(b@ =~= key@.subrange(0, k as int));
                }
                assert(b@ =~= key@);
                out.push(b);
            },
            _ => {
                return None;
            },
        }
        i = i + 1;
    }
    Some(out)
}

/// Two account lists agree at the position a seed names, if it names one.
pub open spec fn lists_agree_at(s: Seed, k1: Seq<Pubkey>, k2: Seq<Pubkey>) -> bool {
    match s {
        Seed::AccountKey { index } => (index < k1.len() <==> index < k2.len()) && (index < k1.len()
            ==> k1[index as int] == k2[index as int]),
        _ => true,
    }
}

/// Resolution reads the account list only at the positions the seeds name:
/// two lists that agree there resolve every descriptor alike.
pub proof fn lemma_resolution_reads_named_positions(seeds: Seq<Seed>, k1: Seq<Pubkey>, k2: Seq<Pubkey>)
    requires
        forall|i: int| 0 <= i < seeds.len() ==> lists_agree_at(#[trigger] seeds[i], k1, k2),
    ensures
        forall|i: int|
            0 <= i < seeds.len() ==> seed_resolvable(#[trigger] seeds[i], k1) == seed_resolvable(seeds[i], k2)
                && resolved_seed(seeds[i], k1) == resolved_seed(seeds[i], k2),
{
    assert forall|i: int| 0 <= i < seeds.len() implies seed_resolvable(#[trigger] seeds[i], k1)
        == seed_resolvable(seeds[i], k2) && resolved_seed(seeds[i], k1) == resolved_seed(seeds[i], k2) by {
        match seeds[i] {
            Seed::AccountKey { index } => {
                assert(lists_agree_at(seeds[i], k1, k2));
            },
            _ => {},
        }
    }
}

} // verus!
