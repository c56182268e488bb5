use vstd::prelude::*;
use crate::error::BridgeError;
use crate::pubkey::Pubkey;

verus! {

/// A call into the token runtime that holds the balances of both assets.
#[derive(Clone, Copy, Debug)]
pub enum CustodyCall {
    /// Moves `amount` from `from` to `to`, checked against the mint's decimals.
    TransferChecked { from: Pubkey, mint: Pubkey, to: Pubkey, authority: Pubkey, amount: u64, decimals: u8 },
    /// Creates `amount` new tokens of `mint` in `to`.
    MintTo { mint: Pubkey, to: Pubkey, authority: Pubkey, amount: u64 },
    /// Destroys `amount` tokens of `mint` held in `from`.
    Burn { mint: Pubkey, from: Pubkey, authority: Pubkey, amount: u64 },
}

/// Who signs a call: the user directly, or one of the bridge's derived addresses.
#[derive(Clone, Copy, Debug)]
pub enum CallSigner {
    User,
    BridgeConfig { bump: u8 },
    TokenVault { restricted_token_mint: Pubkey, bump: u8 },
}

/// One call of an operation's plan, with its signer and the error that its
/// failure is reported as (`None`: the runtime's own error passes through).
#[derive(Clone, Copy, Debug)]
pub struct PlannedCall {
    pub call: CustodyCall,
    pub signer: CallSigner,
    pub failure: Option<BridgeError>,
}

pub open spec fn bridge_config_tag() -> Seq<u8> {
    seq![98u8, 114, 105, 100, 103, 101, 95, 99, 111, 110, 102, 105, 103]
}

pub open spec fn token_vault_tag() -> Seq<u8> {
    seq![116u8, 111, 107, 101, 110, 95, 118, 97, 117, 108, 116]
}

/// The seeds of the derived address that signs: the record's tag, the mint
/// for a vault, and the bump.
pub open spec fn signer_seeds(s: CallSigner) -> Seq<Seq<u8>> {
    match s {
        CallSigner::User => seq![],
        CallSigner::BridgeConfig { bump } => seq![bridge_config_tag(), seq![bump]],
        CallSigner::TokenVault { restricted_token_mint, bump } => seq![
            token_vault_tag(),
            restricted_token_mint@,
            seq![bump],
        ],
    }
}

fn bytes_of(b: &[u8]) -> (r: Vec<u8>)
    ensures
        r@ == b@,
{
    let mut v: Vec<u8> = Vec::new();
    let mut i: usize = 0;
    while i < b.len()
        invariant
            0 <= i <= b.len(),
            v@ == b@.subrange(0, i as int),
        decreases b.len() - i,
    {
        v.push(b[i]);
        i = i + 1;
        assert(v@ =~= b@.subrange(0, i as int));
    }
    v
}

impl CallSigner {
    /// The signer seeds handed to the runtime with the call.
    pub fn seeds(&self) -> (r: Vec<Vec<u8>>)
        ensures
            r@.len() == signer_seeds(*self).len(),
            forall|i: int| 0 <= i < r@.len() ==> r@[i]@ == signer_seeds(*self)[i],
    {
        match self {
            CallSigner::User => Vec::new(),
            CallSigner::BridgeConfig { bump } => {
                let tag: [u8; 13] = [98, 114, 105, 100, 103, 101, 95, 99, 111, 110, 102, 105, 103];
                let t = bytes_of(&tag);
                assert(t@ =~= bridge_config_tag());
                let b = vec![*bump];
                assert(b@ =~= seq![*bump]);
                vec![t, b]
            },
            CallSigner::TokenVault { restricted_token_mint, bump } => {
                let tag: [u8; 11] = [116, 111, 107, 101, 110, 95, 118, 97, 117, 108, 116];
                let t = bytes_of(&tag);
                assert(t@ =~= token_vault_tag());
                let m = bytes_of(&restricted_token_mint.bytes);
                let b = vec![*bump];
                assert(b@ =~= seq![*bump]);
                vec![t, m, b]
            },
        }
    }
}

/// How one call changes the balance of token account `account`.
pub open spec fn balance_delta(c: CustodyCall, account: Pubkey) -> int {
    match c {
        CustodyCall::TransferChecked { from, to, amount, .. } => (if to == account {
            amount as int
        } else {
            0int
        }) - (if from == account {
            amount as int
        } else {
            0int
        }),
        CustodyCall::MintTo { to, amount, .. } => if to == account {
            amount as int
        } else {
            0int
        },
        CustodyCall::Burn { from, amount, .. } => if from == account {
            -(amount as int)
        } else {
            0int
        },
    }
}

/// How one call changes the supply of `mint`.
pub open spec fn supply_delta(c: CustodyCall, mint: Pubkey) -> int {
    match c {
        CustodyCall::TransferChecked { .. } => 0int,
        CustodyCall::MintTo { mint: m, amount, .. } => if m == mint {
            amount as int
        } else {
            0int
        },
        CustodyCall::Burn { mint: m, amount, .. } => if m == mint {
            -(amount as int)
        } else {
            0int
        },
    }
}

/// The net change of `account`'s balance over a plan.
pub open spec fn plan_balance_delta(p: Seq<PlannedCall>, account: Pubkey) -> int
    decreases p.len(),
{
    if p.len() == 0 {
        0
    } else {
        plan_balance_delta(p.drop_last(), account) + balance_delta(p.last().call, account)
    }
}

/// The net change of `mint`'s supply over a plan.
pub open spec fn plan_supply_delta(p: Seq<PlannedCall>, mint: Pubkey) -> int
    decreases p.len(),
{
    if p.len() == 0 {
        0
    } else {
        plan_supply_delta(p.drop_last(), mint) + supply_delta(p.last().call, mint)
    }
}

/// Net changes add up over plans run one after the other.
pub proof fn lemma_plan_deltas_concat(p: Seq<PlannedCall>, q: Seq<PlannedCall>, x: Pubkey)
    ensures
        plan_balance_delta(p + q, x) == plan_balance_delta(p, x) + plan_balance_delta(q, x),
        plan_supply_delta(p + q, x) == plan_supply_delta(p, x) + plan_supply_delta(q, x),
    decreases q.len(),
{
    if q.len() == 0 {
        assert(p + q =~= p);
    } else {
        assert((p + q).drop_last() =~= p + q.drop_last());
        assert((p + q).last() == q.last());
        lemma_plan_deltas_concat(p, q.drop_last(), x);
    }
}

} // verus!
