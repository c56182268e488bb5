use vstd::prelude::*;

verus! {

/// A 32-byte account address.
#[derive(Clone, Copy, Debug)]
pub struct Pubkey {
    pub bytes: [u8; 32],
}

impl Pubkey {
    /// Whether this is the all-zero address, which marks a field not yet set.
    pub open spec fn is_zeroed(&self) -> bool {
        forall|i: int| 0 <= i < 32 ==> self.bytes[i] == 0u8
    }

    /// Whether every byte is zero.
    pub fn is_zero(&self) -> (r: bool)
        ensures
            r == self.is_zeroed(),
    {
        let mut i: usize = 0;
        while i < 32
            invariant
                0 <= i <= 32,
                forall|j: int| 0 <= j < i ==> self.bytes[j] == 0u8,
            decreases 32 - i,
        {
            if self.bytes[i] != 0 {
                return false;
            }
            i = i + 1;
        }
        true
    }

    /// The all-zero address.
    pub fn zeroed() -> (r: Pubkey)
        ensures
            r.is_zeroed(),
    {
        Pubkey { bytes: [0u8; 32] }
    }

    pub fn new_from_array(bytes: [u8; 32]) -> (r: Pubkey)
        ensures
            r.bytes == bytes,
    {
        Pubkey { bytes }
    }

    pub fn to_bytes(&self) -> (r: [u8; 32])
        ensures
            r == self.bytes,
    {
        self.bytes
    }
}

impl View for Pubkey {
    type V = Seq<u8>;

    open spec fn view(&self) -> Seq<u8> {
        self.bytes@
    }
}

/// Two addresses with the same bytes are the same address.
pub proof fn lemma_view_injective(a: Pubkey, b: Pubkey)
    ensures
        a@ == b@ ==> a == b,
{
    if a@ == b@ {
        assert forall|i: int| 0 <= i < 32 implies a.bytes[i] == b.bytes[i] by {
            assert(a@[i] == b@[i]);
        }
        assert(a.bytes =~= b.bytes);
    }
}

/// Whether `k` occurs in `keys`, computed by a scan.
pub fn contains_key(keys: &Vec<Pubkey>, k: &Pubkey) -> (r: bool)
    ensures
        r == keys@.contains(*k),
{
    let mut i: usize = 0;
    while i < keys.len()
        invariant
            0 <= i <= keys.len(),
            forall|j: int| 0 <= j < i ==> keys@[j] != *k,
        decreases keys.len() - i,
    {
        if keys[i] == *k {
            assert(keys@[i as int] == *k);
            return true;
        }
        i = i + 1;
    }
    false
}

/// The position of the first occurrence of `k` in `keys`, if any.
pub fn position_of(keys: &Vec<Pubkey>, k: &Pubkey) -> (r: Option<usize>)
    ensures
        r is None <==> !keys@.contains(*k),
        r matches Some(i) ==> i < keys@.len() && keys@[i as int] == *k
            && forall|j: int| 0 <= j < i ==> keys@[j] != *k,
{
    let mut i: usize = 0;
    while i < keys.len()
        invariant
            0 <= i <= keys.len(),
            forall|j: int| 0 <= j < i ==> keys@[j] != *k,
        decreases keys.len() - i,
    {
        if keys[i] == *k {
            return Some(i);
        }
        i = i + 1;
    }
    None
}

/// Whether `i` is the first position at which `k` occurs in `s`.
pub open spec fn is_first_index(s: Seq<Pubkey>, k: Pubkey, i: int) -> bool {
    &&& 0 <= i < s.len()
    &&& s[i] == k
    &&& forall|j: int| 0 <= j < i ==> s[j] != k
}

/// `s` without the first occurrence of `k`, if there is one.
pub open spec fn without_first(s: Seq<Pubkey>, k: Pubkey) -> Seq<Pubkey> {
    if s.contains(k) {
        s.remove(choose|i: int| is_first_index(s, k, i))
    } else {
        s
    }
}

/// Appending a key that is absent keeps a list free of duplicates.
pub proof fn lemma_push_keeps_distinct(s: Seq<Pubkey>, k: Pubkey)
    requires
        !s.contains(k),
    ensures
        s.no_duplicates() ==> s.push(k).no_duplicates(),
{
    let t = s.push(k);
    if s.no_duplicates() {
        assert forall|i: int, j: int| 0 <= i < t.len() && 0 <= j < t.len() && i != j implies t[i] != t[j] by {
            if i < s.len() && j < s.len() {
                assert(t[i] == s[i] && t[j] == s[j]);
            } else if i < s.len() {
                assert(t[i] == s[i]);
                assert(s.contains(s[i]));
            } else {
                assert(t[j] == s[j]);
                assert(s.contains(s[j]));
            }
        }
    }
}

/// The first position of `k` is the one `without_first` removes.
pub proof fn lemma_first_index_chosen(s: Seq<Pubkey>, k: Pubkey, pos: int)
    requires
        is_first_index(s, k, pos),
    ensures
        (choose|i: int| is_first_index(s, k, i)) == pos,
{
    let c = choose|i: int| is_first_index(s, k, i);
    if c < pos {
        assert(s[c] != k);
    } else if c > pos {
        assert(s[pos] != k);
    }
}

/// Removing one entry from a list without duplicates leaves a list without
/// duplicates that no longer holds that entry.
pub proof fn lemma_remove_keeps_distinct(s: Seq<Pubkey>, i: int)
    requires
        0 <= i < s.len(),
    ensures
        s.no_duplicates() ==> s.remove(i).no_duplicates() && !s.remove(i).contains(s[i]),
        s.remove(i).len() == s.len() - 1,
{
    let t = s.remove(i);
    if s.no_duplicates() {
        assert forall|a: int, b: int| 0 <= a < t.len() && 0 <= b < t.len() && a != b implies t[a]
            != t[b] by {
            let sa = if a < i { a } else { a + 1 };
            let sb = if b < i { b } else { b + 1 };
            assert(t[a] == s[sa] && t[b] == s[sb]);
        }
        if t.contains(s[i]) {
            let a = choose|a: int| 0 <= a < t.len() && t[a] == s[i];
            let sa = if a < i { a } else { a + 1 };
            assert(t[a] == s[sa]);
        }
    }
}

/// Filtering keeps a list whose every entry passes.
proof fn lemma_filter_keeps_all(s: Seq<Pubkey>, k: Pubkey)
    requires
        forall|j: int| 0 <= j < s.len() ==> s[j] != k,
    ensures
        s.filter(|x: Pubkey| x != k) == s,
    decreases s.len(),
{
    reveal(Seq::filter);
    if s.len() > 0 {
        lemma_filter_keeps_all(s.drop_last(), k);
        assert(s.drop_last().push(s.last()) =~= s);
    }
}

/// In a list without duplicates, removing the first occurrence of `k` is
/// dropping every entry equal to `k`; the others keep their order.
pub proof fn lemma_without_first_is_filter(s: Seq<Pubkey>, k: Pubkey)
    requires
        s.no_duplicates(),
    ensures
        without_first(s, k) == s.filter(|x: Pubkey| x != k),
{
    if s.contains(k) {
        let i = choose|i: int| 0 <= i < s.len() && s[i] == k;
        if !is_first_index(s, k, i) {
            let j = choose|j: int| 0 <= j < i && s[j] == k;
            assert(s[j] == s[i]);
        }
        lemma_first_index_chosen(s, k, i);
        let a = s.subrange(0, i);
        let b = s.subrange(i + 1, s.len() as int);
        assert(s =~= a + seq![k] + b);
        assert(s.remove(i) =~= a + b);
        assert forall|j: int| 0 <= j < b.len() implies b[j] != k by {
            assert(b[j] == s[i + 1 + j]);
        }
        lemma_filter_keeps_all(a, k);
        lemma_filter_keeps_all(b, k);
        Seq::filter_distributes_over_add(a + seq![k], b, |x: Pubkey| x != k);
        Seq::filter_distributes_over_add(a, seq![k], |x: Pubkey| x != k);
        reveal_with_fuel(Seq::filter, 2);
        assert(seq![k].drop_last() =~= Seq::<Pubkey>::empty());
        assert(seq![k].filter(|x: Pubkey| x != k) =~= Seq::<Pubkey>::empty());
        assert(a + Seq::<Pubkey>::empty() =~= a);
    } else {
        lemma_filter_keeps_all(s, k);
    }
}

impl PartialEq for Pubkey {
    fn eq(&self, other: &Pubkey) -> (r: bool) {
        let mut i: usize = 0;
        while i < 32
            invariant
                0 <= i <= 32,
                forall|j: int| 0 <= j < i ==> self.bytes[j] == other.bytes[j],
            decreases 32 - i,
        {
            if self.bytes[i] != other.bytes[i] {
                return false;
            }
            i = i + 1;
        }
        proof {
            assert(self.bytes =~= other.bytes);
        }
        true
    }
}

impl vstd::std_specs::cmp::PartialEqSpecImpl for Pubkey {
    open spec fn obeys_eq_spec() -> bool {
        true
    }

    open spec fn eq_spec(&self, other: &Pubkey) -> bool {
        *self == *other
    }
}

impl Eq for Pubkey {}

} // verus!
