//! Small verified string utilities: equality, prefix tests, and the
//! normalization of inbound client ids.

use vstd::prelude::*;

verus! {

/// Optional prefix on inbound client ids; every leading copy of it is
/// stripped before any store lookup.
pub const DECENTRALIZED_IDENTIFIER_PREFIX: &'static str = "did:key:";

/// Character-wise string equality.
pub fn str_eq(a: &str, b: &str) -> (r: bool)
    ensures
        r <==> a@ == b@,
{
    let n = a.unicode_len();
    if n != b.unicode_len() {
        return false;
    }
    let mut i: usize = 0;
    while i < n
        invariant
            n == a@.len(),
            n == b@.len(),
            i <= n,
            forall|j: int| 0 <= j < i ==> a@[j] == b@[j],
        decreases n - i,
    {
        if a.get_char(i) != b.get_char(i) {
            return false;
        }
        i = i + 1;
    }
    proof {
        assert(a@ =~= b@);
    }
    true
}

/// True when `s` begins with `pre`.
pub fn str_has_prefix(s: &str, pre: &str) -> (r: bool)
    ensures
        r <==> (s@.len() >= pre@.len() && s@.subrange(0, pre@.len() as int) == pre@),
{
    let n = pre.unicode_len();
    if s.unicode_len() < n {
        return false;
    }
    let mut i: usize = 0;
    while i < n
        invariant
            n == pre@.len(),
            n <= s@.len(),
            i <= n,
            forall|j: int| 0 <= j < i ==> s@[j] == pre@[j],
        decreases n - i,
    {
        if s.get_char(i) != pre.get_char(i) {
            return false;
        }
        i = i + 1;
    }
    proof {
        assert(s@.subrange(0, pre@.len() as int) =~= pre@);
    }
    true
}

/// What remains of `s` after every leading copy of `pre` is removed.
pub open spec fn strip_prefix_copies(s: Seq<char>, pre: Seq<char>) -> Seq<char>
    decreases s.len(),
{
    if pre.len() > 0 && s.len() >= pre.len() && s.subrange(0, pre.len() as int) == pre {
        strip_prefix_copies(s.subrange(pre.len() as int, s.len() as int), pre)
    } else {
        s
    }
}

/// An inbound client id with every leading copy of the decentralized
/// identifier prefix removed.
pub open spec fn normalized_id(s: Seq<char>) -> Seq<char> {
    strip_prefix_copies(s, DECENTRALIZED_IDENTIFIER_PREFIX@)
}

/// Strips every leading copy of the decentralized identifier prefix from an
/// inbound client id, yielding the id used for store lookups.
pub fn normalize_client_id(id: &str) -> (r: String)
    ensures
        r@ == normalized_id(id@),
{
    proof {
        reveal_strlit("did:key:");
    }
    let pre = DECENTRALIZED_IDENTIFIER_PREFIX;
    let mut cur: &str = id;
    let mut starts = str_has_prefix(cur, pre);
    while starts
        invariant
            strip_prefix_copies(cur@, pre@) == normalized_id(id@),
            pre@ == DECENTRALIZED_IDENTIFIER_PREFIX@,
            pre@.len() > 0,
            starts <==> (cur@.len() >= pre@.len() && cur@.subrange(0, pre@.len() as int)
                == pre@),
        decreases cur@.len(),
    {
        let n = cur.unicode_len();
        cur = cur.substring_char(pre.unicode_len(), n);
        starts = str_has_prefix(cur, pre);
    }
    cur.to_owned()
}

} // verus!
