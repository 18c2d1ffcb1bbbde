//! Sets of kind ids kept as vectors in strictly ascending order, the order a
//! `BTreeSet<KindId>` iterates in.

use vstd::prelude::*;

use crate::ids::KindId;
use crate::text::{compare_text, lemma_lex_irreflexive, lemma_lex_total, lemma_lex_transitive, lex_lt, text_eq, TextOrder};

verus! {

/// The ids strictly ascend.
pub open spec fn ids_ascend(s: Seq<KindId>) -> bool {
    forall|i: int, j: int| 0 <= i < j < s.len() ==> lex_lt(#[trigger] s[i]@, #[trigger] s[j]@)
}

/// Some entry spells `k`.
pub open spec fn holds_id(s: Seq<KindId>, k: Seq<char>) -> bool {
    exists|i: int| 0 <= i < s.len() && (#[trigger] s[i])@ == k
}

/// Whether an entry spells `k`.
pub fn contains_id(v: &Vec<KindId>, k: &str) -> (b: bool)
    ensures
        b == holds_id(v@, k@),
{
    let mut i: usize = 0;
    while i < v.len()
        invariant
            0 <= i <= v@.len(),
            forall|j: int| 0 <= j < i ==> (#[trigger] v@[j])@ != k@,
        decreases v@.len() - i,
    {
        if text_eq(v[i].as_str(), k) {
            assert(v@[i as int]@ == k@);
            return true;
        }
        i = i + 1;
    }
    false
}

/// Add `k` to an ascending set, keeping it ascending.
pub fn insert_id(v: &mut Vec<KindId>, k: KindId)
    requires
        ids_ascend(old(v)@),
    ensures
        ids_ascend(final(v)@),
        forall|x: Seq<char>|
            #![trigger holds_id(final(v)@, x)]
            #![trigger holds_id(old(v)@, x)]
            holds_id(final(v)@, x) <==> (holds_id(old(v)@, x) || x == k@),
{
    let ghost before = v@;
    let n = v.len();
    let mut i: usize = 0;
    while i < n
        invariant
            n == v@.len(),
            v@ == before,
            ids_ascend(before),
            0 <= i <= n,
            forall|j: int| 0 <= j < i ==> lex_lt(#[trigger] before[j]@, k@),
        ensures
            i < n ==> !lex_lt(before[i as int]@, k@),
        decreases n - i,
    {
        match compare_text(v[i].as_str(), k.as_str()) {
            TextOrder::Less => {},
            _ => {
                break;
            },
        }
        i = i + 1;
    }
    if i < n && text_eq(v[i].as_str(), k.as_str()) {
        proof {
            lemma_holds_present(before, i as int, k@);
        }
        return;
    }
    let ghost kv = k@;
    v.insert(i, k);
    proof {
        if i < n {
            lemma_lex_total(before[i as int]@, kv);
        }
        lemma_insert_ascends(before, v@, i as int, kv);
        lemma_holds_insert(before, v@, i as int, kv);
    }
}

/// Inserting an id already held at `i` keeps what the set holds.
proof fn lemma_holds_present(s: Seq<KindId>, i: int, k: Seq<char>)
    requires
        0 <= i < s.len(),
        s[i]@ == k,
    ensures
        forall|x: Seq<char>| holds_id(s, x) <==> (holds_id(s, x) || x == k),
{
}

/// Inserting `k` at its place keeps the ids ascending.
proof fn lemma_insert_ascends(before: Seq<KindId>, after: Seq<KindId>, i: int, kv: Seq<char>)
    requires
        ids_ascend(before),
        0 <= i <= before.len(),
        after.len() == before.len() + 1,
        after[i]@ == kv,
        forall|j: int| 0 <= j < i ==> after[j] == before[j],
        forall|j: int| i < j < after.len() ==> after[j] == before[j - 1],
        forall|j: int| 0 <= j < i ==> lex_lt(#[trigger] before[j]@, kv),
        i < before.len() ==> lex_lt(kv, before[i]@),
    ensures
        ids_ascend(after),
{
    assert forall|a: int, b: int| 0 <= a < b < after.len() implies lex_lt(
        #[trigger] after[a]@,
        #[trigger] after[b]@,
    ) by {
        if a < i && b < i {
            assert(after[a] == before[a] && after[b] == before[b]);
        } else if a < i && b == i {
            assert(after[a] == before[a]);
        } else if a < i {
            assert(after[a] == before[a] && after[b] == before[b - 1]);
            assert(lex_lt(before[a]@, before[b - 1]@));
        } else if a == i {
            assert(after[b] == before[b - 1]);
            if b - 1 > i {
                assert(lex_lt(before[i]@, before[b - 1]@));
                lemma_lex_transitive(kv, before[i]@, before[b - 1]@);
            }
        } else {
            assert(after[a] == before[a - 1] && after[b] == before[b - 1]);
        }
    }
}

/// Inserting `k` adds exactly `k` to what the set holds.
proof fn lemma_holds_insert(before: Seq<KindId>, after: Seq<KindId>, i: int, kv: Seq<char>)
    requires
        0 <= i <= before.len(),
        after.len() == before.len() + 1,
        after[i]@ == kv,
        forall|j: int| 0 <= j < i ==> after[j] == before[j],
        forall|j: int| i < j < after.len() ==> after[j] == before[j - 1],
    ensures
        forall|x: Seq<char>| holds_id(after, x) <==> (holds_id(before, x) || x == kv),
{
    assert forall|x: Seq<char>| holds_id(after, x) <==> (holds_id(before, x) || x == kv) by {
        if holds_id(before, x) {
            let j = choose|j: int| 0 <= j < before.len() && (#[trigger] before[j])@ == x;
            if j < i {
                assert(after[j] == before[j]);
            } else {
                assert(after[j + 1] == before[j]);
            }
        }
        if x == kv {
            assert(after[i]@ == x);
        }
        if holds_id(after, x) {
            let j = choose|j: int| 0 <= j < after.len() && (#[trigger] after[j])@ == x;
            if j < i {
                assert(after[j] == before[j]);
            } else if j > i {
                assert(after[j] == before[j - 1]);
            }
        }
    }
}

/// The distinct ids of `v`, ascending (what collecting into a
/// `BTreeSet<KindId>` keeps).
pub fn sorted_ids(v: &Vec<KindId>) -> (r: Vec<KindId>)
    ensures
        ids_ascend(r@),
        forall|x: Seq<char>| holds_id(r@, x) <==> holds_id(v@, x),
{
    let mut r: Vec<KindId> = Vec::new();
    let mut i: usize = 0;
    while i < v.len()
        invariant
            0 <= i <= v@.len(),
            ids_ascend(r@),
            forall|x: Seq<char>| holds_id(r@, x) <==> holds_id(v@.take(i as int), x),
        decreases v@.len() - i,
    {
        let ghost before = r@;
        insert_id(&mut r, v[i].clone());
        proof {
            assert forall|x: Seq<char>| holds_id(r@, x) <==> holds_id(v@.take(i + 1), x) by {
                if holds_id(v@.take(i as int), x) {
                    let j = choose|j: int| 0 <= j < i && (#[trigger] v@.take(i as int)[j])@ == x;
                    assert(v@.take(i + 1)[j] == v@.take(i as int)[j]);
                }
                if x == v@[i as int]@ {
                    assert(v@.take(i + 1)[i as int] == v@[i as int]);
                }
                if holds_id(v@.take(i + 1), x) {
                    let j = choose|j: int| 0 <= j < i + 1 && (#[trigger] v@.take(i + 1)[j])@ == x;
                    if j < i {
                        assert(v@.take(i + 1)[j] == v@.take(i as int)[j]);
                    }
                }
            }
        }
        i = i + 1;
    }
    assert(v@.take(v@.len() as int) =~= v@);
    r
}

/// The ids of ascending `a` that `b` also holds, ascending.
pub fn intersect_ids(a: &Vec<KindId>, b: &Vec<KindId>) -> (r: Vec<KindId>)
    requires
        ids_ascend(a@),
    ensures
        ids_ascend(r@),
        forall|x: Seq<char>| holds_id(r@, x) <==> (holds_id(a@, x) && holds_id(b@, x)),
{
    let mut r: Vec<KindId> = Vec::new();
    let mut i: usize = 0;
    while i < a.len()
        invariant
            0 <= i <= a@.len(),
            ids_ascend(a@),
            ids_ascend(r@),
            forall|j: int| 0 <= j < r@.len() ==> holds_id(a@.take(i as int), (#[trigger] r@[j])@),
            forall|x: Seq<char>| holds_id(r@, x) <==> (holds_id(a@.take(i as int), x) && holds_id(b@, x)),
        decreases a@.len() - i,
    {
        let ghost before = r@;
        if contains_id(b, a[i].as_str()) {
            r.push(a[i].clone());
            proof {
                assert forall|p: int, q: int| 0 <= p < q < r@.len() implies lex_lt(
                    #[trigger] r@[p]@,
                    #[trigger] r@[q]@,
                ) by {
                    if q == r@.len() - 1 {
                        assert(r@[p] == before[p]);
                        let j = choose|j: int| 0 <= j < i && (#[trigger] a@.take(i as int)[j])@ == before[p]@;
                        assert(a@.take(i as int)[j] == a@[j]);
                    } else {
                        assert(r@[p] == before[p] && r@[q] == before[q]);
                    }
                }
            }
        }
        proof {
            assert forall|j: int| 0 <= j < r@.len() implies holds_id(a@.take(i + 1), (#[trigger] r@[j])@) by {
                if j < before.len() {
                    assert(r@[j] == before[j]);
                    let t = choose|t: int| 0 <= t < i && (#[trigger] a@.take(i as int)[t])@ == before[j]@;
                    assert(a@.take(i + 1)[t] == a@.take(i as int)[t]);
                } else {
                    assert(a@.take(i + 1)[i as int] == a@[i as int]);
                }
            }
            assert forall|x: Seq<char>| holds_id(r@, x) <==> (holds_id(a@.take(i + 1), x) && holds_id(b@, x)) by {
                if holds_id(a@.take(i as int), x) {
                    let j = choose|j: int| 0 <= j < i && (#[trigger] a@.take(i as int)[j])@ == x;
                    assert(a@.take(i + 1)[j] == a@.take(i as int)[j]);
                }
                if holds_id(a@.take(i + 1), x) {
                    let j = choose|j: int| 0 <= j < i + 1 && (#[trigger] a@.take(i + 1)[j])@ == x;
                    if j < i {
                        assert(a@.take(i + 1)[j] == a@.take(i as int)[j]);
                    } else {
                        assert(x == a@[i as int]@);
                    }
                }
                if holds_id(r@, x) {
                    let j = choose|j: int| 0 <= j < r@.len() && (#[trigger] r@[j])@ == x;
                    if j < before.len() {
                        assert(r@[j] == before[j]);
                    }
                }
                if holds_id(before, x) {
                    let j = choose|j: int| 0 <= j < before.len() && (#[trigger] before[j])@ == x;
                    assert(r@[j] == before[j]);
                }
                if x == a@[i as int]@ && holds_id(b@, x) {
                    assert(r@[r@.len() - 1]@ == x);
                }
                if holds_id(a@.take(i as int), x) && x == a@[i as int]@ {
                    let j = choose|j: int| 0 <= j < i && (#[trigger] a@.take(i as int)[j])@ == x;
                    assert(a@.take(i as int)[j] == a@[j]);
                    lemma_lex_irreflexive(x);
                }
            }
        }
        i = i + 1;
    }
    assert(a@.take(a@.len() as int) =~= a@);
    r
}

} // verus!
