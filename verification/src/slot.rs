//! Slot values and the slot map every node reads from and writes to.

use vstd::prelude::*;
use vstd::string::*;

use crate::json::JsonValue;
use crate::text::{
    compare_text, lemma_lex_irreflexive, lemma_lex_total, lemma_lex_transitive, lex_lt, text_eq,
    TextOrder,
};

verus! {

/// Typed value carried on a slot.
#[derive(Debug, PartialEq, Eq)]
pub enum SlotValue {
    /// Null / absent.
    Null,
    /// Boolean.
    Bool(bool),
    /// Signed 64-bit integer.
    Int(i64),
    /// 64-bit float, held by its IEEE-754 bit pattern (`f64::to_bits`).
    Float(u64),
    /// UTF-8 string.
    String(String),
    /// Opaque byte buffer.
    Bytes(Vec<u8>),
    /// Free-form JSON.
    Json(JsonValue),
}

/// Mask of an `f64`'s exponent bits.
pub const F64_EXPONENT_MASK: u64 = 0x7ff0_0000_0000_0000u64;

/// Mask of an `f64`'s fraction bits.
pub const F64_FRACTION_MASK: u64 = 0x000f_ffff_ffff_ffffu64;

/// Mask of everything but an `f64`'s sign bit.
pub const F64_MAGNITUDE_MASK: u64 = 0x7fff_ffff_ffff_ffffu64;

/// `+0.0` or `-0.0`.
pub open spec fn f64_is_zero(bits: u64) -> bool {
    bits & F64_MAGNITUDE_MASK == 0
}

/// A NaN: all exponent bits set and a non-zero fraction.
pub open spec fn f64_is_nan(bits: u64) -> bool {
    bits & F64_EXPONENT_MASK == F64_EXPONENT_MASK && bits & F64_FRACTION_MASK != 0
}

/// Neither infinite nor NaN: not all exponent bits set.
pub open spec fn f64_is_finite(bits: u64) -> bool {
    bits & F64_EXPONENT_MASK != F64_EXPONENT_MASK
}

/// `f64::from_bits(bits) == 0.0`.
pub fn float_is_zero(bits: u64) -> (b: bool)
    ensures
        b == f64_is_zero(bits),
{
    bits & F64_MAGNITUDE_MASK == 0
}

/// `f64::from_bits(bits).is_nan()`.
pub fn float_is_nan(bits: u64) -> (b: bool)
    ensures
        b == f64_is_nan(bits),
{
    bits & F64_EXPONENT_MASK == F64_EXPONENT_MASK && bits & F64_FRACTION_MASK != 0
}

/// `f64::from_bits(bits).is_finite()`.
pub fn float_is_finite(bits: u64) -> (b: bool)
    ensures
        b == f64_is_finite(bits),
{
    bits & F64_EXPONENT_MASK != F64_EXPONENT_MASK
}

/// One slot-map entry: slot name and value.
pub type SlotEntry = (String, SlotValue);

/// Entries whose names strictly ascend.
pub open spec fn names_ascend(s: Seq<(Seq<char>, SlotValue)>) -> bool {
    forall|i: int, j: int| 0 <= i < j < s.len() ==> lex_lt(#[trigger] s[i].0, #[trigger] s[j].0)
}

/// Position of the entry named `k`, or `-1`.
pub open spec fn name_pos(s: Seq<(Seq<char>, SlotValue)>, k: Seq<char>) -> int
    decreases s.len(),
{
    if s.len() == 0 {
        -1
    } else if s[s.len() - 1].0 == k {
        s.len() - 1
    } else {
        name_pos(s.drop_last(), k)
    }
}

/// The value stored under `k`, if any.
pub open spec fn lookup(s: Seq<(Seq<char>, SlotValue)>, k: Seq<char>) -> Option<SlotValue> {
    let p = name_pos(s, k);
    if p >= 0 {
        Some(s[p].1)
    } else {
        None
    }
}

/// `name_pos` finds exactly the entry named `k`.
pub proof fn lemma_name_pos(s: Seq<(Seq<char>, SlotValue)>, k: Seq<char>)
    requires
        names_ascend(s),
    ensures
        -1 <= name_pos(s, k) < s.len(),
        name_pos(s, k) >= 0 ==> s[name_pos(s, k)].0 == k,
        name_pos(s, k) == -1 <==> (forall|i: int| 0 <= i < s.len() ==> s[i].0 != k),
        forall|i: int| 0 <= i < s.len() && s[i].0 == k ==> i == name_pos(s, k),
    decreases s.len(),
{
    if s.len() > 0 {
        let t = s.drop_last();
        assert(names_ascend(t));
        lemma_name_pos(t, k);
        if s[s.len() - 1].0 == k {
            assert forall|i: int| 0 <= i < s.len() && s[i].0 == k implies i == s.len() - 1 by {
                if i < s.len() - 1 {
                    assert(lex_lt(s[i].0, s[s.len() - 1].0));
                    lemma_lex_irreflexive(k);
                }
            }
        } else {
            assert forall|i: int| 0 <= i < s.len() && s[i].0 == k implies i == name_pos(s, k) by {
                assert(t[i] == s[i]);
            }
            if name_pos(t, k) == -1 {
                assert forall|i: int| 0 <= i < s.len() implies s[i].0 != k by {
                    if i < s.len() - 1 {
                        assert(t[i] == s[i]);
                    }
                }
            }
        }
    }
}

/// The entries with the one named `k` (if any) taken out.
pub open spec fn without(s: Seq<(Seq<char>, SlotValue)>, k: Seq<char>) -> Seq<(Seq<char>, SlotValue)> {
    if name_pos(s, k) >= 0 {
        s.remove(name_pos(s, k))
    } else {
        s
    }
}

/// In ascending entries, the entry named `k` at `i` is what `lookup` finds.
pub proof fn lemma_lookup_at(s: Seq<(Seq<char>, SlotValue)>, k: Seq<char>, i: int)
    requires
        names_ascend(s),
        0 <= i < s.len(),
        s[i].0 == k,
    ensures
        lookup(s, k) == Some(s[i].1),
{
    lemma_name_pos(s, k);
}

/// In ascending entries with no entry named `k`, `lookup` finds nothing.
pub proof fn lemma_lookup_absent(s: Seq<(Seq<char>, SlotValue)>, k: Seq<char>)
    requires
        names_ascend(s),
        forall|i: int| 0 <= i < s.len() ==> s[i].0 != k,
    ensures
        lookup(s, k) is None,
{
    lemma_name_pos(s, k);
}

/// Map of slot name to value, entries in ascending name order (the order a
/// `BTreeMap<String, SlotValue>` iterates in). No name occurs twice.
#[derive(Debug, PartialEq, Eq)]
pub struct SlotMap {
    entries: Vec<SlotEntry>,
}

impl View for SlotMap {
    type V = Seq<(Seq<char>, SlotValue)>;

    closed spec fn view(&self) -> Seq<(Seq<char>, SlotValue)> {
        self.entries@.map_values(|e: SlotEntry| (e.0@, e.1))
    }
}

impl SlotMap {
    #[verifier::type_invariant]
    closed spec fn well_formed(self) -> bool {
        names_ascend(self.entries@.map_values(|e: SlotEntry| (e.0@, e.1)))
    }

    /// An empty map.
    pub fn new() -> (m: SlotMap)
        ensures
            m@ == Seq::<(Seq<char>, SlotValue)>::empty(),
    {
        let m = SlotMap { entries: Vec::new() };
        assert(m@ =~= Seq::<(Seq<char>, SlotValue)>::empty());
        m
    }

    /// A map holding exactly one entry.
    pub fn singleton(key: String, value: SlotValue) -> (m: SlotMap)
        ensures
            m@ == seq![(key@, value)],
    {
        let mut entries: Vec<SlotEntry> = Vec::new();
        entries.push((key, value));
        let m = SlotMap { entries };
        assert(m@ =~= seq![(key@, value)]);
        m
    }

    /// Number of entries.
    pub fn len(&self) -> (n: usize)
        ensures
            n == self@.len(),
    {
        self.entries.len()
    }

    /// `true` when the map holds no entry.
    pub fn is_empty(&self) -> (b: bool)
        ensures
            b == (self@.len() == 0),
    {
        self.entries.len() == 0
    }

    /// Position of the entry named `key`.
    fn position(&self, key: &str) -> (r: Option<usize>)
        ensures
            r matches Some(i) ==> i == name_pos(self@, key@) && i < self@.len(),
            r is None ==> name_pos(self@, key@) == -1,
    {
        proof {
            use_type_invariant(self);
            lemma_name_pos(self@, key@);
        }
        let mut i: usize = 0;
        while i < self.entries.len()
            invariant
                0 <= i <= self.entries@.len(),
                self@.len() == self.entries@.len(),
                names_ascend(self@),
                forall|j: int| 0 <= j < i ==> self@[j].0 != key@,
                -1 <= name_pos(self@, key@) < self@.len(),
                name_pos(self@, key@) >= 0 ==> self@[name_pos(self@, key@)].0 == key@,
                name_pos(self@, key@) == -1 <==> (forall|j: int| 0 <= j < self@.len() ==> self@[j].0 != key@),
                forall|j: int| 0 <= j < self@.len() && self@[j].0 == key@ ==> j == name_pos(self@, key@),
            decreases self.entries@.len() - i,
        {
            if text_eq(self.entries[i].0.as_str(), key) {
                assert(self@[i as int].0 == key@);
                return Some(i);
            }
            i = i + 1;
        }
        None
    }

    /// The value stored under `key`.
    pub fn get(&self, key: &str) -> (r: Option<&SlotValue>)
        ensures
            r matches Some(v) ==> lookup(self@, key@) == Some(*v),
            r is None ==> lookup(self@, key@) is None,
    {
        match self.position(key) {
            Some(i) => Some(&self.entries[i].1),
            None => None,
        }
    }

    /// `true` when an entry is named `key`.
    pub fn contains_key(&self, key: &str) -> (b: bool)
        ensures
            b == (lookup(self@, key@) is Some),
    {
        self.position(key).is_some()
    }
    /// Remove the entry named `key`, returning its value.
    pub fn remove(&mut self, key: &str) -> (r: Option<SlotValue>)
        ensures
            r == lookup(old(self)@, key@),
            final(self)@ == without(old(self)@, key@),
            lookup(final(self)@, key@) is None,
            forall|k: Seq<char>| k != key@ ==> lookup(final(self)@, k) == lookup(old(self)@, k),
            names_ascend(final(self)@),
    {
        proof {
            use_type_invariant(&*self);
            lemma_name_pos(self@, key@);
        }
        let ghost before = self@;
        match self.position(key) {
            Some(i) => {
                let mut entries: Vec<SlotEntry> = Vec::new();
                std::mem::swap(&mut entries, &mut self.entries);
                let e = entries.remove(i);
                let ghost after = entries@.map_values(|e: SlotEntry| (e.0@, e.1));
                assert(after =~= before.remove(i as int));
                proof {
                    assert forall|a: int, b: int| 0 <= a < b < after.len() implies lex_lt(
                        #[trigger] after[a].0,
                        #[trigger] after[b].0,
                    ) by {
                        let a0 = if a < i { a } else { a + 1 };
                        let b0 = if b < i { b } else { b + 1 };
                        assert(after[a] == before[a0]);
                        assert(after[b] == before[b0]);
                    }
                    assert forall|j: int| 0 <= j < after.len() implies after[j].0 != key@ by {
                        let j0 = if j < i { j } else { j + 1 };
                        assert(after[j] == before[j0]);
                    }
                    lemma_lookup_absent(after, key@);
                    assert forall|k: Seq<char>| k != key@ implies lookup(after, k) == lookup(before, k) by {
                        lemma_name_pos(before, k);
                        lemma_name_pos(after, k);
                        let p = name_pos(before, k);
                        if p >= 0 {
                            let q = if p < i { p } else { p - 1 };
                            assert(after[q] == before[p]);
                            lemma_lookup_at(after, k, q);
                        } else {
                            assert forall|j: int| 0 <= j < after.len() implies after[j].0 != k by {
                                let j0 = if j < i { j } else { j + 1 };
                                assert(after[j] == before[j0]);
                            }
                            lemma_lookup_absent(after, k);
                        }
                    }
                }
                self.entries = entries;
                Some(e.1)
            },
            None => None,
        }
    }

    /// Insert `value` under `key`, returning the value it replaced.
    pub fn insert(&mut self, key: String, value: SlotValue) -> (r: Option<SlotValue>)
        ensures
            r == lookup(old(self)@, key@),
            lookup(final(self)@, key@) == Some(value),
            forall|k: Seq<char>| k != key@ ==> lookup(final(self)@, k) == lookup(old(self)@, k),
            final(self)@.len() == old(self)@.len() + (if r is Some { 0int } else { 1int }),
            names_ascend(final(self)@),
    {
        proof {
            use_type_invariant(&*self);
            lemma_name_pos(self@, key@);
        }
        let ghost before = self@;
        let ghost kv = key@;
        let n = self.entries.len();
        let mut i: usize = 0;
        while i < n
            invariant
                n == self.entries@.len(),
                before == self.entries@.map_values(|e: SlotEntry| (e.0@, e.1)),
                names_ascend(before),
                key@ == kv,
                0 <= i <= n,
                forall|j: int| 0 <= j < i ==> lex_lt(#[trigger] before[j].0, kv),
            ensures
                i < n ==> !lex_lt(before[i as int].0, kv),
            decreases n - i,
        {
            assert(before[i as int].0 == self.entries@[i as int].0@);
            let name: &str = self.entries[i].0.as_str();
            assert(name@ == before[i as int].0);
            let ord = compare_text(name, key.as_str());
            match ord {
                TextOrder::Less => {
                    assert(lex_lt(before[i as int].0, kv));
                },
                _ => {
                    assert(!lex_lt(before[i as int].0, kv));
                    break;
                },
            }
            i = i + 1;
        }
        proof {
            if i < n {
                assert(before[i as int].0 == self.entries@[i as int].0@);
            }
        }
        if i < n && text_eq(self.entries[i].0.as_str(), key.as_str()) {
            let mut entries: Vec<SlotEntry> = Vec::new();
            std::mem::swap(&mut entries, &mut self.entries);
            let old_entry = entries.remove(i);
            entries.insert(i, (key, value));
            let ghost after = entries@.map_values(|e: SlotEntry| (e.0@, e.1));
            assert(after =~= before.update(i as int, (kv, value)));
            proof {
                lemma_lookup_at(before, kv, i as int);
                assert forall|a: int, b: int| 0 <= a < b < after.len() implies lex_lt(
                    #[trigger] after[a].0,
                    #[trigger] after[b].0,
                ) by {
                    assert(after[a].0 == before[a].0);
                    assert(after[b].0 == before[b].0);
                }
                lemma_lookup_at(after, kv, i as int);
                assert forall|k: Seq<char>| k != kv implies lookup(after, k) == lookup(before, k) by {
                    lemma_name_pos(before, k);
                    let p = name_pos(before, k);
                    if p >= 0 {
                        assert(after[p] == before[p]);
                        lemma_lookup_at(after, k, p);
                    } else {
                        assert forall|j: int| 0 <= j < after.len() implies after[j].0 != k by {
                            if j != i {
                                assert(after[j] == before[j]);
                            }
                        }
                        lemma_lookup_absent(after, k);
                    }
                }
            }
            self.entries = entries;
            Some(old_entry.1)
        } else {
            let mut entries: Vec<SlotEntry> = Vec::new();
            std::mem::swap(&mut entries, &mut self.entries);
            entries.insert(i, (key, value));
            let ghost after = entries@.map_values(|e: SlotEntry| (e.0@, e.1));
            assert(after =~= before.insert(i as int, (kv, value)));
            proof {
                if i < n {
                    lemma_lex_total(before[i as int].0, kv);
                }
                assert forall|j: int| 0 <= j < before.len() implies before[j].0 != kv by {
                    if j < i {
                        lemma_lex_irreflexive(kv);
                    } else {
                        if j > i {
                            assert(lex_lt(before[i as int].0, before[j].0));
                            lemma_lex_transitive(kv, before[i as int].0, before[j].0);
                        }
                        lemma_lex_irreflexive(kv);
                    }
                }
                lemma_lookup_absent(before, kv);
                assert forall|a: int, b: int| 0 <= a < b < after.len() implies lex_lt(
                    #[trigger] after[a].0,
                    #[trigger] after[b].0,
                ) by {
                    if a < i && b < i {
                        assert(after[a] == before[a] && after[b] == before[b]);
                    } else if a < i && b == i {
                        assert(after[a] == before[a]);
                    } else if a < i {
                        assert(after[a] == before[a] && after[b] == before[b - 1]);
                    } else if a == i {
                        assert(after[b] == before[b - 1]);
                        if b - 1 > i {
                            assert(lex_lt(before[i as int].0, before[b - 1].0));
                            lemma_lex_transitive(kv, before[i as int].0, before[b - 1].0);
                        }
                    } else {
                        assert(after[a] == before[a - 1] && after[b] == before[b - 1]);
                    }
                }
                lemma_lookup_at(after, kv, i as int);
                assert forall|k: Seq<char>| k != kv implies lookup(after, k) == lookup(before, k) by {
                    lemma_name_pos(before, k);
                    let p = name_pos(before, k);
                    if p >= 0 {
                        let q = if p < i { p } else { p + 1 };
                        assert(after[q] == before[p]);
                        lemma_lookup_at(after, k, q);
                    } else {
                        assert forall|j: int| 0 <= j < after.len() implies after[j].0 != k by {
                            if j < i {
                                assert(after[j] == before[j]);
                            } else if j > i {
                                assert(after[j] == before[j - 1]);
                            }
                        }
                        lemma_lookup_absent(after, k);
                    }
                }
            }
            self.entries = entries;
            None
        }
    }
    /// The `i`-th entry, in ascending name order.
    pub fn entry_at(&self, i: usize) -> (r: (&String, &SlotValue))
        requires
            i < self@.len(),
        ensures
            r.0@ == self@[i as int].0,
            *r.1 == self@[i as int].1,
    {
        let e = &self.entries[i];
        (&e.0, &e.1)
    }

    /// The entries, in ascending name order.
    pub fn into_entries(self) -> (v: Vec<SlotEntry>)
        ensures
            v@.map_values(|e: SlotEntry| (e.0@, e.1)) == self@,
            v@.len() == self@.len(),
    {
        self.entries
    }

    /// Take out the first entry (smallest name).
    pub fn pop_first(&mut self) -> (r: Option<SlotEntry>)
        ensures
            old(self)@.len() == 0 ==> r is None && final(self)@ == old(self)@,
            old(self)@.len() > 0 ==> (r matches Some(e) && (e.0@, e.1) == old(self)@[0]
                && final(self)@ == old(self)@.drop_first()),
    {
        proof {
            use_type_invariant(&*self);
        }
        if self.entries.len() == 0 {
            return None;
        }
        let ghost before = self@;
        let mut entries: Vec<SlotEntry> = Vec::new();
        std::mem::swap(&mut entries, &mut self.entries);
        let e = entries.remove(0);
        let ghost after = entries@.map_values(|e: SlotEntry| (e.0@, e.1));
        assert(after =~= before.drop_first());
        assert forall|a: int, b: int| 0 <= a < b < after.len() implies lex_lt(
            #[trigger] after[a].0,
            #[trigger] after[b].0,
        ) by {
            assert(after[a] == before[a + 1] && after[b] == before[b + 1]);
        }
        self.entries = entries;
        Some(e)
    }
}

} // verus!
