//! The catalog of built-in node kinds and an in-memory registry of node
//! descriptors.

use vstd::prelude::*;
use vstd::string::*;

use crate::ids::{is_reverse_dns, KindId};
use crate::node::{catalog_key, describes, NodeDescriptor};
use crate::nodes::{
    ai_agent, branch, gate, http_out, log, merge, sleep, subflow, trigger_event, trigger_explicit,
    trigger_schedule,
};
use crate::text::text_eq;

verus! {

/// `starter.flow.node.`: the namespace every catalog key lives under.
pub open spec fn catalog_prefix() -> Seq<char> {
    "starter.flow.node."@
}

/// `s` starts with [`catalog_prefix`].
pub open spec fn in_catalog_namespace(s: Seq<char>) -> bool {
    catalog_prefix().len() <= s.len() && s.subrange(0, catalog_prefix().len() as int) == catalog_prefix()
}

/// The built-in catalog: each kind with the slug its catalog keys use, in
/// declaration order.
pub open spec fn builtin_table() -> Seq<(Seq<char>, Seq<char>)> {
    seq![
        (ai_agent::KIND_ID@, "ai-agent"@),
        (branch::KIND_ID@, "branch"@),
        (merge::KIND_ID@, "merge"@),
        (gate::KIND_ID@, "gate"@),
        (subflow::KIND_ID@, "subflow"@),
        (trigger_explicit::KIND_ID@, "trigger-explicit"@),
        (trigger_event::KIND_ID@, "trigger-event"@),
        (trigger_schedule::KIND_ID@, "trigger-schedule"@),
        (http_out::KIND_ID@, "http-out"@),
        (log::KIND_ID@, "log"@),
        (sleep::KIND_ID@, "sleep"@),
    ]
}

/// `r` is the built-in catalog, entry by entry.
pub open spec fn is_builtin_list(r: Seq<NodeDescriptor>) -> bool {
    &&& r.len() == builtin_table().len()
    &&& forall|i: int| 0 <= i < r.len() ==> describes(#[trigger] r[i], builtin_table()[i].0, builtin_table()[i].1)
}

/// Every built-in node descriptor, in declaration order. Every kind is a
/// valid reverse-DNS id, no kind occurs twice, and every catalog key lives
/// under `starter.flow.node.`.
pub fn builtin_descriptors() -> (r: Vec<NodeDescriptor>)
    ensures
        is_builtin_list(r@),
        forall|i: int| 0 <= i < r@.len() ==> is_reverse_dns((#[trigger] r@[i]).kind@),
        forall|i: int, j: int| 0 <= i < j < r@.len() ==> (#[trigger] r@[i]).kind@ != (#[trigger] r@[j]).kind@,
        forall|i: int|
            0 <= i < r@.len() ==> in_catalog_namespace((#[trigger] r@[i]).label_key@) && in_catalog_namespace(
                r@[i].summary_key@,
            ) && in_catalog_namespace(r@[i].help_key@),
{
    let mut out: Vec<NodeDescriptor> = Vec::new();
    out.push(ai_agent::descriptor());
    out.push(branch::descriptor());
    out.push(merge::descriptor());
    out.push(gate::descriptor());
    out.push(subflow::descriptor());
    out.push(trigger_explicit::descriptor());
    out.push(trigger_event::descriptor());
    out.push(trigger_schedule::descriptor());
    out.push(http_out::descriptor());
    out.push(log::descriptor());
    out.push(sleep::descriptor());
    proof {
        reveal_strlit("starter.flow.ai-agent");
        reveal_strlit("starter.flow.branch");
        reveal_strlit("starter.flow.merge");
        reveal_strlit("starter.flow.gate");
        reveal_strlit("starter.flow.subflow");
        reveal_strlit("starter.flow.trigger.explicit");
        reveal_strlit("starter.flow.trigger.event");
        reveal_strlit("starter.flow.trigger.schedule");
        reveal_strlit("starter.flow.http-out");
        reveal_strlit("starter.flow.log");
        reveal_strlit("starter.flow.sleep");
        reveal_strlit("starter.flow.node.");
        let t = builtin_table();
        assert forall|i: int| 0 <= i < out@.len() implies describes(
            #[trigger] out@[i],
            builtin_table()[i].0,
            builtin_table()[i].1,
        ) by {}
        assert forall|i: int, j: int| 0 <= i < j < out@.len() implies (#[trigger] out@[i]).kind@ != (
        #[trigger] out@[j]).kind@ by {
            let a = out@[i].kind@;
            let b = out@[j].kind@;
            assert(a == t[i].0 && b == t[j].0);
            if a[13] == b[13] {
                if a[14] == b[14] {
                    assert(a[21] != b[21] || a[22] != b[22]);
                }
            }
        }
        assert forall|i: int| 0 <= i < out@.len() implies in_catalog_namespace((#[trigger] out@[i]).label_key@)
            && in_catalog_namespace(out@[i].summary_key@) && in_catalog_namespace(out@[i].help_key@) by {
            let s = t[i].1;
            assert(catalog_key(s, "label"@).subrange(0, 18) =~= catalog_prefix());
            assert(catalog_key(s, "summary"@).subrange(0, 18) =~= catalog_prefix());
            assert(catalog_key(s, "help"@).subrange(0, 18) =~= catalog_prefix());
        }
    }
    out
}

/// The descriptor registered under kind `k`, if any.
pub open spec fn kind_lookup(s: Seq<NodeDescriptor>, k: Seq<char>) -> Option<NodeDescriptor>
    decreases s.len(),
{
    if s.len() == 0 {
        None
    } else if s.last().kind@ == k {
        Some(s.last())
    } else {
        kind_lookup(s.drop_last(), k)
    }
}

/// Registry entries: no kind occurs twice.
pub open spec fn entries_ok(s: Seq<NodeDescriptor>) -> bool {
    forall|i: int, j: int| 0 <= i < j < s.len() ==> (#[trigger] s[i]).kind@ != (#[trigger] s[j]).kind@
}

proof fn lemma_kind_lookup_at(s: Seq<NodeDescriptor>, k: Seq<char>, i: int)
    requires
        entries_ok(s),
        0 <= i < s.len(),
        s[i].kind@ == k,
    ensures
        kind_lookup(s, k) == Some(s[i]),
    decreases s.len(),
{
    if i < s.len() - 1 {
        assert(s.drop_last()[i] == s[i]);
        assert(entries_ok(s.drop_last()));
        lemma_kind_lookup_at(s.drop_last(), k, i);
    }
}

proof fn lemma_kind_lookup_absent(s: Seq<NodeDescriptor>, k: Seq<char>)
    requires
        forall|i: int| 0 <= i < s.len() ==> (#[trigger] s[i]).kind@ != k,
    ensures
        kind_lookup(s, k) is None,
    decreases s.len(),
{
    if s.len() > 0 {
        assert forall|i: int| 0 <= i < s.drop_last().len() implies (#[trigger] s.drop_last()[i]).kind@ != k by {
            assert(s.drop_last()[i] == s[i]);
        }
        lemma_kind_lookup_absent(s.drop_last(), k);
    }
}

/// In-memory registry of node descriptors, built once by the host.
pub struct StaticNodeKindRegistry {
    entries: Vec<NodeDescriptor>,
}

impl View for StaticNodeKindRegistry {
    type V = Seq<NodeDescriptor>;

    /// The registered descriptors, one per kind, each kind at the place it
    /// was first registered, holding the descriptor registered last.
    closed spec fn view(&self) -> Seq<NodeDescriptor> {
        self.entries@
    }
}

impl StaticNodeKindRegistry {
    #[verifier::type_invariant]
    closed spec fn well_formed(self) -> bool {
        entries_ok(self.entries@)
    }

    /// An empty registry.
    pub fn new() -> (r: StaticNodeKindRegistry)
        ensures
            r@.len() == 0,
    {
        StaticNodeKindRegistry { entries: Vec::new() }
    }

    /// A registry holding every built-in descriptor, in catalog order; each
    /// built-in kind looks up to its built-in descriptor.
    pub fn with_builtins() -> (r: StaticNodeKindRegistry)
        ensures
            is_builtin_list(r@),
            forall|i: int|
                0 <= i < builtin_table().len() ==> (kind_lookup(r@, (#[trigger] builtin_table()[i]).0) matches Some(d)
                    && describes(d, builtin_table()[i].0, builtin_table()[i].1)),
    {
        let all = builtin_descriptors();
        let mut reg = StaticNodeKindRegistry::new();
        let mut i: usize = 0;
        while i < all.len()
            invariant
                0 <= i <= all@.len(),
                is_builtin_list(all@),
                forall|p: int, q: int| 0 <= p < q < all@.len() ==> (#[trigger] all@[p]).kind@ != (#[trigger] all@[q]).kind@,
                reg@ == all@.take(i as int),
            decreases all@.len() - i,
        {
            proof {
                assert forall|j: int| 0 <= j < reg@.len() implies (#[trigger] reg@[j]).kind@ != all@[i as int].kind@ by {
                    assert(reg@[j] == all@[j]);
                }
                lemma_kind_lookup_absent(reg@, all@[i as int].kind@);
            }
            reg.register(all[i]);
            assert(reg@ =~= all@.take(i + 1));
            i = i + 1;
        }
        assert(all@.take(all@.len() as int) =~= all@);
        proof {
            use_type_invariant(&reg);
            assert forall|j: int| 0 <= j < builtin_table().len() implies (kind_lookup(
                reg@,
                (#[trigger] builtin_table()[j]).0,
            ) matches Some(d) && describes(d, builtin_table()[j].0, builtin_table()[j].1)) by {
                assert(describes(all@[j], builtin_table()[j].0, builtin_table()[j].1));
                lemma_kind_lookup_at(reg@, builtin_table()[j].0, j);
            }
        }
        reg
    }

    /// Register a descriptor. A later descriptor of a registered kind
    /// replaces the earlier one, at the kind's place in `all`; a new kind
    /// joins the end.
    pub fn register(&mut self, descriptor: NodeDescriptor)
        ensures
            kind_lookup(final(self)@, descriptor.kind@) == Some(descriptor),
            forall|k: Seq<char>| k != descriptor.kind@ ==> kind_lookup(final(self)@, k) == kind_lookup(old(self)@, k),
            kind_lookup(old(self)@, descriptor.kind@) is Some ==> exists|i: int|
                0 <= i < old(self)@.len() && (#[trigger] old(self)@[i]).kind@ == descriptor.kind@
                    && final(self)@ == old(self)@.update(i, descriptor),
            kind_lookup(old(self)@, descriptor.kind@) is None ==> final(self)@ == old(self)@.push(descriptor),
    {
        proof {
            use_type_invariant(&*self);
        }
        let ghost before = self@;
        let ghost k = descriptor.kind@;
        let mut pos: Option<usize> = None;
        let mut i: usize = 0;
        while i < self.entries.len()
            invariant_except_break
                pos is None,
            invariant
                0 <= i <= before.len(),
                before == self.entries@,
                k == descriptor.kind@,
                forall|j: int| 0 <= j < i ==> (#[trigger] before[j]).kind@ != k,
            ensures
                pos matches Some(p) ==> p < before.len() && before[p as int].kind@ == k,
                pos is None ==> forall|j: int| 0 <= j < before.len() ==> (#[trigger] before[j]).kind@ != k,
            decreases before.len() - i,
        {
            let e = self.entries[i];
            assert(e == before[i as int]);
            if text_eq(e.kind, descriptor.kind) {
                pos = Some(i);
                break;
            }
            i = i + 1;
        }
        let mut entries: Vec<NodeDescriptor> = Vec::new();
        std::mem::swap(&mut entries, &mut self.entries);
        match pos {
            Some(p) => {
                entries.set(p, descriptor);
                proof {
                    let after = entries@;
                    assert(after =~= before.update(p as int, descriptor));
                    assert(entries_ok(after)) by {
                        assert forall|a: int, b: int| 0 <= a < b < after.len() implies (#[trigger] after[a]).kind@
                            != (#[trigger] after[b]).kind@ by {
                            assert(after[a].kind@ == before[a].kind@ && after[b].kind@ == before[b].kind@);
                        }
                    }
                    lemma_kind_lookup_at(before, k, p as int);
                    lemma_kind_lookup_at(after, k, p as int);
                    assert forall|kk: Seq<char>| kk != k implies kind_lookup(after, kk) == kind_lookup(before, kk) by {
                        if exists|j: int| 0 <= j < before.len() && before[j].kind@ == kk {
                            let j = choose|j: int| 0 <= j < before.len() && before[j].kind@ == kk;
                            lemma_kind_lookup_at(before, kk, j);
                            lemma_kind_lookup_at(after, kk, j);
                        } else {
                            lemma_kind_lookup_absent(before, kk);
                            assert forall|j: int| 0 <= j < after.len() implies (#[trigger] after[j]).kind@ != kk by {
                                assert(after[j].kind@ == before[j].kind@);
                            }
                            lemma_kind_lookup_absent(after, kk);
                        }
                    }
                    assert(before[p as int].kind@ == descriptor.kind@);
                }
            },
            None => {
                entries.push(descriptor);
                proof {
                    let after = entries@;
                    assert(after =~= before.push(descriptor));
                    assert(entries_ok(after)) by {
                        assert forall|a: int, b: int| 0 <= a < b < after.len() implies (#[trigger] after[a]).kind@
                            != (#[trigger] after[b]).kind@ by {
                            assert(after[a] == before[a]);
                            if b < before.len() {
                                assert(after[b] == before[b]);
                            }
                        }
                    }
                    lemma_kind_lookup_absent(before, k);
                    lemma_kind_lookup_at(after, k, before.len() as int);
                    assert forall|kk: Seq<char>| kk != k implies kind_lookup(after, kk) == kind_lookup(before, kk) by {
                        assert(after.drop_last() =~= before);
                    }
                }
            },
        }
        self.entries = entries;
    }

    /// The descriptor registered under `kind`.
    pub fn lookup(&self, kind: &KindId) -> (r: Option<NodeDescriptor>)
        ensures
            r == kind_lookup(self@, kind@),
    {
        proof {
            use_type_invariant(self);
        }
        let mut i: usize = 0;
        while i < self.entries.len()
            invariant
                0 <= i <= self@.len(),
                self@ == self.entries@,
                entries_ok(self@),
                forall|j: int| 0 <= j < i ==> (#[trigger] self@[j]).kind@ != kind@,
            decreases self@.len() - i,
        {
            if text_eq(self.entries[i].kind, kind.as_str()) {
                proof {
                    lemma_kind_lookup_at(self@, kind@, i as int);
                }
                return Some(self.entries[i]);
            }
            i = i + 1;
        }
        proof {
            lemma_kind_lookup_absent(self@, kind@);
        }
        None
    }

    /// Every kind's descriptor, kinds in first-registration order, each the
    /// descriptor `lookup` finds for it.
    pub fn all(&self) -> (r: Vec<NodeDescriptor>)
        ensures
            r@ == self@,
            forall|i: int| 0 <= i < r@.len() ==> kind_lookup(self@, (#[trigger] r@[i]).kind@) == Some(r@[i]),
    {
        proof {
            use_type_invariant(self);
            assert forall|i: int| 0 <= i < self@.len() implies kind_lookup(self@, (#[trigger] self@[i]).kind@)
                == Some(self@[i]) by {
                lemma_kind_lookup_at(self@, self@[i].kind@, i);
            }
        }
        self.entries.clone()
    }
}

impl Default for StaticNodeKindRegistry {
    fn default() -> (r: StaticNodeKindRegistry)
        ensures
            r@.len() == 0,
    {
        StaticNodeKindRegistry::new()
    }
}

} // verus!
