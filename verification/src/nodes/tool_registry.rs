//! The host's tool catalog, as the node logic sees it: each registered tool
//! id with the definition the model is shown.

use vstd::prelude::*;

use crate::ids::KindId;
use crate::json::JsonValue;
use crate::text::text_eq;

verus! {

/// What a tool advertises to the model.
#[derive(Debug)]
pub struct ToolDefinition {
    /// Name the model calls the tool by.
    pub name: String,
    /// Description shown to the model.
    pub description: String,
    /// JSON schema of the tool's input.
    pub input_schema: JsonValue,
}

/// One catalog entry as spec values.
pub open spec fn entry_view(e: (KindId, ToolDefinition)) -> (Seq<char>, ToolDefinition) {
    (e.0@, e.1)
}

/// No id occurs twice.
pub open spec fn ids_unique(s: Seq<(Seq<char>, ToolDefinition)>) -> bool {
    forall|i: int, j: int| 0 <= i < j < s.len() ==> (#[trigger] s[i]).0 != (#[trigger] s[j]).0
}

/// The definition registered under `k`, if any.
pub open spec fn tool_lookup(s: Seq<(Seq<char>, ToolDefinition)>, k: Seq<char>) -> Option<ToolDefinition>
    decreases s.len(),
{
    if s.len() == 0 {
        None
    } else if s.last().0 == k {
        Some(s.last().1)
    } else {
        tool_lookup(s.drop_last(), k)
    }
}

/// With unique ids, the entry named `k` is what `tool_lookup` finds.
pub proof fn lemma_tool_lookup_at(s: Seq<(Seq<char>, ToolDefinition)>, k: Seq<char>, i: int)
    requires
        ids_unique(s),
        0 <= i < s.len(),
        s[i].0 == k,
    ensures
        tool_lookup(s, k) == Some(s[i].1),
    decreases s.len(),
{
    if i < s.len() - 1 {
        assert(s.last() == s[s.len() - 1]);
        assert(s.drop_last()[i] == s[i]);
        lemma_tool_lookup_at(s.drop_last(), k, i);
    }
}

/// Without an entry named `k`, `tool_lookup` finds nothing.
pub proof fn lemma_tool_lookup_absent(s: Seq<(Seq<char>, ToolDefinition)>, k: Seq<char>)
    requires
        forall|i: int| 0 <= i < s.len() ==> (#[trigger] s[i]).0 != k,
    ensures
        tool_lookup(s, k) is None,
    decreases s.len(),
{
    if s.len() > 0 {
        assert(s.last() == s[s.len() - 1]);
        assert forall|i: int| 0 <= i < s.drop_last().len() implies (#[trigger] s.drop_last()[i]).0 != k by {
            assert(s.drop_last()[i] == s[i]);
        }
        lemma_tool_lookup_absent(s.drop_last(), k);
    }
}

/// In-memory tool catalog the host fills at engine-build time.
pub struct StaticToolRegistry {
    tools: Vec<(KindId, ToolDefinition)>,
}

impl View for StaticToolRegistry {
    type V = Seq<(Seq<char>, ToolDefinition)>;

    closed spec fn view(&self) -> Seq<(Seq<char>, ToolDefinition)> {
        self.tools@.map_values(|e: (KindId, ToolDefinition)| entry_view(e))
    }
}

impl StaticToolRegistry {
    #[verifier::type_invariant]
    closed spec fn well_formed(self) -> bool {
        ids_unique(self.tools@.map_values(|e: (KindId, ToolDefinition)| entry_view(e)))
    }

    /// An empty catalog.
    pub fn new() -> (r: StaticToolRegistry)
        ensures
            forall|k: Seq<char>| tool_lookup(r@, k) is None,
    {
        let r = StaticToolRegistry { tools: Vec::new() };
        assert forall|k: Seq<char>| tool_lookup(r@, k) is None by {
            lemma_tool_lookup_absent(r@, k);
        }
        r
    }

    /// Position of the entry named `k`.
    fn position(&self, k: &str) -> (r: Option<usize>)
        ensures
            r matches Some(i) ==> i < self@.len() && self@[i as int].0 == k@,
            r is None ==> forall|i: int| 0 <= i < self@.len() ==> (#[trigger] self@[i]).0 != k@,
    {
        let mut i: usize = 0;
        while i < self.tools.len()
            invariant
                0 <= i <= self.tools@.len(),
                self@.len() == self.tools@.len(),
                forall|j: int| 0 <= j < i ==> (#[trigger] self@[j]).0 != k@,
            decreases self.tools@.len() - i,
        {
            assert(self@[i as int].0 == self.tools@[i as int].0@);
            if text_eq(self.tools[i].0.as_str(), k) {
                return Some(i);
            }
            i = i + 1;
        }
        None
    }

    /// The definition registered under `tool_id`.
    pub fn lookup(&self, tool_id: &KindId) -> (r: Option<&ToolDefinition>)
        ensures
            r matches Some(d) ==> tool_lookup(self@, tool_id@) == Some(*d),
            r is None ==> tool_lookup(self@, tool_id@) is None,
    {
        proof {
            use_type_invariant(self);
        }
        match self.position(tool_id.as_str()) {
            Some(i) => {
                proof {
                    lemma_tool_lookup_at(self@, tool_id@, i as int);
                }
                Some(&self.tools[i].1)
            },
            None => {
                proof {
                    lemma_tool_lookup_absent(self@, tool_id@);
                }
                None
            },
        }
    }

    /// Register a tool under `tool_id`, replacing an earlier entry under the
    /// same id.
    pub fn register(&mut self, tool_id: KindId, definition: ToolDefinition)
        ensures
            tool_lookup(final(self)@, tool_id@) == Some(definition),
            forall|k: Seq<char>| k != tool_id@ ==> tool_lookup(final(self)@, k) == tool_lookup(old(self)@, k),
    {
        proof {
            use_type_invariant(&*self);
        }
        let ghost before = self@;
        let ghost kv = tool_id@;
        let pos = self.position(tool_id.as_str());
        let mut tools: Vec<(KindId, ToolDefinition)> = Vec::new();
        std::mem::swap(&mut tools, &mut self.tools);
        match pos {
            Some(i) => {
                tools.set(i, (tool_id, definition));
                let ghost after = tools@.map_values(|e: (KindId, ToolDefinition)| entry_view(e));
                assert(after =~= before.update(i as int, (kv, definition)));
                proof {
                    assert forall|a: int, b: int| 0 <= a < b < after.len() implies (#[trigger] after[a]).0
                        != (#[trigger] after[b]).0 by {
                        assert(after[a].0 == before[a].0 && after[b].0 == before[b].0);
                    }
                    lemma_tool_lookup_at(after, kv, i as int);
                    assert forall|k: Seq<char>| k != kv implies tool_lookup(after, k) == tool_lookup(before, k) by {
                        if exists|j: int| 0 <= j < before.len() && before[j].0 == k {
                            let j = choose|j: int| 0 <= j < before.len() && before[j].0 == k;
                            lemma_tool_lookup_at(before, k, j);
                            lemma_tool_lookup_at(after, k, j);
                        } else {
                            lemma_tool_lookup_absent(before, k);
                            assert forall|j: int| 0 <= j < after.len() implies (#[trigger] after[j]).0 != k by {
                                if j != i {
                                    assert(after[j] == before[j]);
                                }
                            }
                            lemma_tool_lookup_absent(after, k);
                        }
                    }
                }
            },
            None => {
                tools.push((tool_id, definition));
                let ghost after = tools@.map_values(|e: (KindId, ToolDefinition)| entry_view(e));
                assert(after =~= before.push((kv, definition)));
                proof {
                    assert forall|a: int, b: int| 0 <= a < b < after.len() implies (#[trigger] after[a]).0
                        != (#[trigger] after[b]).0 by {
                        assert(after[a] == before[a]);
                        if b < before.len() {
                            assert(after[b] == before[b]);
                        }
                    }
                    lemma_tool_lookup_at(after, kv, before.len() as int);
                    assert forall|k: Seq<char>| k != kv implies tool_lookup(after, k) == tool_lookup(before, k) by {
                        assert(after.drop_last() =~= before);
                    }
                }
            },
        }
        self.tools = tools;
    }
}

} // verus!
