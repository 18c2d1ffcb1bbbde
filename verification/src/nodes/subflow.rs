//! `subflow` — runs another flow as one node; the kind is catalogued, its behaviour is the engine's.

use vstd::prelude::*;
use vstd::string::*;

use crate::node::{describes, NodeDescriptor};

verus! {

/// Reverse-DNS kind id.
pub const KIND_ID: &'static str = "starter.flow.subflow";

/// Catalog entry of this kind.
pub fn descriptor() -> (d: NodeDescriptor)
    ensures
        describes(d, KIND_ID@, "subflow"@),
        crate::ids::is_reverse_dns(d.kind@),
{
    proof {
        reveal_strlit("starter.flow.subflow");
        reveal_strlit("subflow");
        reveal_strlit("starter.flow.node.");
        reveal_strlit("label");
        reveal_strlit("summary");
        reveal_strlit("help");
        reveal_strlit("starter.flow.node.subflow.label");
        reveal_strlit("starter.flow.node.subflow.summary");
        reveal_strlit("starter.flow.node.subflow.help");
        assert(KIND_ID@[7] == '.');
    }
    let d = NodeDescriptor::new(
        KIND_ID,
        "starter.flow.node.subflow.label",
        "starter.flow.node.subflow.summary",
        "starter.flow.node.subflow.help",
    );
    assert(d.label_key@ =~= crate::node::catalog_key("subflow"@, "label"@));
    assert(d.summary_key@ =~= crate::node::catalog_key("subflow"@, "summary"@));
    assert(d.help_key@ =~= crate::node::catalog_key("subflow"@, "help"@));
    d
}

} // verus!
