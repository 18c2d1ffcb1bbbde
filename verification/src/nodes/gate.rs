//! `gate` — a pass/hold switch on a flow path; the kind is catalogued, its behaviour is the engine's.

use vstd::prelude::*;
use vstd::string::*;

use crate::node::{describes, NodeDescriptor};

verus! {

/// Reverse-DNS kind id.
pub const KIND_ID: &'static str = "starter.flow.gate";

/// Catalog entry of this kind.
pub fn descriptor() -> (d: NodeDescriptor)
    ensures
        describes(d, KIND_ID@, "gate"@),
        crate::ids::is_reverse_dns(d.kind@),
{
    proof {
        reveal_strlit("starter.flow.gate");
        reveal_strlit("gate");
        reveal_strlit("starter.flow.node.");
        reveal_strlit("label");
        reveal_strlit("summary");
        reveal_strlit("help");
        reveal_strlit("starter.flow.node.gate.label");
        reveal_strlit("starter.flow.node.gate.summary");
        reveal_strlit("starter.flow.node.gate.help");
        assert(KIND_ID@[7] == '.');
    }
    let d = NodeDescriptor::new(
        KIND_ID,
        "starter.flow.node.gate.label",
        "starter.flow.node.gate.summary",
        "starter.flow.node.gate.help",
    );
    assert(d.label_key@ =~= crate::node::catalog_key("gate"@, "label"@));
    assert(d.summary_key@ =~= crate::node::catalog_key("gate"@, "summary"@));
    assert(d.help_key@ =~= crate::node::catalog_key("gate"@, "help"@));
    d
}

} // verus!
