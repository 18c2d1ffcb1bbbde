//! `trigger.event` — starts a flow on a domain event; the kind is catalogued, its behaviour is the engine's.

use vstd::prelude::*;
use vstd::string::*;

use crate::node::{describes, NodeDescriptor};

verus! {

/// Reverse-DNS kind id.
pub const KIND_ID: &'static str = "starter.flow.trigger.event";

/// Catalog entry of this kind.
pub fn descriptor() -> (d: NodeDescriptor)
    ensures
        describes(d, KIND_ID@, "trigger-event"@),
        crate::ids::is_reverse_dns(d.kind@),
{
    proof {
        reveal_strlit("starter.flow.trigger.event");
        reveal_strlit("trigger-event");
        reveal_strlit("starter.flow.node.");
        reveal_strlit("label");
        reveal_strlit("summary");
        reveal_strlit("help");
        reveal_strlit("starter.flow.node.trigger-event.label");
        reveal_strlit("starter.flow.node.trigger-event.summary");
        reveal_strlit("starter.flow.node.trigger-event.help");
        assert(KIND_ID@[7] == '.');
    }
    let d = NodeDescriptor::new(
        KIND_ID,
        "starter.flow.node.trigger-event.label",
        "starter.flow.node.trigger-event.summary",
        "starter.flow.node.trigger-event.help",
    );
    assert(d.label_key@ =~= crate::node::catalog_key("trigger-event"@, "label"@));
    assert(d.summary_key@ =~= crate::node::catalog_key("trigger-event"@, "summary"@));
    assert(d.help_key@ =~= crate::node::catalog_key("trigger-event"@, "help"@));
    d
}

} // verus!
