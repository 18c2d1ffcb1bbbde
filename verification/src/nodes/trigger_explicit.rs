//! `trigger.explicit` — waits for a payload pushed on a named channel and
//! emits it on `payload`.
//!
//! The library decides which channel the input names (or which error it
//! earns) and what the wait's outcome becomes; the channels themselves are
//! the host's.

use vstd::prelude::*;
use vstd::string::*;

use crate::ids::{is_reverse_dns, KindId};
use crate::idset::{contains_id, holds_id, ids_ascend, insert_id};
use crate::json::JsonValue;
use crate::node::{describes, NodeDescriptor, KindError, NodeError};
use crate::slot::{lookup, SlotMap, SlotValue};

verus! {

/// Reverse-DNS kind id.
pub const KIND_ID: &'static str = "starter.flow.trigger.explicit";

/// Catalog entry of this kind.
pub fn descriptor() -> (d: NodeDescriptor)
    ensures
        describes(d, KIND_ID@, "trigger-explicit"@),
        crate::ids::is_reverse_dns(d.kind@),
{
    proof {
        reveal_strlit("starter.flow.trigger.explicit");
        reveal_strlit("trigger-explicit");
        reveal_strlit("starter.flow.node.");
        reveal_strlit("label");
        reveal_strlit("summary");
        reveal_strlit("help");
        reveal_strlit("starter.flow.node.trigger-explicit.label");
        reveal_strlit("starter.flow.node.trigger-explicit.summary");
        reveal_strlit("starter.flow.node.trigger-explicit.help");
        assert(KIND_ID@[7] == '.');
    }
    let d = NodeDescriptor::new(
        KIND_ID,
        "starter.flow.node.trigger-explicit.label",
        "starter.flow.node.trigger-explicit.summary",
        "starter.flow.node.trigger-explicit.help",
    );
    assert(d.label_key@ =~= crate::node::catalog_key("trigger-explicit"@, "label"@));
    assert(d.summary_key@ =~= crate::node::catalog_key("trigger-explicit"@, "summary"@));
    assert(d.help_key@ =~= crate::node::catalog_key("trigger-explicit"@, "help"@));
    d
}

/// Input slot naming the channel.
pub const CHANNEL_ID_SLOT: &'static str = "channel_id";

/// Output slot carrying the received payload.
pub const PAYLOAD_SLOT: &'static str = "payload";

/// Publish-time settings of a `trigger.explicit` node.
#[derive(Debug)]
pub struct TriggerExplicitSettings {
    /// Reverse-DNS id of the channel to wait on.
    pub channel_id: String,
}

/// Typed errors surfaced by `trigger.explicit`.
#[derive(Debug)]
pub enum TriggerExplicitError {
    /// No string `channel_id` entry.
    MissingChannelId,
    /// `channel_id` not a valid reverse-DNS id; carries it.
    InvalidChannelId(String),
    /// No channel bound under the id.
    UnregisteredChannel(KindId),
    /// The channel closed before a payload arrived.
    ChannelClosed(KindId),
}

/// The text a `trigger.explicit` error renders as.
pub open spec fn trigger_explicit_error_text(e: TriggerExplicitError) -> Seq<char> {
    match e {
        TriggerExplicitError::MissingChannelId => "trigger.explicit input missing `channel_id` slot (must be SlotValue::String naming the channel's KindId)"@,
        TriggerExplicitError::InvalidChannelId(t) => "trigger.explicit `channel_id` is not a valid reverse-DNS KindId: "@
            + t@,
        TriggerExplicitError::UnregisteredChannel(k) => "trigger.explicit channel not registered: "@ + k@,
        TriggerExplicitError::ChannelClosed(k) => "trigger.explicit channel `"@ + k@ + "` closed without a payload"@,
    }
}

impl TriggerExplicitError {
    /// Human-readable message.
    pub fn message(&self) -> (m: String)
        ensures
            m@ == trigger_explicit_error_text(*self),
    {
        match self {
            TriggerExplicitError::MissingChannelId => String::from_str(
                "trigger.explicit input missing `channel_id` slot (must be SlotValue::String naming the channel's KindId)",
            ),
            TriggerExplicitError::InvalidChannelId(t) => String::from_str(
                "trigger.explicit `channel_id` is not a valid reverse-DNS KindId: ",
            ).concat(t.as_str()),
            TriggerExplicitError::UnregisteredChannel(k) => String::from_str(
                "trigger.explicit channel not registered: ",
            ).concat(k.as_str()),
            TriggerExplicitError::ChannelClosed(k) => String::from_str("trigger.explicit channel `").concat(
                k.as_str(),
            ).concat("` closed without a payload"),
        }
    }

    /// The node error this surfaces as.
    pub fn into_node_error(self) -> (n: NodeError)
        ensures
            n == NodeError::Other(KindError::TriggerExplicit(self)),
    {
        NodeError::Other(KindError::TriggerExplicit(self))
    }
}

/// The channel ids the host bound a channel under.
pub struct StaticTriggerChannelRegistry {
    ids: Vec<KindId>,
}

impl StaticTriggerChannelRegistry {
    #[verifier::type_invariant]
    closed spec fn well_formed(self) -> bool {
        ids_ascend(self.ids@)
    }

    /// Whether a channel is bound under `k`.
    pub closed spec fn binds(&self, k: Seq<char>) -> bool {
        holds_id(self.ids@, k)
    }

    /// No channel bound.
    pub fn new() -> (r: StaticTriggerChannelRegistry)
        ensures
            forall|k: Seq<char>| !r.binds(k),
    {
        StaticTriggerChannelRegistry { ids: Vec::new() }
    }

    /// Record a channel bound under `channel_id` (rebinding keeps one entry).
    pub fn bind(&mut self, channel_id: KindId)
        ensures
            forall|k: Seq<char>| final(self).binds(k) <==> (old(self).binds(k) || k == channel_id@),
    {
        proof {
            use_type_invariant(&*self);
        }
        let mut ids: Vec<KindId> = Vec::new();
        std::mem::swap(&mut ids, &mut self.ids);
        insert_id(&mut ids, channel_id);
        self.ids = ids;
    }

    /// Whether a channel is bound under `channel_id`.
    pub fn lookup(&self, channel_id: &KindId) -> (b: bool)
        ensures
            b == self.binds(channel_id@),
    {
        contains_id(&self.ids, channel_id.as_str())
    }
}

/// How the wait for a payload ended.
pub enum Received {
    /// The run was cancelled first.
    Cancelled,
    /// The channel closed first.
    Closed,
    /// A payload arrived.
    Payload(JsonValue),
}

/// `trigger.explicit` node-kind body.
pub struct TriggerExplicit {
    kind: KindId,
}

impl TriggerExplicit {
    /// Construct a `trigger.explicit` body.
    pub fn new() -> (t: TriggerExplicit)
        ensures
            t.kind_id()@ == KIND_ID@,
    {
        proof {
            reveal_strlit("starter.flow.trigger.explicit");
            assert(KIND_ID@[7] == '.');
        }
        TriggerExplicit { kind: KindId::from_valid(KIND_ID) }
    }

    /// The kind id this body implements.
    pub closed spec fn kind_id(&self) -> KindId {
        self.kind
    }

    /// The channel the input names. Errors come in this order: a missing or
    /// non-string id, an invalid id, an unbound channel.
    pub fn select_channel(&self, channels: &StaticTriggerChannelRegistry, input: SlotMap) -> (r: Result<
        KindId,
        NodeError,
    >)
        ensures
            !(lookup(input@, CHANNEL_ID_SLOT@) matches Some(SlotValue::String(_))) ==> r == Err::<
                KindId,
                NodeError,
            >(NodeError::Other(KindError::TriggerExplicit(TriggerExplicitError::MissingChannelId))),
            lookup(input@, CHANNEL_ID_SLOT@) matches Some(SlotValue::String(t)) ==> ({
                &&& !is_reverse_dns(t@) ==> (r matches Err(
                    NodeError::Other(KindError::TriggerExplicit(TriggerExplicitError::InvalidChannelId(u))),
                ) && u@ == t@)
                &&& is_reverse_dns(t@) && !channels.binds(t@) ==> (r matches Err(
                    NodeError::Other(KindError::TriggerExplicit(TriggerExplicitError::UnregisteredChannel(k))),
                ) && k@ == t@)
                &&& is_reverse_dns(t@) && channels.binds(t@) ==> (r matches Ok(k) && k@ == t@)
            }),
    {
        let mut input = input;
        let raw = match input.remove(CHANNEL_ID_SLOT) {
            Some(SlotValue::String(s)) => s,
            _ => return Err(TriggerExplicitError::MissingChannelId.into_node_error()),
        };
        let channel_id = match KindId::new(raw.clone()) {
            Ok(k) => k,
            Err(_) => return Err(TriggerExplicitError::InvalidChannelId(raw).into_node_error()),
        };
        if channels.lookup(&channel_id) {
            Ok(channel_id)
        } else {
            Err(TriggerExplicitError::UnregisteredChannel(channel_id).into_node_error())
        }
    }

    /// Conclude the wait: a payload becomes the `payload` slot.
    pub fn finish(channel_id: KindId, received: Received) -> (r: Result<SlotMap, NodeError>)
        ensures
            received is Cancelled ==> r matches Err(NodeError::Cancelled),
            received is Closed ==> (r matches Err(
                NodeError::Other(KindError::TriggerExplicit(TriggerExplicitError::ChannelClosed(k))),
            ) && k@ == channel_id@),
            received matches Received::Payload(p) ==> (r matches Ok(out) && out@ == seq![
                (PAYLOAD_SLOT@, SlotValue::Json(p)),
            ]),
    {
        match received {
            Received::Cancelled => Err(NodeError::Cancelled),
            Received::Closed => Err(TriggerExplicitError::ChannelClosed(channel_id).into_node_error()),
            Received::Payload(p) => Ok(SlotMap::singleton(String::from_str(PAYLOAD_SLOT), SlotValue::Json(p))),
        }
    }
}

} // verus!
