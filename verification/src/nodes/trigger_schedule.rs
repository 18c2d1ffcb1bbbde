//! `trigger.schedule` — passive entry node surfacing its cron expression on
//! the `schedule` output; the host-side scheduler does the firing.

use vstd::prelude::*;
use vstd::string::*;

use crate::ids::KindId;
use crate::node::{describes, NodeDescriptor, KindError, NodeCtx, NodeError};
use crate::slot::{lookup, SlotMap, SlotValue};

verus! {

/// Reverse-DNS kind id.
pub const KIND_ID: &'static str = "starter.flow.trigger.schedule";

/// Catalog entry of this kind.
pub fn descriptor() -> (d: NodeDescriptor)
    ensures
        describes(d, KIND_ID@, "trigger-schedule"@),
        crate::ids::is_reverse_dns(d.kind@),
{
    proof {
        reveal_strlit("starter.flow.trigger.schedule");
        reveal_strlit("trigger-schedule");
        reveal_strlit("starter.flow.node.");
        reveal_strlit("label");
        reveal_strlit("summary");
        reveal_strlit("help");
        reveal_strlit("starter.flow.node.trigger-schedule.label");
        reveal_strlit("starter.flow.node.trigger-schedule.summary");
        reveal_strlit("starter.flow.node.trigger-schedule.help");
        assert(KIND_ID@[7] == '.');
    }
    let d = NodeDescriptor::new(
        KIND_ID,
        "starter.flow.node.trigger-schedule.label",
        "starter.flow.node.trigger-schedule.summary",
        "starter.flow.node.trigger-schedule.help",
    );
    assert(d.label_key@ =~= crate::node::catalog_key("trigger-schedule"@, "label"@));
    assert(d.summary_key@ =~= crate::node::catalog_key("trigger-schedule"@, "summary"@));
    assert(d.help_key@ =~= crate::node::catalog_key("trigger-schedule"@, "help"@));
    d
}

/// Mandatory config slot carrying the cron expression.
pub const CRON_EXPR_SLOT: &'static str = "cron_expr";

/// Output slot carrying the cron expression.
pub const SCHEDULE_SLOT: &'static str = "schedule";

/// Publish-time settings of a `trigger.schedule` node.
#[derive(Debug)]
pub struct TriggerScheduleSettings {
    /// Cron expression the host's scheduler fires the flow by.
    pub cron_expr: String,
}

/// Typed errors surfaced by `trigger.schedule`.
#[derive(Debug, Clone, Copy, PartialEq, Eq)]
pub enum TriggerScheduleError {
    /// No `cron_expr` entry.
    MissingCronExpr,
    /// `cron_expr` not a string.
    InvalidCronExprType,
}

/// The text a `trigger.schedule` error renders as.
pub open spec fn trigger_schedule_error_text(e: TriggerScheduleError) -> Seq<char> {
    match e {
        TriggerScheduleError::MissingCronExpr => "trigger.schedule input missing `cron_expr` slot (must be SlotValue::String carrying the cron expression)"@,
        TriggerScheduleError::InvalidCronExprType => "trigger.schedule `cron_expr` must be SlotValue::String"@,
    }
}

impl TriggerScheduleError {
    /// Human-readable message.
    pub fn message(&self) -> (m: String)
        ensures
            m@ == trigger_schedule_error_text(*self),
    {
        match self {
            TriggerScheduleError::MissingCronExpr => String::from_str("trigger.schedule input missing `cron_expr` slot (must be SlotValue::String carrying the cron expression)"),
            TriggerScheduleError::InvalidCronExprType => String::from_str("trigger.schedule `cron_expr` must be SlotValue::String"),
        }
    }
}

impl TriggerScheduleError {
    /// The node error this surfaces as.
    pub fn into_node_error(self) -> (n: NodeError)
        ensures
            n == NodeError::Other(KindError::TriggerSchedule(self)),
    {
        NodeError::Other(KindError::TriggerSchedule(self))
    }
}


/// `trigger.schedule` node-kind body.
pub struct TriggerSchedule {
    kind: KindId,
}

impl TriggerSchedule {
    /// Construct a `trigger.schedule` body.
    pub fn new() -> (t: TriggerSchedule)
        ensures
            t.kind_id()@ == KIND_ID@,
    {
        proof {
            reveal_strlit("starter.flow.trigger.schedule");
            assert(KIND_ID@[7] == '.');
        }
        TriggerSchedule { kind: KindId::from_valid(KIND_ID) }
    }

    /// The kind id this body implements.
    pub closed spec fn kind_id(&self) -> KindId {
        self.kind
    }

    /// Copy the cron expression to the `schedule` output, unmodified.
    pub fn invoke(&self, ctx: &NodeCtx, input: SlotMap) -> (r: Result<SlotMap, NodeError>)
        ensures
            lookup(input@, CRON_EXPR_SLOT@) is None ==> r matches Err(
                NodeError::Other(KindError::TriggerSchedule(TriggerScheduleError::MissingCronExpr)),
            ),
            lookup(input@, CRON_EXPR_SLOT@) matches Some(v) && !(v is String) ==> r matches Err(
                NodeError::Other(
                    KindError::TriggerSchedule(TriggerScheduleError::InvalidCronExprType),
                ),
            ),
            lookup(input@, CRON_EXPR_SLOT@) matches Some(SlotValue::String(_)) && ctx.cancelled
                ==> r matches Err(NodeError::Cancelled),
            lookup(input@, CRON_EXPR_SLOT@) matches Some(SlotValue::String(e)) ==> (!ctx.cancelled
                ==> (r matches Ok(out) && out@ == seq![(SCHEDULE_SLOT@, SlotValue::String(e))])),
    {
        let mut input = input;
        let cron_expr = match input.remove(CRON_EXPR_SLOT) {
            None => return Err(
                NodeError::Other(KindError::TriggerSchedule(TriggerScheduleError::MissingCronExpr)),
            ),
            Some(SlotValue::String(s)) => s,
            Some(_) => return Err(
                NodeError::Other(
                    KindError::TriggerSchedule(TriggerScheduleError::InvalidCronExprType),
                ),
            ),
        };
        if ctx.cancelled {
            return Err(NodeError::Cancelled);
        }
        Ok(SlotMap::singleton(String::from_str(SCHEDULE_SLOT), SlotValue::String(cron_expr)))
    }
}

} // verus!
