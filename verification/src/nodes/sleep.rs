//! `sleep` — holds propagation for a declared number of milliseconds, then
//! forwards its `value` input to `out`.

use vstd::prelude::*;
use vstd::string::*;

use crate::ids::KindId;
use crate::node::{describes, NodeDescriptor, KindError, NodeError};
use crate::slot::{lookup, SlotMap, SlotValue};

verus! {

/// Reverse-DNS kind id.
pub const KIND_ID: &'static str = "starter.flow.sleep";

/// Catalog entry of this kind.
pub fn descriptor() -> (d: NodeDescriptor)
    ensures
        describes(d, KIND_ID@, "sleep"@),
        crate::ids::is_reverse_dns(d.kind@),
{
    proof {
        reveal_strlit("starter.flow.sleep");
        reveal_strlit("sleep");
        reveal_strlit("starter.flow.node.");
        reveal_strlit("label");
        reveal_strlit("summary");
        reveal_strlit("help");
        reveal_strlit("starter.flow.node.sleep.label");
        reveal_strlit("starter.flow.node.sleep.summary");
        reveal_strlit("starter.flow.node.sleep.help");
        assert(KIND_ID@[7] == '.');
    }
    let d = NodeDescriptor::new(
        KIND_ID,
        "starter.flow.node.sleep.label",
        "starter.flow.node.sleep.summary",
        "starter.flow.node.sleep.help",
    );
    assert(d.label_key@ =~= crate::node::catalog_key("sleep"@, "label"@));
    assert(d.summary_key@ =~= crate::node::catalog_key("sleep"@, "summary"@));
    assert(d.help_key@ =~= crate::node::catalog_key("sleep"@, "help"@));
    d
}

/// Mandatory input slot carrying the wait in milliseconds.
pub const DURATION_MS_SLOT: &'static str = "duration_ms";

/// Optional input slot forwarded to [`OUT_SLOT`] after the wait.
pub const VALUE_SLOT: &'static str = "value";

/// Output slot carrying the forwarded value.
pub const OUT_SLOT: &'static str = "out";

/// Upper bound on the wait: one hour.
pub const MAX_DURATION_MS: i64 = 3_600_000i64;

/// Typed errors surfaced by `sleep`.
#[derive(Debug, Clone, Copy, PartialEq, Eq)]
pub enum SleepError {
    /// No `duration_ms` entry.
    MissingDuration,
    /// `duration_ms` not an integer.
    InvalidDurationType,
    /// `duration_ms` negative or above [`MAX_DURATION_MS`].
    DurationOutOfRange(i64),
}

/// The text a `sleep` error renders as.
pub open spec fn sleep_error_text(e: SleepError) -> Seq<char> {
    match e {
        SleepError::MissingDuration => "sleep input missing `duration_ms` slot"@,
        SleepError::InvalidDurationType => "sleep `duration_ms` must be SlotValue::Int milliseconds"@,
        SleepError::DurationOutOfRange(n) => "sleep `duration_ms` out of range: "@ + crate::decimal::signed_decimal(n as int) + " (must be 0..=3600000)"@,
    }
}

impl SleepError {
    /// Human-readable message.
    pub fn message(&self) -> (m: String)
        ensures
            m@ == sleep_error_text(*self),
    {
        match self {
            SleepError::MissingDuration => String::from_str("sleep input missing `duration_ms` slot"),
            SleepError::InvalidDurationType => String::from_str("sleep `duration_ms` must be SlotValue::Int milliseconds"),
            SleepError::DurationOutOfRange(n) => String::from_str("sleep `duration_ms` out of range: ").concat(crate::decimal::format_i64(*n).as_str()).concat(" (must be 0..=3600000)"),
        }
    }
}

impl SleepError {
    /// The node error this surfaces as.
    pub fn into_node_error(self) -> (n: NodeError)
        ensures
            n == NodeError::Other(KindError::Sleep(self)),
    {
        NodeError::Other(KindError::Sleep(self))
    }
}


/// A validated wait: how long, and what to emit afterwards.
pub struct SleepPlan {
    /// Milliseconds to wait; `0` means no wait at all.
    pub duration_ms: u64,
    /// The output emitted when the wait completes.
    pub output: SlotMap,
}

impl SleepPlan {
    /// Conclude the invocation once the host's wait ended. A zero wait never
    /// observes cancellation; a real wait that the run's cancel interrupted
    /// fails with `Cancelled`.
    pub fn finish(self, cancelled_during_wait: bool) -> (r: Result<SlotMap, NodeError>)
        ensures
            self.duration_ms > 0 && cancelled_during_wait ==> r == Err::<SlotMap, NodeError>(
                NodeError::Cancelled,
            ),
            self.duration_ms == 0 || !cancelled_during_wait ==> r == Ok::<SlotMap, NodeError>(
                self.output,
            ),
    {
        if self.duration_ms > 0 && cancelled_during_wait {
            Err(NodeError::Cancelled)
        } else {
            Ok(self.output)
        }
    }
}

/// `sleep` node-kind body.
pub struct Sleep {
    kind: KindId,
}

impl Sleep {
    /// Construct a `sleep` body.
    pub fn new() -> (s: Sleep)
        ensures
            s.kind_id()@ == KIND_ID@,
    {
        proof {
            reveal_strlit("starter.flow.sleep");
            assert(KIND_ID@[7] == '.');
        }
        Sleep { kind: KindId::from_valid(KIND_ID) }
    }

    /// The kind id this body implements.
    pub closed spec fn kind_id(&self) -> KindId {
        self.kind
    }

    /// Validate the input and plan the wait.
    pub fn prepare(&self, input: SlotMap) -> (r: Result<SleepPlan, NodeError>)
        ensures
            lookup(input@, DURATION_MS_SLOT@) is None ==> r matches Err(
                NodeError::Other(KindError::Sleep(SleepError::MissingDuration)),
            ),
            lookup(input@, DURATION_MS_SLOT@) matches Some(v) && !(v is Int) ==> r matches Err(
                NodeError::Other(KindError::Sleep(SleepError::InvalidDurationType)),
            ),
            lookup(input@, DURATION_MS_SLOT@) matches Some(SlotValue::Int(n)) ==> (
            (n < 0 || n > MAX_DURATION_MS) ==> r == Err::<SleepPlan, NodeError>(
                NodeError::Other(KindError::Sleep(SleepError::DurationOutOfRange(n))),
            )),
            lookup(input@, DURATION_MS_SLOT@) matches Some(SlotValue::Int(n)) ==> (
            (0 <= n <= MAX_DURATION_MS) ==> ((r matches Ok(plan) && plan.duration_ms == n && (
            match lookup(input@, VALUE_SLOT@) {
                Some(v) => plan.output@ == seq![(OUT_SLOT@, v)],
                None => plan.output@.len() == 0,
            })))),
    {
        proof {
            reveal_strlit("duration_ms");
            reveal_strlit("value");
            assert(DURATION_MS_SLOT@[0] != VALUE_SLOT@[0]);
        }
        let mut input = input;
        let duration_ms = match input.remove(DURATION_MS_SLOT) {
            None => return Err(NodeError::Other(KindError::Sleep(SleepError::MissingDuration))),
            Some(SlotValue::Int(n)) => n,
            Some(_) => return Err(
                NodeError::Other(KindError::Sleep(SleepError::InvalidDurationType)),
            ),
        };
        if duration_ms < 0 || duration_ms > MAX_DURATION_MS {
            return Err(
                NodeError::Other(KindError::Sleep(SleepError::DurationOutOfRange(duration_ms))),
            );
        }
        let output = match input.remove(VALUE_SLOT) {
            Some(v) => SlotMap::singleton(String::from_str(OUT_SLOT), v),
            None => SlotMap::new(),
        };
        Ok(SleepPlan { duration_ms: duration_ms as u64, output })
    }
}

} // verus!
