//! The slot-graph seam: how a slot write is tagged, and the events and
//! errors the graph store reports.

use vstd::prelude::*;
use vstd::string::*;

use crate::node::SlotRef;
use crate::slot::SlotValue;

verus! {

/// Where a slot write came from.
#[derive(Debug, Clone, Copy, PartialEq, Eq)]
pub enum WriteOrigin {
    /// A live run (the default).
    Live,
    /// A replay of recorded writes.
    Replay,
    /// The flow definition (config slots).
    Definition,
}

impl Default for WriteOrigin {
    fn default() -> (o: WriteOrigin)
        ensures
            o == WriteOrigin::Live,
    {
        WriteOrigin::Live
    }
}

impl WriteOrigin {
    /// `live`, `replay` or `definition`.
    pub fn as_str(&self) -> (r: &'static str)
        ensures
            *self == WriteOrigin::Live ==> r@ == "live"@,
            *self == WriteOrigin::Replay ==> r@ == "replay"@,
            *self == WriteOrigin::Definition ==> r@ == "definition"@,
    {
        match self {
            WriteOrigin::Live => "live",
            WriteOrigin::Replay => "replay",
            WriteOrigin::Definition => "definition",
        }
    }
}

/// How one slot write is carried out.
#[derive(Debug, Clone, Copy, PartialEq, Eq)]
pub struct WriteSlotOpts {
    /// The write replays a recorded one (no propagation side effects).
    pub replay: bool,
    /// Write even when the value is unchanged.
    pub force: bool,
    /// Where the write came from.
    pub origin: WriteOrigin,
}

impl Default for WriteSlotOpts {
    fn default() -> (o: WriteSlotOpts)
        ensures
            o == (WriteSlotOpts { replay: false, force: false, origin: WriteOrigin::Live }),
    {
        WriteSlotOpts::live()
    }
}

impl WriteSlotOpts {
    /// A live write.
    pub fn live() -> (o: WriteSlotOpts)
        ensures
            o == (WriteSlotOpts { replay: false, force: false, origin: WriteOrigin::Live }),
    {
        WriteSlotOpts { replay: false, force: false, origin: WriteOrigin::Live }
    }

    /// A replayed write.
    pub fn replay() -> (o: WriteSlotOpts)
        ensures
            o == (WriteSlotOpts { replay: true, force: false, origin: WriteOrigin::Replay }),
    {
        WriteSlotOpts { replay: true, force: false, origin: WriteOrigin::Replay }
    }

    /// A live write that lands even when the value is unchanged.
    pub fn forced() -> (o: WriteSlotOpts)
        ensures
            o == (WriteSlotOpts { replay: false, force: true, origin: WriteOrigin::Live }),
    {
        WriteSlotOpts { replay: false, force: true, origin: WriteOrigin::Live }
    }

    /// A write of a config slot from the flow definition.
    pub fn config() -> (o: WriteSlotOpts)
        ensures
            o == (WriteSlotOpts { replay: false, force: false, origin: WriteOrigin::Definition }),
    {
        WriteSlotOpts { replay: false, force: false, origin: WriteOrigin::Definition }
    }
}

/// Options of a graph subscription (none yet).
#[derive(Debug, Clone)]
pub struct SubscribeOpts {}

impl Default for SubscribeOpts {
    fn default() -> (o: SubscribeOpts) {
        SubscribeOpts {  }
    }
}

/// A change the graph store broadcasts.
#[derive(Debug)]
pub struct GraphEventEnvelope {
    /// The slot.
    pub slot: SlotRef,
    /// Its new value (`None` when cleared).
    pub value: Option<SlotValue>,
}

impl GraphEventEnvelope {
    /// The event of `slot` changing to `value`.
    pub fn slot_changed(slot: SlotRef, value: SlotValue) -> (e: GraphEventEnvelope)
        ensures
            e.slot == slot,
            e.value == Some(value),
    {
        GraphEventEnvelope { slot, value: Some(value) }
    }
}

/// Why a graph-store operation failed.
#[derive(Debug)]
pub enum GraphError {
    /// No such slot.
    UnknownSlot(SlotRef),
    /// The value's type does not fit the slot.
    TypeMismatch(SlotRef, String),
    /// The backend failed.
    Backend(String),
}

} // verus!
