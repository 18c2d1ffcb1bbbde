//! The wire shape of a slot value a node emitted, as surfaces stream it.

use vstd::prelude::*;
use vstd::string::*;

use crate::flow::{FlowEvent, RunId};
use crate::hex::{bytes_hex, push_byte_hex};
use crate::ids::NodeId;
use crate::json::{spec_number_from_i64, JsonNumber, JsonValue};
use crate::slot::{f64_is_finite, float_is_finite, SlotValue};

verus! {

/// `j` is the JSON slot value `v` projects to: numbers as numbers (a
/// non-finite float as `null`), bytes as `0x` and their lowercase hex, JSON
/// as itself.
pub open spec fn projects_to(v: SlotValue, j: JsonValue) -> bool {
    match v {
        SlotValue::Null => j == JsonValue::Null,
        SlotValue::Bool(b) => j == JsonValue::Bool(b),
        SlotValue::Int(i) => j == JsonValue::Number(spec_number_from_i64(i)),
        SlotValue::Float(bits) => if f64_is_finite(bits) {
            j == JsonValue::Number(JsonNumber::Float(bits))
        } else {
            j == JsonValue::Null
        },
        SlotValue::String(s) => j == JsonValue::String(s),
        SlotValue::Bytes(b) => j is String && crate::json::json_text(j) == seq!['0', 'x'] + bytes_hex(b@),
        SlotValue::Json(x) => j == x,
    }
}

/// Project a slot value to JSON.
pub fn slot_value_to_json(v: SlotValue) -> (j: JsonValue)
    ensures
        projects_to(v, j),
{
    match v {
        SlotValue::Null => JsonValue::Null,
        SlotValue::Bool(b) => JsonValue::Bool(b),
        SlotValue::Int(i) => JsonValue::Number(JsonNumber::from_i64(i)),
        SlotValue::Float(bits) => if float_is_finite(bits) {
            JsonValue::Number(JsonNumber::Float(bits))
        } else {
            JsonValue::Null
        },
        SlotValue::String(s) => JsonValue::String(s),
        SlotValue::Bytes(b) => {
            let mut s = String::new();
            crate::text::push_char(&mut s, '0');
            crate::text::push_char(&mut s, 'x');
            let mut i: usize = 0;
            while i < b.len()
                invariant
                    0 <= i <= b@.len(),
                    s@ == seq!['0', 'x'] + bytes_hex(b@.take(i as int)),
                decreases b@.len() - i,
            {
                push_byte_hex(&mut s, b[i]);
                assert(b@.take(i + 1).drop_last() =~= b@.take(i as int));
                assert(s@ =~= seq!['0', 'x'] + bytes_hex(b@.take(i + 1)));
                i = i + 1;
            }
            assert(b@.take(b@.len() as int) =~= b@);
            JsonValue::String(s)
        },
        SlotValue::Json(j) => j,
    }
}

/// A slot value a node emitted during a run, in wire shape.
#[derive(Debug)]
pub struct NodeSlotValue {
    /// The run.
    pub run: RunId,
    /// The node.
    pub node: NodeId,
    /// The slot.
    pub slot: String,
    /// The value, as JSON.
    pub value: JsonValue,
}

impl NodeSlotValue {
    /// The wire shape of a `NodeEmitted` event; `None` for any other event.
    pub fn from_event(ev: FlowEvent) -> (r: Option<NodeSlotValue>)
        ensures
            ev matches FlowEvent::NodeEmitted { run, node, slot, value } ==> (r matches Some(d) && d.run == run
                && d.node@ == node@ && d.slot == slot && projects_to(value, d.value)),
            !(ev is NodeEmitted) ==> r is None,
    {
        match ev {
            FlowEvent::NodeEmitted { run, node, slot, value } => Some(
                NodeSlotValue { run, node, slot, value: slot_value_to_json(value) },
            ),
            _ => None,
        }
    }
}

} // verus!
