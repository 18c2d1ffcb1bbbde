//! `branch` — conditional routing: forwards `value` to `true_out` or
//! `false_out` depending on the truthiness of `condition`.

use vstd::prelude::*;
use vstd::string::*;

use crate::ids::{is_reverse_dns, KindId};
use crate::json::{JsonNumber, JsonValue};
use crate::node::{describes, NodeDescriptor, KindError, NodeCtx, NodeError};
use crate::slot::{
    f64_is_nan, f64_is_zero, float_is_nan, float_is_zero, lookup, SlotMap, SlotValue,
};

verus! {

/// Reverse-DNS kind id.
pub const KIND_ID: &'static str = "starter.flow.branch";

/// Catalog entry of this kind.
pub fn descriptor() -> (d: NodeDescriptor)
    ensures
        describes(d, KIND_ID@, "branch"@),
        crate::ids::is_reverse_dns(d.kind@),
{
    proof {
        reveal_strlit("starter.flow.branch");
        reveal_strlit("branch");
        reveal_strlit("starter.flow.node.");
        reveal_strlit("label");
        reveal_strlit("summary");
        reveal_strlit("help");
        reveal_strlit("starter.flow.node.branch.label");
        reveal_strlit("starter.flow.node.branch.summary");
        reveal_strlit("starter.flow.node.branch.help");
        assert(KIND_ID@[7] == '.');
    }
    let d = NodeDescriptor::new(
        KIND_ID,
        "starter.flow.node.branch.label",
        "starter.flow.node.branch.summary",
        "starter.flow.node.branch.help",
    );
    assert(d.label_key@ =~= crate::node::catalog_key("branch"@, "label"@));
    assert(d.summary_key@ =~= crate::node::catalog_key("branch"@, "summary"@));
    assert(d.help_key@ =~= crate::node::catalog_key("branch"@, "help"@));
    d
}

/// Mandatory input slot carrying the predicate.
pub const CONDITION_SLOT: &'static str = "condition";

/// Mandatory input slot carrying the forwarded payload.
pub const VALUE_SLOT: &'static str = "value";

/// Output slot populated when the condition is truthy.
pub const TRUE_OUT_SLOT: &'static str = "true_out";

/// Output slot populated when the condition is falsy.
pub const FALSE_OUT_SLOT: &'static str = "false_out";

/// Typed errors surfaced by [`Branch::invoke`].
#[derive(Debug, Clone, Copy, PartialEq, Eq)]
pub enum BranchError {
    /// The input did not carry a `condition` entry.
    MissingCondition,
    /// The input did not carry a `value` entry.
    MissingValue,
}

/// The text a `branch` error renders as.
pub open spec fn branch_error_text(e: BranchError) -> Seq<char> {
    match e {
        BranchError::MissingCondition => "branch input missing `condition` slot"@,
        BranchError::MissingValue => "branch input missing `value` slot"@,
    }
}

impl BranchError {
    /// Human-readable message.
    pub fn message(&self) -> (m: String)
        ensures
            m@ == branch_error_text(*self),
    {
        match self {
            BranchError::MissingCondition => String::from_str("branch input missing `condition` slot"),
            BranchError::MissingValue => String::from_str("branch input missing `value` slot"),
        }
    }
}

impl BranchError {
    /// The node error this surfaces as.
    pub fn into_node_error(self) -> (n: NodeError)
        ensures
            n == NodeError::Other(KindError::Branch(self)),
    {
        NodeError::Other(KindError::Branch(self))
    }
}


/// A JSON number other than zero.
pub open spec fn number_is_nonzero(n: JsonNumber) -> bool {
    match n {
        JsonNumber::PosInt(u) => u != 0,
        JsonNumber::NegInt(_) => true,
        JsonNumber::Float(bits) => !f64_is_zero(bits),
    }
}

/// Truthiness of a JSON value: `false`, `null`, `0`, and empty strings,
/// arrays and objects are falsy.
pub open spec fn json_truthy(j: JsonValue) -> bool {
    match j {
        JsonValue::Null => false,
        JsonValue::Bool(b) => b,
        JsonValue::Number(n) => number_is_nonzero(n),
        JsonValue::String(s) => s@.len() > 0,
        JsonValue::Array(a) => a@.len() > 0,
        JsonValue::Object(o) => o@.len() > 0,
    }
}

/// Truthiness of a slot value: `Null`, `false`, zero, NaN and empty text,
/// bytes or JSON are falsy.
pub open spec fn slot_truthy(v: SlotValue) -> bool {
    match v {
        SlotValue::Null => false,
        SlotValue::Bool(b) => b,
        SlotValue::Int(n) => n != 0,
        SlotValue::Float(bits) => !f64_is_zero(bits) && !f64_is_nan(bits),
        SlotValue::String(s) => s@.len() > 0,
        SlotValue::Bytes(b) => b@.len() > 0,
        SlotValue::Json(j) => json_truthy(j),
    }
}

/// Truthiness as the branch node routes by it: an integer is truthy exactly
/// when it is not zero (whatever its sign), a boolean is itself, `Null` is
/// falsy, and a text is truthy exactly when it is not empty.
pub proof fn lemma_slot_truthiness(n: i64, x: bool, t: String)
    ensures
        slot_truthy(SlotValue::Int(n)) <==> n != 0,
        slot_truthy(SlotValue::Int(n)) == slot_truthy(SlotValue::Int(-n as i64)) || n == i64::MIN,
        slot_truthy(SlotValue::Bool(x)) == x,
        !slot_truthy(SlotValue::Null),
        slot_truthy(SlotValue::String(t)) <==> t@.len() > 0,
{
}

/// Decide the truthiness of a slot value.
pub fn is_truthy(v: &SlotValue) -> (b: bool)
    ensures
        b == slot_truthy(*v),
        *v matches SlotValue::Int(n) ==> (b <==> n != 0),
        *v matches SlotValue::Bool(x) ==> b == x,
        *v is Null ==> !b,
        *v matches SlotValue::String(t) ==> (b <==> t@.len() > 0),
{
    match v {
        SlotValue::Null => false,
        SlotValue::Bool(b) => *b,
        SlotValue::Int(n) => *n != 0,
        SlotValue::Float(bits) => !float_is_zero(*bits) && !float_is_nan(*bits),
        SlotValue::String(s) => s.as_str().unicode_len() > 0,
        SlotValue::Bytes(b) => b.len() > 0,
        SlotValue::Json(j) => match j {
            JsonValue::Null => false,
            JsonValue::Bool(b) => *b,
            JsonValue::Number(n) => match n {
                JsonNumber::PosInt(u) => *u != 0,
                JsonNumber::NegInt(_) => true,
                JsonNumber::Float(bits) => !float_is_zero(*bits),
            },
            JsonValue::String(s) => s.as_str().unicode_len() > 0,
            JsonValue::Array(a) => a.len() > 0,
            JsonValue::Object(o) => o.len() > 0,
        },
    }
}

/// `branch` node-kind body.
pub struct Branch {
    kind: KindId,
}

impl Branch {
    /// Construct a `branch` body.
    pub fn new() -> (b: Branch)
        ensures
            b.kind_id()@ == KIND_ID@,
    {
        proof {
            reveal_strlit("starter.flow.branch");
            assert(KIND_ID@[7] == '.');
        }
        Branch { kind: KindId::from_valid(KIND_ID) }
    }

    /// The kind id this body implements.
    pub closed spec fn kind_id(&self) -> KindId {
        self.kind
    }
}

impl Branch {
    /// Route `value` by the truthiness of `condition`.
    ///
    /// A missing `condition` is reported before a missing `value`; a
    /// cancelled run is reported once both are present.
    pub fn invoke(&self, ctx: &NodeCtx, input: SlotMap) -> (r: Result<SlotMap, NodeError>)
        ensures
            lookup(input@, CONDITION_SLOT@) is None ==> r == Err::<SlotMap, NodeError>(
                NodeError::Other(KindError::Branch(BranchError::MissingCondition)),
            ),
            lookup(input@, CONDITION_SLOT@) is Some && lookup(input@, VALUE_SLOT@) is None ==> r
                == Err::<SlotMap, NodeError>(
                NodeError::Other(KindError::Branch(BranchError::MissingValue)),
            ),
            lookup(input@, CONDITION_SLOT@) is Some && lookup(input@, VALUE_SLOT@) is Some
                && ctx.cancelled ==> r == Err::<SlotMap, NodeError>(NodeError::Cancelled),
            !ctx.cancelled ==> (lookup(input@, CONDITION_SLOT@) matches Some(SlotValue::Int(n)) ==> (lookup(
                input@,
                VALUE_SLOT@,
            ) matches Some(v) ==> (r matches Ok(out) && out@.len() == 1 && out@[0].1 == v && (out@[0].0
                == TRUE_OUT_SLOT@ <==> n != 0) && (out@[0].0 == FALSE_OUT_SLOT@ <==> n == 0)))),
            !ctx.cancelled ==> (lookup(input@, CONDITION_SLOT@) matches Some(c) ==> (lookup(
                input@,
                VALUE_SLOT@,
            ) matches Some(v) ==> (r matches Ok(out) && out@ == seq![
                (
                    if slot_truthy(c) {
                        TRUE_OUT_SLOT@
                    } else {
                        FALSE_OUT_SLOT@
                    },
                    v,
                ),
            ]))),
    {
        proof {
            reveal_strlit("condition");
            reveal_strlit("value");
            reveal_strlit("true_out");
            reveal_strlit("false_out");
            assert(TRUE_OUT_SLOT@[0] != FALSE_OUT_SLOT@[0]);
        }
        let mut input = input;
        let condition = match input.remove(CONDITION_SLOT) {
            Some(c) => c,
            None => return Err(NodeError::Other(KindError::Branch(BranchError::MissingCondition))),
        };
        assert(CONDITION_SLOT@[0] != VALUE_SLOT@[0]);
        let value = match input.remove(VALUE_SLOT) {
            Some(v) => v,
            None => return Err(NodeError::Other(KindError::Branch(BranchError::MissingValue))),
        };
        let taken = is_truthy(&condition);
        if ctx.cancelled {
            return Err(NodeError::Cancelled);
        }
        if taken {
            Ok(SlotMap::singleton(String::from_str(TRUE_OUT_SLOT), value))
        } else {
            Ok(SlotMap::singleton(String::from_str(FALSE_OUT_SLOT), value))
        }
    }
}

} // verus!
