//! `merge` — fan-in join: combines the input slots delivered this
//! invocation into one `merged` output.

use vstd::prelude::*;
use vstd::string::*;

use crate::ids::KindId;
use crate::json::{spec_number_from_i64, JsonNumber, JsonValue};
use crate::node::{describes, NodeDescriptor, KindError, NodeCtx, NodeError};
use crate::slot::{f64_is_finite, float_is_finite, lookup, without, SlotMap, SlotValue};
use crate::text::text_eq;

verus! {

/// Reverse-DNS kind id.
pub const KIND_ID: &'static str = "starter.flow.merge";

/// Catalog entry of this kind.
pub fn descriptor() -> (d: NodeDescriptor)
    ensures
        describes(d, KIND_ID@, "merge"@),
        crate::ids::is_reverse_dns(d.kind@),
{
    proof {
        reveal_strlit("starter.flow.merge");
        reveal_strlit("merge");
        reveal_strlit("starter.flow.node.");
        reveal_strlit("label");
        reveal_strlit("summary");
        reveal_strlit("help");
        reveal_strlit("starter.flow.node.merge.label");
        reveal_strlit("starter.flow.node.merge.summary");
        reveal_strlit("starter.flow.node.merge.help");
        assert(KIND_ID@[7] == '.');
    }
    let d = NodeDescriptor::new(
        KIND_ID,
        "starter.flow.node.merge.label",
        "starter.flow.node.merge.summary",
        "starter.flow.node.merge.help",
    );
    assert(d.label_key@ =~= crate::node::catalog_key("merge"@, "label"@));
    assert(d.summary_key@ =~= crate::node::catalog_key("merge"@, "summary"@));
    assert(d.help_key@ =~= crate::node::catalog_key("merge"@, "help"@));
    d
}

/// Optional config slot naming the combine strategy.
pub const STRATEGY_SLOT: &'static str = "strategy";

/// Output slot the consolidated value is written to.
pub const MERGED_SLOT: &'static str = "merged";

/// How the body combines its inputs.
#[derive(Debug, Clone, Copy, PartialEq, Eq)]
pub enum Strategy {
    /// A JSON object keyed by input slot name.
    Object,
    /// A JSON array of input values in slot-name order.
    Array,
    /// The single input value verbatim.
    First,
}

/// Typed errors surfaced by [`Merge::invoke`].
#[derive(Debug)]
pub enum MergeError {
    /// Invoked with no input slot.
    EmptyInput,
    /// `strategy` present but not a string.
    InvalidStrategyType,
    /// `strategy` a string other than `object|array|first`.
    InvalidStrategy(String),
    /// `first` strategy with other than one input; carries the count.
    FirstNeedsOneInput(usize),
}

/// The text a `merge` error renders as.
pub open spec fn merge_error_text(e: MergeError) -> Seq<char> {
    match e {
        MergeError::EmptyInput => "merge invoked with empty input"@,
        MergeError::InvalidStrategyType => "merge `strategy` must be SlotValue::String"@,
        MergeError::InvalidStrategy(s) => "merge `strategy` must be object|array|first; got `"@ + s@ + "`"@,
        MergeError::FirstNeedsOneInput(n) => "merge strategy `first` requires exactly one input, got "@ + crate::decimal::decimal(n as nat),
    }
}

impl MergeError {
    /// Human-readable message.
    pub fn message(&self) -> (m: String)
        ensures
            m@ == merge_error_text(*self),
    {
        match self {
            MergeError::EmptyInput => String::from_str("merge invoked with empty input"),
            MergeError::InvalidStrategyType => String::from_str("merge `strategy` must be SlotValue::String"),
            MergeError::InvalidStrategy(s) => String::from_str("merge `strategy` must be object|array|first; got `").concat(s.as_str()).concat("`"),
            MergeError::FirstNeedsOneInput(n) => String::from_str("merge strategy `first` requires exactly one input, got ").concat(crate::decimal::format_u64(*n as u64).as_str()),
        }
    }
}

impl MergeError {
    /// The node error this surfaces as.
    pub fn into_node_error(self) -> (n: NodeError)
        ensures
            n == NodeError::Other(KindError::Merge(self)),
    {
        NodeError::Other(KindError::Merge(self))
    }
}


/// The strategy a name selects.
pub open spec fn strategy_named(s: Seq<char>) -> Option<Strategy> {
    if s == "object"@ {
        Some(Strategy::Object)
    } else if s == "array"@ {
        Some(Strategy::Array)
    } else if s == "first"@ {
        Some(Strategy::First)
    } else {
        None
    }
}

impl Strategy {
    /// Parse a strategy name.
    pub fn parse(s: String) -> (r: Result<Strategy, MergeError>)
        ensures
            strategy_named(s@) matches Some(st) ==> r == Ok::<Strategy, MergeError>(st),
            strategy_named(s@) is None ==> r == Err::<Strategy, MergeError>(
                MergeError::InvalidStrategy(s),
            ),
    {
        if text_eq(s.as_str(), "object") {
            Ok(Strategy::Object)
        } else if text_eq(s.as_str(), "array") {
            Ok(Strategy::Array)
        } else if text_eq(s.as_str(), "first") {
            Ok(Strategy::First)
        } else {
            Err(MergeError::InvalidStrategy(s))
        }
    }

    /// The strategy's name.
    pub fn as_str(self) -> (r: &'static str)
        ensures
            strategy_named(r@) == Some(self),
    {
        proof {
            reveal_strlit("object");
            reveal_strlit("array");
            reveal_strlit("first");
        }
        match self {
            Strategy::Object => "object",
            Strategy::Array => "array",
            Strategy::First => {
                assert("first"@ != "object"@ && "first"@ != "array"@) by {
                    assert("first"@[0] != "object"@[0]);
                    assert("first"@[0] != "array"@[0]);
                }
                "first"
            },
        }
    }
}

/// `j` is the JSON form of slot value `v`: `Bytes` become an array of byte
/// numbers, non-finite floats become `null`, JSON passes through.
pub open spec fn is_json_of(v: SlotValue, j: JsonValue) -> bool {
    match v {
        SlotValue::Null => j == JsonValue::Null,
        SlotValue::Bool(b) => j == JsonValue::Bool(b),
        SlotValue::Int(n) => j == JsonValue::Number(spec_number_from_i64(n)),
        SlotValue::Float(bits) => if f64_is_finite(bits) {
            j == JsonValue::Number(JsonNumber::Float(bits))
        } else {
            j == JsonValue::Null
        },
        SlotValue::String(s) => j == JsonValue::String(s),
        SlotValue::Bytes(b) => j matches JsonValue::Array(items) && items@.len() == b@.len() && (
        forall|i: int|
            0 <= i < b@.len() ==> #[trigger] items@[i] == JsonValue::Number(
                JsonNumber::PosInt(b@[i] as u64),
            )),
        SlotValue::Json(inner) => j == inner,
    }
}

/// The JSON form of a slot value.
pub fn slot_to_json(v: SlotValue) -> (j: JsonValue)
    ensures
        is_json_of(v, j),
{
    match v {
        SlotValue::Null => JsonValue::Null,
        SlotValue::Bool(b) => JsonValue::Bool(b),
        SlotValue::Int(n) => JsonValue::Number(JsonNumber::from_i64(n)),
        SlotValue::Float(bits) => if float_is_finite(bits) {
            JsonValue::Number(JsonNumber::Float(bits))
        } else {
            JsonValue::Null
        },
        SlotValue::String(s) => JsonValue::String(s),
        SlotValue::Bytes(b) => {
            let mut items: Vec<JsonValue> = Vec::new();
            let mut i: usize = 0;
            while i < b.len()
                invariant
                    0 <= i <= b@.len(),
                    items@.len() == i,
                    forall|k: int|
                        0 <= k < i ==> #[trigger] items@[k] == JsonValue::Number(
                            JsonNumber::PosInt(b@[k] as u64),
                        ),
                decreases b@.len() - i,
            {
                items.push(JsonValue::Number(JsonNumber::PosInt(b[i] as u64)));
                i = i + 1;
            }
            JsonValue::Array(items)
        },
        SlotValue::Json(inner) => inner,
    }
}

/// Each strategy name selects its own strategy, and an input that names
/// none merges as an object of all its entries.
pub proof fn lemma_strategy_selection(input: Seq<(Seq<char>, SlotValue)>)
    ensures
        strategy_named("object"@) == Some(Strategy::Object),
        strategy_named("array"@) == Some(Strategy::Array),
        strategy_named("first"@) == Some(Strategy::First),
        lookup(input, STRATEGY_SLOT@) is None ==> selected_strategy(input) == Ok::<Strategy, ()>(
            Strategy::Object,
        ) && without(input, STRATEGY_SLOT@) == input,
{
    reveal_strlit("object");
    reveal_strlit("array");
    reveal_strlit("first");
    assert("array"@[0] != "object"@[0]);
    assert("first"@[0] != "object"@[0] && "first"@[0] != "array"@[0]);
}

/// The strategy an input selects, or the error it raises.
pub open spec fn selected_strategy(input: Seq<(Seq<char>, SlotValue)>) -> Result<Strategy, ()> {
    match lookup(input, STRATEGY_SLOT@) {
        None => Ok(Strategy::Object),
        Some(SlotValue::String(s)) => match strategy_named(s@) {
            Some(st) => Ok(st),
            None => Err(()),
        },
        Some(_) => Err(()),
    }
}

/// `merged` is the object strategy's output for `rest`.
pub open spec fn is_object_merge(rest: Seq<(Seq<char>, SlotValue)>, merged: SlotValue) -> bool {
    merged matches SlotValue::Json(JsonValue::Object(members)) && members@.len() == rest.len() && (
    forall|i: int|
        0 <= i < rest.len() ==> #[trigger] members@[i].0@ == rest[i].0 && is_json_of(
            rest[i].1,
            members@[i].1,
        ))
}

/// `merged` is the array strategy's output for `rest`.
pub open spec fn is_array_merge(rest: Seq<(Seq<char>, SlotValue)>, merged: SlotValue) -> bool {
    merged matches SlotValue::Json(JsonValue::Array(items)) && items@.len() == rest.len() && (
    forall|i: int| 0 <= i < rest.len() ==> is_json_of(rest[i].1, #[trigger] items@[i]))
}

/// `merge` node-kind body.
pub struct Merge {
    kind: KindId,
}

impl Merge {
    /// Construct a `merge` body.
    pub fn new() -> (m: Merge)
        ensures
            m.kind_id()@ == KIND_ID@,
    {
        proof {
            reveal_strlit("starter.flow.merge");
            assert(KIND_ID@[7] == '.');
        }
        Merge { kind: KindId::from_valid(KIND_ID) }
    }

    /// The kind id this body implements.
    pub closed spec fn kind_id(&self) -> KindId {
        self.kind
    }

    /// Combine the delivered inputs by the selected strategy.
    ///
    /// Errors come in this order: a bad `strategy`, no other input, a
    /// cancelled run, and for `first` a count other than one.
    pub fn invoke(&self, ctx: &NodeCtx, input: SlotMap) -> (r: Result<SlotMap, NodeError>)
        ensures
            ({
                let rest = without(input@, STRATEGY_SLOT@);
                &&& match lookup(input@, STRATEGY_SLOT@) {
                    Some(SlotValue::String(s)) => strategy_named(s@) is None ==> r == Err::<
                        SlotMap,
                        NodeError,
                    >(NodeError::Other(KindError::Merge(MergeError::InvalidStrategy(s)))),
                    Some(_) => true,
                    None => true,
                }
                &&& (lookup(input@, STRATEGY_SLOT@) matches Some(v) && !(v is String)) ==> r
                    == Err::<SlotMap, NodeError>(
                    NodeError::Other(KindError::Merge(MergeError::InvalidStrategyType)),
                )
                &&& selected_strategy(input@) is Ok && rest.len() == 0 ==> r == Err::<
                    SlotMap,
                    NodeError,
                >(NodeError::Other(KindError::Merge(MergeError::EmptyInput)))
                &&& selected_strategy(input@) is Ok && rest.len() > 0 && ctx.cancelled ==> r
                    == Err::<SlotMap, NodeError>(NodeError::Cancelled)
                &&& lookup(input@, STRATEGY_SLOT@) is None && input@.len() > 0 && !ctx.cancelled ==> (r matches Ok(
                    out,
                ) && (out@[0].1 matches SlotValue::Json(JsonValue::Object(members)) && out@.len() == 1
                    && out@[0].0 == MERGED_SLOT@ && members@.len() == input@.len() && forall|i: int|
                    0 <= i < input@.len() ==> #[trigger] members@[i].0@ == input@[i].0 && is_json_of(
                        input@[i].1,
                        members@[i].1,
                    )))
                &&& (lookup(input@, STRATEGY_SLOT@) matches Some(SlotValue::String(s)) && s@ == "array"@)
                    && rest.len() > 0 && !ctx.cancelled ==> (r matches Ok(out) && (out@[0].1 matches SlotValue::Json(
                    JsonValue::Array(items),
                ) && out@.len() == 1 && out@[0].0 == MERGED_SLOT@ && items@.len() == rest.len() && forall|i: int|
                    0 <= i < rest.len() ==> is_json_of(rest[i].1, #[trigger] items@[i])))
                &&& (lookup(input@, STRATEGY_SLOT@) matches Some(SlotValue::String(s)) && s@ == "object"@)
                    && rest.len() > 0 && !ctx.cancelled ==> (r matches Ok(out) && (out@[0].1 matches SlotValue::Json(
                    JsonValue::Object(members),
                ) && out@.len() == 1 && out@[0].0 == MERGED_SLOT@ && members@.len() == rest.len() && forall|
                    i: int,
                |
                    0 <= i < rest.len() ==> #[trigger] members@[i].0@ == rest[i].0 && is_json_of(
                        rest[i].1,
                        members@[i].1,
                    )))
                &&& selected_strategy(input@) == Ok::<Strategy, ()>(Strategy::Object) && rest.len()
                    > 0 && !ctx.cancelled ==> (r matches Ok(out) && out@.len() == 1 && out@[0].0
                    == MERGED_SLOT@ && is_object_merge(rest, out@[0].1))
                &&& selected_strategy(input@) == Ok::<Strategy, ()>(Strategy::Array) && rest.len()
                    > 0 && !ctx.cancelled ==> (r matches Ok(out) && out@.len() == 1 && out@[0].0
                    == MERGED_SLOT@ && is_array_merge(rest, out@[0].1))
                &&& selected_strategy(input@) == Ok::<Strategy, ()>(Strategy::First) && rest.len()
                    > 1 && !ctx.cancelled ==> r == Err::<SlotMap, NodeError>(
                    NodeError::Other(
                        KindError::Merge(MergeError::FirstNeedsOneInput(rest.len() as usize)),
                    ),
                )
                &&& selected_strategy(input@) == Ok::<Strategy, ()>(Strategy::First) && rest.len()
                    == 1 && !ctx.cancelled ==> (r matches Ok(out) && out@ == seq![
                    (MERGED_SLOT@, rest[0].1),
                ])
            }),
    {
        proof {
            lemma_strategy_selection(input@);
        }
        let mut input = input;
        let strategy = match input.remove(STRATEGY_SLOT) {
            None => Strategy::Object,
            Some(SlotValue::String(s)) => match Strategy::parse(s) {
                Ok(st) => st,
                Err(e) => return Err(NodeError::Other(KindError::Merge(e))),
            },
            Some(_) => return Err(NodeError::Other(KindError::Merge(MergeError::InvalidStrategyType))),
        };
        if input.is_empty() {
            return Err(NodeError::Other(KindError::Merge(MergeError::EmptyInput)));
        }
        if ctx.cancelled {
            return Err(NodeError::Cancelled);
        }
        let n = input.len();
        let ghost rest = input@;
        let merged = match strategy {
            Strategy::Object => {
                let mut members: Vec<(String, JsonValue)> = Vec::new();
                let mut i: usize = 0;
                while i < n
                    invariant
                        n == rest.len(),
                        0 <= i <= n,
                        input@ == rest.subrange(i as int, n as int),
                        members@.len() == i,
                        forall|k: int|
                            0 <= k < i ==> #[trigger] members@[k].0@ == rest[k].0 && is_json_of(
                                rest[k].1,
                                members@[k].1,
                            ),
                    decreases n - i,
                {
                    let e = input.pop_first().unwrap();
                    let j = slot_to_json(e.1);
                    members.push((e.0, j));
                    assert(input@ =~= rest.subrange(i + 1, n as int));
                    i = i + 1;
                }
                SlotValue::Json(JsonValue::Object(members))
            },
            Strategy::Array => {
                let mut items: Vec<JsonValue> = Vec::new();
                let mut i: usize = 0;
                while i < n
                    invariant
                        n == rest.len(),
                        0 <= i <= n,
                        input@ == rest.subrange(i as int, n as int),
                        items@.len() == i,
                        forall|k: int| 0 <= k < i ==> is_json_of(rest[k].1, #[trigger] items@[k]),
                    decreases n - i,
                {
                    let e = input.pop_first().unwrap();
                    items.push(slot_to_json(e.1));
                    assert(input@ =~= rest.subrange(i + 1, n as int));
                    i = i + 1;
                }
                SlotValue::Json(JsonValue::Array(items))
            },
            Strategy::First => {
                if n != 1 {
                    return Err(
                        NodeError::Other(KindError::Merge(MergeError::FirstNeedsOneInput(n))),
                    );
                }
                let e = input.pop_first().unwrap();
                e.1
            },
        };
        Ok(SlotMap::singleton(String::from_str(MERGED_SLOT), merged))
    }
}

} // verus!
