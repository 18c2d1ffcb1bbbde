//! `transform` — a stateless map over slot values by a host-registered
//! function chosen by the `fn_id` input.
//!
//! The library decides what the input selects and how each outcome is
//! reported; running the registered function (and catching its panic) is
//! the host's work.

use vstd::prelude::*;
use vstd::string::*;

use crate::ids::KindId;
use crate::node::{KindError, NodeError};
use crate::slot::{lookup, without, SlotMap, SlotValue};

verus! {

/// Reverse-DNS kind id.
pub const KIND_ID: &'static str = "starter.flow.transform";

/// Input slot naming the registered function to run.
pub const FN_ID_SLOT: &'static str = "fn_id";

/// Typed errors surfaced by `transform`.
#[derive(Debug)]
pub enum TransformError {
    /// No string `fn_id` entry.
    MissingFnId,
    /// No function registered under the id.
    UnregisteredFn(String),
    /// The registered function panicked.
    Panicked {
        /// The function's id.
        fn_id: String,
        /// The panic payload, rendered.
        message: String,
    },
}

/// The text a transform error renders as.
pub open spec fn transform_error_text(e: TransformError) -> Seq<char> {
    match e {
        TransformError::MissingFnId => "transform input missing `fn_id` slot (must be SlotValue::String naming a registered function)"@,
        TransformError::UnregisteredFn(id) => "transform function not registered: "@ + id@,
        TransformError::Panicked { fn_id, message } => "transform function `"@ + fn_id@ + "` panicked: "@
            + message@,
    }
}

impl TransformError {
    /// Human-readable message.
    pub fn message(&self) -> (m: String)
        ensures
            m@ == transform_error_text(*self),
    {
        match self {
            TransformError::MissingFnId => String::from_str(
                "transform input missing `fn_id` slot (must be SlotValue::String naming a registered function)",
            ),
            TransformError::UnregisteredFn(id) => String::from_str(
                "transform function not registered: ",
            ).concat(id.as_str()),
            TransformError::Panicked { fn_id, message } => String::from_str("transform function `").concat(
                fn_id.as_str(),
            ).concat("` panicked: ").concat(message.as_str()),
        }
    }

    /// The node error this surfaces as.
    pub fn into_node_error(self) -> (e: NodeError)
        ensures
            e == NodeError::Other(KindError::Transform(self)),
    {
        NodeError::Other(KindError::Transform(self))
    }
}

/// What a caught panic carried.
#[derive(Debug)]
pub enum PanicPayload {
    /// A string payload (`&'static str` or `String`).
    Text(String),
    /// Any other payload.
    Opaque,
}

/// The text a panic payload renders as.
pub fn panic_payload_to_string(payload: PanicPayload) -> (s: String)
    ensures
        payload matches PanicPayload::Text(t) ==> s@ == t@,
        payload is Opaque ==> s@ == "<non-string panic payload>"@,
{
    match payload {
        PanicPayload::Text(t) => t,
        PanicPayload::Opaque => String::from_str("<non-string panic payload>"),
    }
}

/// The lowercase variant name of a slot value.
pub open spec fn value_kind(v: SlotValue) -> Seq<char> {
    match v {
        SlotValue::Null => "null"@,
        SlotValue::Bool(_) => "bool"@,
        SlotValue::Int(_) => "int"@,
        SlotValue::Float(_) => "float"@,
        SlotValue::String(_) => "string"@,
        SlotValue::Bytes(_) => "bytes"@,
        SlotValue::Json(_) => "json"@,
    }
}

/// The lowercase variant name of a slot value.
pub fn slot_value_kind(v: &SlotValue) -> (r: &'static str)
    ensures
        r@ == value_kind(*v),
{
    match v {
        SlotValue::Null => "null",
        SlotValue::Bool(_) => "bool",
        SlotValue::Int(_) => "int",
        SlotValue::Float(_) => "float",
        SlotValue::String(_) => "string",
        SlotValue::Bytes(_) => "bytes",
        SlotValue::Json(_) => "json",
    }
}

/// `name=kind` entries joined by `, `.
pub open spec fn kinds_list(s: Seq<(Seq<char>, SlotValue)>) -> Seq<char>
    decreases s.len(),
{
    if s.len() == 0 {
        Seq::empty()
    } else if s.len() == 1 {
        s[0].0 + seq!['='] + value_kind(s[0].1)
    } else {
        kinds_list(s.drop_last()) + seq![',', ' '] + s.last().0 + seq!['='] + value_kind(s.last().1)
    }
}

/// The shape of a slot map: `{a=int, b=string}`, entries in name order.
pub open spec fn map_kind(s: Seq<(Seq<char>, SlotValue)>) -> Seq<char> {
    seq!['{'] + kinds_list(s) + seq!['}']
}

/// The shape of a slot map, for observability.
pub fn slot_map_kind(map: &SlotMap) -> (r: String)
    ensures
        r@ == map_kind(map@),
{
    let mut s = String::new();
    crate::text::push_char(&mut s, '{');
    let n = map.len();
    let mut i: usize = 0;
    while i < n
        invariant
            n == map@.len(),
            0 <= i <= n,
            s@ == seq!['{'] + kinds_list(map@.take(i as int)),
        decreases n - i,
    {
        let (k, v) = map.entry_at(i);
        if i > 0 {
            crate::text::push_char(&mut s, ',');
            crate::text::push_char(&mut s, ' ');
        }
        s.append(k.as_str());
        crate::text::push_char(&mut s, '=');
        s.append(slot_value_kind(v));
        assert(map@.take(i + 1).drop_last() =~= map@.take(i as int));
        assert(map@.take(i + 1).last() == map@[i as int]);
        assert(s@ =~= seq!['{'] + kinds_list(map@.take(i + 1)));
        i = i + 1;
    }
    assert(map@.take(n as int) =~= map@);
    crate::text::push_char(&mut s, '}');
    s
}

/// `transform` node-kind body. The host holds the function registry.
pub struct Transform {
    kind: KindId,
}

impl Transform {
    /// Construct a `transform` body.
    pub fn new() -> (t: Transform)
        ensures
            t.kind_id()@ == KIND_ID@,
    {
        proof {
            reveal_strlit("starter.flow.transform");
            assert(KIND_ID@[7] == '.');
        }
        Transform { kind: KindId::from_valid(KIND_ID) }
    }

    /// The kind id this body implements.
    pub closed spec fn kind_id(&self) -> KindId {
        self.kind
    }

    /// Split the input into the selected function id and the payload the
    /// function receives (the input without `fn_id`). A missing or
    /// non-string `fn_id` is `MissingFnId`.
    pub fn select(&self, input: SlotMap) -> (r: Result<(String, SlotMap), NodeError>)
        ensures
            lookup(input@, FN_ID_SLOT@) matches Some(SlotValue::String(f)) ==> (r matches Ok((id, rest)) && id@
                == f@ && rest@ == without(input@, FN_ID_SLOT@)),
            !(lookup(input@, FN_ID_SLOT@) matches Some(SlotValue::String(_))) ==> r == Err::<
                (String, SlotMap),
                NodeError,
            >(NodeError::Other(KindError::Transform(TransformError::MissingFnId))),
    {
        let mut input = input;
        match input.remove(FN_ID_SLOT) {
            Some(SlotValue::String(s)) => Ok((s, input)),
            _ => Err(TransformError::MissingFnId.into_node_error()),
        }
    }

    /// The failure of an id no function is registered under.
    pub fn unregistered(fn_id: String) -> (e: NodeError)
        ensures
            e == NodeError::Other(KindError::Transform(TransformError::UnregisteredFn(fn_id))),
    {
        TransformError::UnregisteredFn(fn_id).into_node_error()
    }

    /// The failure of a function that panicked with `payload`.
    pub fn panicked(fn_id: String, payload: PanicPayload) -> (e: NodeError)
        ensures
            e matches NodeError::Other(KindError::Transform(TransformError::Panicked { fn_id: f, message }))
                && f == fn_id && (payload matches PanicPayload::Text(t) ==> message@ == t@) && (payload is Opaque
                ==> message@ == "<non-string panic payload>"@),
    {
        let message = panic_payload_to_string(payload);
        TransformError::Panicked { fn_id, message }.into_node_error()
    }
}

} // verus!
