//! `counter` — a durable tick counter: each invocation reads the persisted
//! count (or the configured initial value), adds the step, persists the sum
//! and emits it on `out`.

use vstd::prelude::*;
use vstd::string::*;

use crate::decimal::{
    format_i64, int_error_text, lemma_signed_decimal_roundtrip, parse_i64, parse_i64_spec, signed_decimal,
};
use crate::ids::KindId;
use crate::node::{describes, NodeDescriptor, EditKind, NodeCtx, NodeError};
use crate::slot::{lookup, SlotMap, SlotValue};
use crate::state::{state_error_text, NodeStateError, NodeStateKey, NodeStateStore, NodeStateValue};
use crate::text::{decode_utf8_text, utf8_error_text};

verus! {

/// Reverse-DNS kind id.
pub const KIND_ID: &'static str = "starter.flow.counter";

/// Catalog entry of this kind.
pub fn descriptor() -> (d: NodeDescriptor)
    ensures
        describes(d, KIND_ID@, "counter"@),
        crate::ids::is_reverse_dns(d.kind@),
{
    proof {
        reveal_strlit("starter.flow.counter");
        reveal_strlit("counter");
        reveal_strlit("starter.flow.node.");
        reveal_strlit("label");
        reveal_strlit("summary");
        reveal_strlit("help");
        reveal_strlit("starter.flow.node.counter.label");
        reveal_strlit("starter.flow.node.counter.summary");
        reveal_strlit("starter.flow.node.counter.help");
        assert(KIND_ID@[7] == '.');
    }
    let d = NodeDescriptor::new(
        KIND_ID,
        "starter.flow.node.counter.label",
        "starter.flow.node.counter.summary",
        "starter.flow.node.counter.help",
    );
    assert(d.label_key@ =~= crate::node::catalog_key("counter"@, "label"@));
    assert(d.summary_key@ =~= crate::node::catalog_key("counter"@, "summary"@));
    assert(d.help_key@ =~= crate::node::catalog_key("counter"@, "help"@));
    d
}

/// Optional input slot (reserved so a trigger can be chained in).
pub const IN_SLOT: &'static str = "in";

/// Output slot carrying the new count.
pub const OUT_SLOT: &'static str = "out";

/// Key the count is persisted under.
pub const STATE_KEY: &'static str = "count";

/// Publish-time settings of a `counter` node.
#[derive(Debug, Clone, Copy, PartialEq, Eq)]
pub struct CounterSettings {
    /// Added to the count on every invocation.
    pub step: i64,
    /// Count used when none is persisted.
    pub initial: i64,
    /// Clear the persisted count on every redeploy.
    pub reset_on_redeploy: bool,
}

/// The default step: `1`.
pub fn default_step() -> (s: i64)
    ensures
        s == 1,
{
    1
}

impl Default for CounterSettings {
    fn default() -> (s: CounterSettings)
        ensures
            s.step == 1,
            s.initial == 0,
            !s.reset_on_redeploy,
    {
        CounterSettings { step: default_step(), initial: 0, reset_on_redeploy: false }
    }
}

/// `a + b`, held to the `i64` range.
pub open spec fn saturating_sum(a: i64, b: i64) -> i64 {
    if a + b > i64::MAX {
        i64::MAX
    } else if a + b < i64::MIN {
        i64::MIN
    } else {
        (a + b) as i64
    }
}

/// `i64::saturating_add`.
pub fn saturating_add_i64(a: i64, b: i64) -> (r: i64)
    ensures
        r == saturating_sum(a, b),
{
    match a.checked_add(b) {
        Some(v) => v,
        None => if b > 0 {
            i64::MAX
        } else {
            i64::MIN
        },
    }
}

/// The persisted form of a count: its decimal text as UTF-8.
pub open spec fn count_bytes(n: i64) -> Seq<u8> {
    vstd::utf8::encode_utf8(signed_decimal(n as int))
}

/// What reading persisted text as a count gives.
pub open spec fn count_from_text_spec(text: Result<Seq<char>, Seq<char>>) -> Result<i64, Seq<char>> {
    match text {
        Err(t) => Err("counter: state value not utf-8: "@ + t),
        Ok(s) => match parse_i64_spec(s) {
            Ok(n) => Ok(n as i64),
            Err(e) => Err("counter: state value not i64 (`"@ + s + "`): "@ + int_error_text(e)),
        },
    }
}

/// A result of texts as views.
pub open spec fn text_result(r: Result<String, String>) -> Result<Seq<char>, Seq<char>> {
    match r {
        Ok(s) => Ok(s@),
        Err(t) => Err(t@),
    }
}

/// Read a count from the decoded text of persisted bytes (or the decoding
/// error): a backend error when the bytes were not UTF-8 or the text is not
/// an `i64`.
pub fn count_from_text(text: Result<String, String>) -> (r: Result<i64, NodeError>)
    ensures
        count_from_text_spec(text_result(text)) matches Ok(n) ==> r == Ok::<i64, NodeError>(n),
        count_from_text_spec(text_result(text)) matches Err(m) ==> (r matches Err(NodeError::Backend(t)) && t@
            == m),
{
    match text {
        Err(t) => {
            let m = String::from_str("counter: state value not utf-8: ");
            Err(NodeError::Backend(m.concat(t.as_str())))
        },
        Ok(s) => match parse_i64(s.as_str()) {
            Ok(n) => Ok(n),
            Err(e) => {
                let m = String::from_str("counter: state value not i64 (`");
                let m = m.concat(s.as_str()).concat("`): ");
                let t = e.message();
                Err(NodeError::Backend(m.concat(t.as_str())))
            },
        },
    }
}

/// The decoded text of persisted bytes, as the library knows it.
pub open spec fn decoded(bytes: Seq<u8>) -> Result<Seq<char>, Seq<char>> {
    if vstd::utf8::valid_utf8(bytes) {
        Ok(vstd::utf8::decode_utf8(bytes))
    } else {
        Err(utf8_error_text(bytes))
    }
}

/// Read a count from persisted bytes.
pub fn decode_count(bytes: &[u8]) -> (r: Result<i64, NodeError>)
    ensures
        count_from_text_spec(decoded(bytes@)) matches Ok(n) ==> r == Ok::<i64, NodeError>(n),
        count_from_text_spec(decoded(bytes@)) matches Err(m) ==> (r matches Err(NodeError::Backend(t)) && t@
            == m),
{
    let text = decode_utf8_text(bytes);
    assert(text_result(text) == decoded(bytes@));
    count_from_text(text)
}

/// The persisted form of a count.
pub fn encode_count(n: i64) -> (b: Vec<u8>)
    ensures
        b@ == count_bytes(n),
{
    let s = format_i64(n);
    s.as_str().as_bytes_vec()
}

/// A persisted count reads back as the same count: what an invocation
/// writes is what the next one reads.
pub proof fn lemma_count_roundtrip(n: i64)
    ensures
        count_from_text_spec(decoded(count_bytes(n))) == Ok::<i64, Seq<char>>(n),
{
    let s = signed_decimal(n as int);
    vstd::utf8::encode_utf8_valid_utf8(s);
    vstd::utf8::encode_utf8_decode_utf8(s);
    lemma_signed_decimal_roundtrip(n);
}

/// The store operation a failure came from.
#[derive(Debug, Clone, Copy, PartialEq, Eq)]
pub enum StateOp {
    /// Reading the count.
    Get,
    /// Writing the count.
    Put,
    /// Clearing the count.
    Delete,
}

/// The name of a store operation.
pub open spec fn op_name(op: StateOp) -> Seq<char> {
    match op {
        StateOp::Get => "get"@,
        StateOp::Put => "put"@,
        StateOp::Delete => "delete"@,
    }
}

/// One increment: the new count and the bytes to persist.
pub struct CountStep {
    /// The new count, emitted on `out`.
    pub next: i64,
    /// Its persisted form.
    pub bytes: Vec<u8>,
}

/// `counter` node-kind body.
pub struct Counter {
    kind: KindId,
    settings: CounterSettings,
}

impl Counter {
    /// A counter with the default settings.
    pub fn new() -> (c: Counter)
        ensures
            c.kind_id()@ == KIND_ID@,
            c.settings() == (CounterSettings { step: 1, initial: 0, reset_on_redeploy: false }),
    {
        Counter::with_settings(CounterSettings::default())
    }

    /// A counter with the given settings.
    pub fn with_settings(settings: CounterSettings) -> (c: Counter)
        ensures
            c.kind_id()@ == KIND_ID@,
            c.settings() == settings,
    {
        proof {
            reveal_strlit("starter.flow.counter");
            assert(KIND_ID@[7] == '.');
        }
        Counter { kind: KindId::from_valid(KIND_ID), settings }
    }

    /// The kind id this body implements.
    pub closed spec fn kind_id(&self) -> KindId {
        self.kind
    }

    /// The settings this body was built with.
    pub closed spec fn settings(&self) -> CounterSettings {
        self.settings
    }

    /// Begin an invocation: a cancelled run stops before any state is
    /// touched; otherwise the key the count lives under.
    pub fn prepare(&self, ctx: &NodeCtx) -> (r: Result<NodeStateKey, NodeError>)
        ensures
            ctx.cancelled ==> r matches Err(NodeError::Cancelled),
            !ctx.cancelled && ctx.flow is None ==> (r matches Err(NodeError::Domain { code, message }) && code@
                == "counter_requires_flow_ctx"@ && message@
                == "counter node requires NodeCtx::with_flow; engine wiring missing flow id"@),
            !ctx.cancelled && ctx.flow is Some ==> (r matches Ok(k) && k.flow_id@ == ctx.flow.unwrap()@
                && k.node_id@ == ctx.node@ && k.key@ == STATE_KEY@),
    {
        if ctx.cancelled {
            return Err(NodeError::Cancelled);
        }
        state_key(ctx)
    }

    /// Conclude the read: the count after this invocation and its persisted
    /// form. An absent value counts from the initial setting; the sum
    /// saturates at the `i64` bounds.
    pub fn advance(&self, stored: Option<NodeStateValue>) -> (r: Result<CountStep, NodeError>)
        ensures
            stored is None ==> (r matches Ok(s) && s.next == saturating_sum(
                self.settings().initial,
                self.settings().step,
            ) && s.bytes@ == count_bytes(s.next)),
            stored matches Some(v) ==> match count_from_text_spec(decoded(v.bytes@)) {
                Ok(n) => r matches Ok(s) && s.next == saturating_sum(n, self.settings().step) && s.bytes@
                    == count_bytes(s.next),
                Err(m) => r matches Err(NodeError::Backend(t)) && t@ == m,
            },
    {
        let prior = match stored {
            None => self.settings.initial,
            Some(v) => match decode_count(v.bytes.as_slice()) {
                Ok(n) => n,
                Err(e) => {
                    return Err(e);
                },
            },
        };
        let next = saturating_add_i64(prior, self.settings.step);
        Ok(CountStep { next, bytes: encode_count(next) })
    }

    /// The output of an invocation that persisted `next`.
    pub fn output(next: i64) -> (out: SlotMap)
        ensures
            out@ == seq![(OUT_SLOT@, SlotValue::Int(next))],
    {
        SlotMap::singleton(String::from_str(OUT_SLOT), SlotValue::Int(next))
    }

    /// The error a failed store operation surfaces as.
    pub fn state_failure(op: StateOp, e: &NodeStateError) -> (r: NodeError)
        ensures
            r matches NodeError::Backend(m) && m@ == "counter: state "@ + op_name(op) + " failed: "@ + state_error_text(*e),
    {
        let name: &str = match op {
            StateOp::Get => "get",
            StateOp::Put => "put",
            StateOp::Delete => "delete",
        };
        let m = String::from_str("counter: state ").concat(name).concat(" failed: ");
        let t = e.message();
        NodeError::Backend(m.concat(t.as_str()))
    }

    /// Whether a redeploy clears the persisted count: exactly when the
    /// settings ask for it, whatever the edit.
    pub fn resets_on_redeploy(&self, edit: EditKind) -> (b: bool)
        ensures
            b == self.settings().reset_on_redeploy,
    {
        self.settings.reset_on_redeploy
    }
}

/// The key a node's count is persisted under: the owning flow, the node, and
/// [`STATE_KEY`]. A context without a flow is a domain error.
pub fn state_key(ctx: &NodeCtx) -> (r: Result<NodeStateKey, NodeError>)
    ensures
        ctx.flow is None ==> (r matches Err(NodeError::Domain { code, message }) && code@
            == "counter_requires_flow_ctx"@ && message@
            == "counter node requires NodeCtx::with_flow; engine wiring missing flow id"@),
        ctx.flow is Some ==> (r matches Ok(k) && k.flow_id@ == ctx.flow.unwrap()@ && k.node_id@ == ctx.node@
            && k.key@ == STATE_KEY@),
{
    match &ctx.flow {
        None => Err(
            NodeError::Domain {
                code: "counter_requires_flow_ctx",
                message: String::from_str(
                    "counter node requires NodeCtx::with_flow; engine wiring missing flow id",
                ),
            },
        ),
        Some(flow) => {
            proof {
                reveal_strlit("count");
                assert(STATE_KEY@ =~= seq!['c', 'o', 'u', 'n', 't']);
                vstd::utf8::is_ascii_chars_encode_utf8(STATE_KEY@);
            }
            let key = String::from_str(STATE_KEY);
            match NodeStateKey::new(flow.clone(), ctx.node.clone(), key) {
                Ok(k) => Ok(k),
                Err(_) => vstd::pervasive::unreached(),
            }
        },
    }
}


/// The count an invocation reaches from what the store held (`None`: no
/// row), or why the stored text is unreadable.
pub open spec fn next_count(c: CounterSettings, stored: Option<NodeStateValue>) -> Result<i64, Seq<char>> {
    match stored {
        None => Ok(saturating_sum(c.initial, c.step)),
        Some(v) => match count_from_text_spec(decoded(v.bytes@)) {
            Ok(n) => Ok(saturating_sum(n, c.step)),
            Err(m) => Err(m),
        },
    }
}

/// `e` is the backend error a failed store operation `op` surfaces as.
pub open spec fn is_state_failure(op: StateOp, err: NodeStateError, e: NodeError) -> bool {
    e matches NodeError::Backend(m) && m@ == "counter: state "@ + op_name(op) + " failed: "@ + state_error_text(err)
}

/// `r` is what an invocation answers when reading the count gave `got` and
/// writing the next count gave `put` (not consulted when the read failed
/// or its text was unreadable).
pub open spec fn counter_answer(
    c: CounterSettings,
    got: Result<Option<NodeStateValue>, NodeStateError>,
    put: Result<u64, NodeStateError>,
    r: Result<SlotMap, NodeError>,
) -> bool {
    match got {
        Err(e) => r matches Err(x) && is_state_failure(StateOp::Get, e, x),
        Ok(stored) => match next_count(c, stored) {
            Err(m) => r matches Err(NodeError::Backend(t)) && t@ == m,
            Ok(n) => match put {
                Err(e) => r matches Err(x) && is_state_failure(StateOp::Put, e, x),
                Ok(_) => r matches Ok(out) && out@ == seq![(OUT_SLOT@, SlotValue::Int(n))],
            },
        },
    }
}

impl Counter {
    /// Conclude the read of the count: a failed read is a backend error;
    /// otherwise [`Counter::advance`].
    pub fn after_get(&self, got: Result<Option<NodeStateValue>, NodeStateError>) -> (r: Result<CountStep, NodeError>)
        ensures
            got matches Err(e) ==> (r matches Err(x) && is_state_failure(StateOp::Get, e, x)),
            got matches Ok(stored) ==> match next_count(self.settings(), stored) {
                Ok(n) => r matches Ok(s) && s.next == n && s.bytes@ == count_bytes(n),
                Err(m) => r matches Err(NodeError::Backend(t)) && t@ == m,
            },
    {
        match got {
            Err(e) => Err(Counter::state_failure(StateOp::Get, &e)),
            Ok(stored) => self.advance(stored),
        }
    }

    /// Conclude the write of `next`: a failed write is a backend error;
    /// otherwise the output emitting `next`.
    pub fn complete(next: i64, put: Result<u64, NodeStateError>) -> (r: Result<SlotMap, NodeError>)
        ensures
            put matches Err(e) ==> (r matches Err(x) && is_state_failure(StateOp::Put, e, x)),
            put is Ok ==> (r matches Ok(out) && out@ == seq![(OUT_SLOT@, SlotValue::Int(next))]),
    {
        match put {
            Err(e) => Err(Counter::state_failure(StateOp::Put, &e)),
            Ok(_) => Ok(Counter::output(next)),
        }
    }

    /// One invocation against `store`: a cancelled run stops before any
    /// state is touched; otherwise read the count, add the step, write the
    /// sum and emit it. The store's answers are the store's own: the result
    /// is the counter's answer for whatever they were.
    pub fn invoke<S: NodeStateStore>(&self, ctx: &NodeCtx, store: &S) -> (r: Result<SlotMap, NodeError>)
        ensures
            ctx.cancelled ==> r matches Err(NodeError::Cancelled),
            !ctx.cancelled && ctx.flow is None ==> (r matches Err(NodeError::Domain { code, message }) && code@
                == "counter_requires_flow_ctx"@ && message@
                == "counter node requires NodeCtx::with_flow; engine wiring missing flow id"@),
            !ctx.cancelled && ctx.flow is Some ==> exists|
                got: Result<Option<NodeStateValue>, NodeStateError>,
                put: Result<u64, NodeStateError>,
            | #[trigger] counter_answer(self.settings(), got, put, r),
    {
        let key = match self.prepare(ctx) {
            Ok(k) => k,
            Err(e) => {
                return Err(e);
            },
        };
        let got = store.get(&key);
        let ghost g = got;
        let step = match self.after_get(got) {
            Ok(s) => s,
            Err(e) => {
                let ghost no_put: Result<u64, NodeStateError> = Ok(0u64);
                let r: Result<SlotMap, NodeError> = Err(e);
                assert(counter_answer(self.settings(), g, no_put, r));
                return r;
            },
        };
        let next = step.next;
        let put = store.put(&key, step.bytes);
        let ghost pt = put;
        let r = Counter::complete(next, put);
        assert(counter_answer(self.settings(), g, pt, r));
        r
    }

    /// React to a redeploy against `store`: clear the persisted count when
    /// the settings ask for it, whatever the edit.
    pub fn on_redeploy<S: NodeStateStore>(&self, ctx: &NodeCtx, edit: EditKind, store: &S) -> (r: Result<(), NodeError>)
        ensures
            !self.settings().reset_on_redeploy ==> r is Ok,
            self.settings().reset_on_redeploy && ctx.flow is None ==> (r matches Err(
                NodeError::Domain { code, message },
            ) && code@ == "counter_requires_flow_ctx"@ && message@
                == "counter node requires NodeCtx::with_flow; engine wiring missing flow id"@),
            self.settings().reset_on_redeploy && ctx.flow is Some ==> (r is Ok || (r matches Err(x) && exists|e: NodeStateError|
                #[trigger] is_state_failure(StateOp::Delete, e, x))),
    {
        if !self.resets_on_redeploy(edit) {
            return Ok(());
        }
        let key = match state_key(ctx) {
            Ok(k) => k,
            Err(e) => {
                return Err(e);
            },
        };
        match store.delete(&key) {
            Ok(()) => Ok(()),
            Err(e) => {
                let x = Counter::state_failure(StateOp::Delete, &e);
                assert(is_state_failure(StateOp::Delete, e, x));
                Err(x)
            },
        }
    }
}


/// A count an invocation wrote is what the next invocation continues from:
/// a stored value holding the persisted form of `n` advances to `n` plus
/// the step (saturating).
pub proof fn lemma_next_count_after_write(c: CounterSettings, n: i64, v: NodeStateValue)
    requires
        v.bytes@ == count_bytes(n),
    ensures
        next_count(c, Some(v)) == Ok::<i64, Seq<char>>(saturating_sum(n, c.step)),
{
    lemma_count_roundtrip(n);
}

} // verus!
