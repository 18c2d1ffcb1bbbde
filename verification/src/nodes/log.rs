//! `log` — emits its `value` input as a structured event at a chosen level
//! and passes the value through on `emitted`.

use vstd::prelude::*;
use vstd::string::*;

use crate::ids::KindId;
use crate::node::{describes, NodeDescriptor, KindError, NodeCtx, NodeError};
use crate::slot::{lookup, SlotMap, SlotValue};
use crate::text::text_eq;

verus! {

/// Reverse-DNS kind id.
pub const KIND_ID: &'static str = "starter.flow.log";

/// Catalog entry of this kind.
pub fn descriptor() -> (d: NodeDescriptor)
    ensures
        describes(d, KIND_ID@, "log"@),
        crate::ids::is_reverse_dns(d.kind@),
{
    proof {
        reveal_strlit("starter.flow.log");
        reveal_strlit("log");
        reveal_strlit("starter.flow.node.");
        reveal_strlit("label");
        reveal_strlit("summary");
        reveal_strlit("help");
        reveal_strlit("starter.flow.node.log.label");
        reveal_strlit("starter.flow.node.log.summary");
        reveal_strlit("starter.flow.node.log.help");
        assert(KIND_ID@[7] == '.');
    }
    let d = NodeDescriptor::new(
        KIND_ID,
        "starter.flow.node.log.label",
        "starter.flow.node.log.summary",
        "starter.flow.node.log.help",
    );
    assert(d.label_key@ =~= crate::node::catalog_key("log"@, "label"@));
    assert(d.summary_key@ =~= crate::node::catalog_key("log"@, "summary"@));
    assert(d.help_key@ =~= crate::node::catalog_key("log"@, "help"@));
    d
}

/// Mandatory input slot carrying the value to emit.
pub const VALUE_SLOT: &'static str = "value";

/// Optional config slot carrying the level name.
pub const LEVEL_SLOT: &'static str = "level";

/// Output slot carrying the passed-through value.
pub const EMITTED_SLOT: &'static str = "emitted";

/// Event target every `log` node emits under.
pub const TRACING_TARGET: &'static str = "starter.flow.log";

/// Level a `log` node emits at.
#[derive(Debug, Clone, Copy, PartialEq, Eq)]
pub enum LogLevel {
    /// Trace.
    Trace,
    /// Debug.
    Debug,
    /// Info, the default.
    Info,
    /// Warn.
    Warn,
    /// Error.
    Error,
}

/// Publish-time settings of a `log` node.
#[derive(Debug, Clone, Copy)]
pub struct LogSettings {
    /// Level of the emitted event (`info` when absent).
    pub level: Option<LogLevel>,
}

/// Typed errors surfaced by `log`.
#[derive(Debug)]
pub enum LogError {
    /// No `value` entry.
    MissingValue,
    /// `level` not one of `trace|debug|info|warn|error`; carries what was
    /// given (`<non-string>` for a value that is not a string).
    InvalidLevel(String),
}

/// The text a `log` error renders as.
pub open spec fn log_error_text(e: LogError) -> Seq<char> {
    match e {
        LogError::MissingValue => "log input missing `value` slot"@,
        LogError::InvalidLevel(s) => "log `level` must be one of trace|debug|info|warn|error; got `"@ + s@ + "`"@,
    }
}

impl LogError {
    /// Human-readable message.
    pub fn message(&self) -> (m: String)
        ensures
            m@ == log_error_text(*self),
    {
        match self {
            LogError::MissingValue => String::from_str("log input missing `value` slot"),
            LogError::InvalidLevel(s) => String::from_str("log `level` must be one of trace|debug|info|warn|error; got `").concat(s.as_str()).concat("`"),
        }
    }
}

impl LogError {
    /// The node error this surfaces as.
    pub fn into_node_error(self) -> (n: NodeError)
        ensures
            n == NodeError::Other(KindError::Log(self)),
    {
        NodeError::Other(KindError::Log(self))
    }
}


/// The level a (case-sensitive) name selects.
pub open spec fn level_named(s: Seq<char>) -> Option<LogLevel> {
    if s == "trace"@ {
        Some(LogLevel::Trace)
    } else if s == "debug"@ {
        Some(LogLevel::Debug)
    } else if s == "info"@ {
        Some(LogLevel::Info)
    } else if s == "warn"@ {
        Some(LogLevel::Warn)
    } else if s == "error"@ {
        Some(LogLevel::Error)
    } else {
        None
    }
}

/// Each of the five level names selects its own level: `trace`, `debug`,
/// `info`, `warn` and `error` name the levels of those names, and no other
/// text names any of them.
pub proof fn lemma_level_names()
    ensures
        level_named("trace"@) == Some(LogLevel::Trace),
        level_named("debug"@) == Some(LogLevel::Debug),
        level_named("info"@) == Some(LogLevel::Info),
        level_named("warn"@) == Some(LogLevel::Warn),
        level_named("error"@) == Some(LogLevel::Error),
        forall|s: Seq<char>|
            #![trigger level_named(s)]
            level_named(s) is Some ==> (s == "trace"@ || s == "debug"@ || s == "info"@ || s == "warn"@ || s
                == "error"@),
{
    reveal_strlit("trace");
    reveal_strlit("debug");
    reveal_strlit("info");
    reveal_strlit("warn");
    reveal_strlit("error");
    // The five names differ in their first letter.
    assert("debug"@[0] != "trace"@[0] && "info"@[0] != "trace"@[0] && "warn"@[0] != "trace"@[0]
        && "error"@[0] != "trace"@[0]);
    assert("info"@[0] != "debug"@[0] && "warn"@[0] != "debug"@[0] && "error"@[0] != "debug"@[0]);
    assert("warn"@[0] != "info"@[0] && "error"@[0] != "info"@[0]);
    assert("error"@[0] != "warn"@[0]);
}

/// Parse a level name.
pub fn parse_level(s: &str) -> (r: Result<LogLevel, LogError>)
    ensures
        level_named(s@) matches Some(l) ==> r == Ok::<LogLevel, LogError>(l),
        level_named(s@) is None ==> (r matches Err(LogError::InvalidLevel(t)) && t@ == s@),
        s@ == "trace"@ ==> r == Ok::<LogLevel, LogError>(LogLevel::Trace),
        s@ == "debug"@ ==> r == Ok::<LogLevel, LogError>(LogLevel::Debug),
        s@ == "info"@ ==> r == Ok::<LogLevel, LogError>(LogLevel::Info),
        s@ == "warn"@ ==> r == Ok::<LogLevel, LogError>(LogLevel::Warn),
        s@ == "error"@ ==> r == Ok::<LogLevel, LogError>(LogLevel::Error),
{
    proof {
        lemma_level_names();
    }
    if text_eq(s, "trace") {
        Ok(LogLevel::Trace)
    } else if text_eq(s, "debug") {
        Ok(LogLevel::Debug)
    } else if text_eq(s, "info") {
        Ok(LogLevel::Info)
    } else if text_eq(s, "warn") {
        Ok(LogLevel::Warn)
    } else if text_eq(s, "error") {
        Ok(LogLevel::Error)
    } else {
        Err(LogError::InvalidLevel(s.to_owned()))
    }
}

/// What one `log` invocation emits: the event level and the output map
/// whose `emitted` entry is the logged value.
pub struct LogEmission {
    /// Level of the event.
    pub level: LogLevel,
    /// Output map, `emitted` holding the value.
    pub output: SlotMap,
}

/// `log` node-kind body.
pub struct Log {
    kind: KindId,
}

impl Log {
    /// Construct a `log` body.
    pub fn new() -> (l: Log)
        ensures
            l.kind_id()@ == KIND_ID@,
    {
        proof {
            reveal_strlit("starter.flow.log");
            assert(KIND_ID@[7] == '.');
        }
        Log { kind: KindId::from_valid(KIND_ID) }
    }

    /// The kind id this body implements.
    pub closed spec fn kind_id(&self) -> KindId {
        self.kind
    }

    /// Decide what to emit. Errors come in this order: a missing `value`,
    /// a bad `level`, a cancelled run.
    pub fn invoke(&self, ctx: &NodeCtx, input: SlotMap) -> (r: Result<LogEmission, NodeError>)
        ensures
            lookup(input@, VALUE_SLOT@) is None ==> r matches Err(
                NodeError::Other(KindError::Log(LogError::MissingValue)),
            ),
            lookup(input@, VALUE_SLOT@) is Some ==> match lookup(input@, LEVEL_SLOT@) {
                Some(SlotValue::String(s)) => level_named(s@) is None ==> (r matches Err(
                    NodeError::Other(KindError::Log(LogError::InvalidLevel(t))),
                ) && t@ == s@),
                Some(_) => (r matches Err(NodeError::Other(KindError::Log(LogError::InvalidLevel(t))))
                    && t@ == "<non-string>"@),
                None => true,
            },
            lookup(input@, VALUE_SLOT@) is Some && !ctx.cancelled && lookup(input@, LEVEL_SLOT@) is None ==> (r matches Ok(
                e,
            ) && e.level == LogLevel::Info),
            lookup(input@, VALUE_SLOT@) is Some && !ctx.cancelled ==> (lookup(input@, LEVEL_SLOT@) matches Some(
                SlotValue::String(s),
            ) ==> ((s@ == "warn"@ ==> (r matches Ok(e) && e.level == LogLevel::Warn)) && (s@ == "error"@ ==> (
            r matches Ok(e) && e.level == LogLevel::Error)) && (s@ == "info"@ ==> (r matches Ok(e) && e.level
                == LogLevel::Info)) && (s@ == "debug"@ ==> (r matches Ok(e) && e.level == LogLevel::Debug)) && (
            s@ == "trace"@ ==> (r matches Ok(e) && e.level == LogLevel::Trace)))),
            lookup(input@, VALUE_SLOT@) matches Some(v) ==> (({
                let level = match lookup(input@, LEVEL_SLOT@) {
                    None => Some(LogLevel::Info),
                    Some(SlotValue::String(s)) => level_named(s@),
                    Some(_) => None,
                };
                level matches Some(l) ==> (ctx.cancelled ==> r matches Err(NodeError::Cancelled)) && (
                !ctx.cancelled ==> ((r matches Ok(e) && e.level == l && e.output@ == seq![
                    (EMITTED_SLOT@, v),
                ])))
            })),
    {
        proof {
            reveal_strlit("value");
            reveal_strlit("level");
            assert(VALUE_SLOT@[0] != LEVEL_SLOT@[0]);
            lemma_level_names();
        }
        let mut input = input;
        let value = match input.remove(VALUE_SLOT) {
            Some(v) => v,
            None => return Err(NodeError::Other(KindError::Log(LogError::MissingValue))),
        };
        let level = match input.remove(LEVEL_SLOT) {
            None => LogLevel::Info,
            Some(SlotValue::String(s)) => match parse_level(s.as_str()) {
                Ok(l) => l,
                Err(e) => return Err(NodeError::Other(KindError::Log(e))),
            },
            Some(_) => return Err(
                NodeError::Other(
                    KindError::Log(LogError::InvalidLevel(String::from_str("<non-string>"))),
                ),
            ),
        };
        if ctx.cancelled {
            return Err(NodeError::Cancelled);
        }
        Ok(LogEmission { level, output: SlotMap::singleton(String::from_str(EMITTED_SLOT), value) })
    }
}

} // verus!
