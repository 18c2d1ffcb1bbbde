//! Flow definition lifecycle: where a revision came from, how a new
//! revision is applied to running flows, and the events publishing emits.

use vstd::prelude::*;
use vstd::string::*;

use crate::flow::FlowRevisionId;
use crate::ids::FlowId;

verus! {

/// Where a flow revision came from.
#[derive(Debug, Clone, PartialEq, Eq)]
pub enum DefinitionSource {
    /// The REST API.
    Api,
    /// The command line.
    Cli,
    /// A watched file (its path as text).
    File {
        /// The file's path.
        path: String,
    },
    /// An extension.
    Extension {
        /// The extension's id.
        id: String,
    },
}

/// The audit tag of a source: `api`, `cli`, `file:<path>`, `extension:<id>`.
pub open spec fn audit_tag_of(s: DefinitionSource) -> Seq<char> {
    match s {
        DefinitionSource::Api => "api"@,
        DefinitionSource::Cli => "cli"@,
        DefinitionSource::File { path } => "file:"@ + path@,
        DefinitionSource::Extension { id } => "extension:"@ + id@,
    }
}

impl DefinitionSource {
    /// The audit tag recorded with a revision from this source.
    pub fn audit_tag(&self) -> (t: String)
        ensures
            t@ == audit_tag_of(*self),
    {
        match self {
            DefinitionSource::Api => String::from_str("api"),
            DefinitionSource::Cli => String::from_str("cli"),
            DefinitionSource::File { path } => String::from_str("file:").concat(path.as_str()),
            DefinitionSource::Extension { id } => String::from_str("extension:").concat(id.as_str()),
        }
    }
}

/// How a new revision replaces the running one.
#[derive(Debug, Clone, Copy, PartialEq, Eq)]
pub enum ApplyPolicy {
    /// Let in-flight runs finish on the old revision (the default).
    Drain,
    /// Stop in-flight runs and restart them on the new revision.
    Restart,
    /// Move in-flight runs onto the new revision.
    LiveMigrate,
}

impl Default for ApplyPolicy {
    fn default() -> (p: ApplyPolicy)
        ensures
            p == ApplyPolicy::Drain,
    {
        ApplyPolicy::Drain
    }
}

impl ApplyPolicy {
    /// The policy's kebab-case name.
    pub fn as_str(&self) -> (r: &'static str)
        ensures
            *self == ApplyPolicy::Drain ==> r@ == "drain"@,
            *self == ApplyPolicy::Restart ==> r@ == "restart"@,
            *self == ApplyPolicy::LiveMigrate ==> r@ == "live-migrate"@,
    {
        match self {
            ApplyPolicy::Drain => "drain",
            ApplyPolicy::Restart => "restart",
            ApplyPolicy::LiveMigrate => "live-migrate",
        }
    }
}

/// What a published revision changed.
#[derive(Debug, Clone, Copy, PartialEq, Eq)]
pub enum EditKindTag {
    /// The first revision of a flow.
    Initial,
    /// Only node settings changed.
    Settings,
    /// The graph's shape changed.
    Topology,
    /// Both changed.
    Mixed,
}

/// An event of the definition lifecycle.
#[derive(Debug)]
pub enum FlowDefinitionEvent {
    /// A revision became the head.
    RevisionPublished {
        /// The flow.
        flow: FlowId,
        /// The new head.
        revision: FlowRevisionId,
        /// The previous head.
        prev_head: Option<FlowRevisionId>,
        /// Where it came from.
        source: DefinitionSource,
        /// What changed.
        kind: EditKindTag,
    },
    /// A publish equal to the head was skipped.
    PublishShortCircuited {
        /// The flow.
        flow: FlowId,
        /// The unchanged head.
        head: FlowRevisionId,
        /// Where it came from.
        source: DefinitionSource,
    },
    /// A publish was refused.
    Rejected {
        /// The flow.
        flow: FlowId,
        /// Where it came from.
        source: DefinitionSource,
        /// Why.
        reason: String,
    },
    /// A revision was mounted in the engine.
    Mounted {
        /// The flow.
        flow: FlowId,
        /// The revision.
        revision: FlowRevisionId,
    },
    /// Resolving a revision's topology failed.
    ResolveFailed {
        /// The flow.
        flow: FlowId,
        /// The revision.
        revision: FlowRevisionId,
        /// The error, rendered.
        error: String,
    },
    /// A flow was removed.
    Removed {
        /// The flow.
        flow: FlowId,
        /// Where the removal came from.
        source: DefinitionSource,
    },
    /// A running flow was swapped onto another revision.
    SwapApplied {
        /// The flow.
        flow: FlowId,
        /// The revision swapped from.
        from_revision: Option<FlowRevisionId>,
        /// The revision swapped to.
        to_revision: FlowRevisionId,
        /// How.
        apply_policy: ApplyPolicy,
    },
    /// A node kind the flow uses was revoked.
    KindRevoked {
        /// The flow.
        flow: FlowId,
        /// The revoked kind.
        kind: String,
        /// How running flows are handled.
        apply_policy: ApplyPolicy,
    },
}

} // verus!
