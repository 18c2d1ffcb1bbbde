//! Skill selection threaded through every `ai-agent` node of a run.

use vstd::prelude::*;
use vstd::string::*;

use crate::auth::Principal;
use crate::ids::{is_reverse_dns, validate_reverse_dns, IdError, KindId};
use crate::slot::SlotMap;

verus! {

/// Reverse-DNS skill identifier. Every value satisfies [`is_reverse_dns`].
#[derive(Debug)]
pub struct SkillId(String);

impl View for SkillId {
    type V = Seq<char>;

    closed spec fn view(&self) -> Seq<char> {
        self.0@
    }
}

impl SkillId {
    #[verifier::type_invariant]
    closed spec fn well_formed(self) -> bool {
        is_reverse_dns(self.0@)
    }

    /// Parse a string as a skill id (the same grammar as every flow id).
    pub fn new(s: String) -> (r: Result<Self, IdError>)
        ensures
            r matches Ok(id) ==> id@ == s@,
            r is Ok <==> is_reverse_dns(s@),
            r matches Err(IdError::Empty) <==> s@.len() == 0,
            r matches Err(IdError::NotReverseDns(t)) ==> t@ == s@,
    {
        match validate_reverse_dns(s.as_str()) {
            Ok(()) => Ok(SkillId(s)),
            Err(e) => Err(e),
        }
    }

    /// Borrow the underlying string slice.
    pub fn as_str(&self) -> (r: &str)
        ensures
            r@ == self@,
            is_reverse_dns(r@),
    {
        proof {
            use_type_invariant(self);
        }
        self.0.as_str()
    }
}

impl Clone for SkillId {
    fn clone(&self) -> (r: Self)
        ensures
            r@ == self@,
    {
        proof {
            use_type_invariant(self);
        }
        SkillId(self.0.clone())
    }
}

impl PartialEq for SkillId {
    fn eq(&self, other: &Self) -> (r: bool) {
        self.0 == other.0
    }
}

impl vstd::std_specs::cmp::PartialEqSpecImpl for SkillId {
    open spec fn obeys_eq_spec() -> bool {
        true
    }

    open spec fn eq_spec(&self, other: &Self) -> bool {
        self@ == other@
    }
}

impl Eq for SkillId {
}

impl From<SkillId> for String {
    /// The id's text.
    fn from(f: SkillId) -> (r: String)
        ensures
            r@ == f@,
    {
        f.0
    }
}

impl vstd::std_specs::convert::FromSpecImpl<SkillId> for String {
    open spec fn obeys_from_spec() -> bool {
        true
    }

    closed spec fn from_spec(f: SkillId) -> String {
        f.0
    }
}

impl TryFrom<String> for SkillId {
    type Error = IdError;

    /// Parse a string as a skill id, as [`SkillId::new`] does.
    fn try_from(v: String) -> (r: Result<SkillId, IdError>)
        ensures
            r matches Ok(id) ==> id@ == v@,
            r is Ok <==> is_reverse_dns(v@),
            r matches Err(IdError::Empty) <==> v@.len() == 0,
            r matches Err(IdError::NotReverseDns(t)) ==> t@ == v@,
    {
        match validate_reverse_dns(v.as_str()) {
            Ok(()) => Ok(SkillId(v)),
            Err(IdError::Empty) => Err(IdError::Empty),
            Err(IdError::NotReverseDns(_)) => Err(IdError::NotReverseDns(v)),
        }
    }
}

impl vstd::std_specs::convert::TryFromSpecImpl<String> for SkillId {
    open spec fn obeys_try_from_spec() -> bool {
        true
    }

    closed spec fn try_from_spec(v: String) -> Result<SkillId, IdError> {
        if v@.len() == 0 {
            Err(IdError::Empty)
        } else if is_reverse_dns(v@) {
            Ok(SkillId(v))
        } else {
            Err(IdError::NotReverseDns(v))
        }
    }
}

/// A mounted skill resource: where it lives and the content hash it had
/// when the skill was selected.
#[derive(Debug)]
pub struct ResourceRef {
    /// URI the host resolves to a file.
    pub uri: String,
    /// Content hash of the resource bytes at selection time.
    pub content_hash: String,
}

impl ResourceRef {
    /// Construct a resource pointer.
    pub fn new(uri: String, content_hash: String) -> (r: ResourceRef)
        ensures
            r.uri == uri,
            r.content_hash == content_hash,
    {
        ResourceRef { uri, content_hash }
    }
}

/// The skill selection frozen for one run.
#[derive(Debug)]
pub enum SkillSelection {
    /// No skill selected.
    NotSelected,
    /// A skill was selected.
    Selected {
        /// The selected skill.
        skill_id: SkillId,
        /// Tool ids the skill allows.
        allowed_tools: Vec<KindId>,
        /// Resources mounted into each `ai-agent` invocation.
        resources: Vec<ResourceRef>,
        /// Content hash of the skill bundle at selection time.
        content_hash: String,
    },
}

/// Typed failure of a skill selector.
#[derive(Debug)]
pub struct SkillError {
    /// Short machine-readable code.
    pub code: String,
    /// Human-readable message.
    pub message: String,
}

impl SkillError {
    /// Construct an error.
    pub fn new(code: String, message: String) -> (e: SkillError)
        ensures
            e.code == code,
            e.message == message,
    {
        SkillError { code, message }
    }

    /// `skill selection failed [<code>]: <message>`.
    pub fn render(&self) -> (m: String)
        ensures
            m@ == "skill selection failed ["@ + self.code@ + "]: "@ + self.message@,
    {
        let m = String::from_str("skill selection failed [");
        let m = m.concat(self.code.as_str());
        let m = m.concat("]: ");
        m.concat(self.message.as_str())
    }
}

/// Selector that never selects a skill: the engine's default.
#[derive(Debug, Clone, Copy)]
pub struct NullSkillSelector;

impl NullSkillSelector {
    /// Resolve a selection for a run: always none.
    pub fn select(&self, input: &SlotMap, principal: &Principal) -> (r: Result<SkillSelection, SkillError>)
        ensures
            r matches Ok(SkillSelection::NotSelected),
    {
        Ok(SkillSelection::NotSelected)
    }
}

} // verus!
