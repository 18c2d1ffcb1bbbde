//! Reverse-DNS identifiers shared by nodes, node kinds, flows and skills.

use vstd::prelude::*;
use vstd::string::*;

verus! {

/// ASCII lowercase letter: the only legal first character of a segment.
pub open spec fn is_lower(c: char) -> bool {
    'a' <= c && c <= 'z'
}

/// A character allowed anywhere inside a segment.
pub open spec fn is_segment_char(c: char) -> bool {
    is_lower(c) || ('0' <= c && c <= '9') || c == '_' || c == '-'
}

/// The reverse-DNS grammar every flow identifier follows: the string is
/// split on `.` into at least two segments, each non-empty, starting with
/// `[a-z]` and continuing with `[a-z0-9_-]`.
///
/// Stated per character: the string is non-empty, holds a `.`, only holds
/// segment characters and dots, starts with a lowercase letter, does not end
/// with a dot, and every dot is followed by a lowercase letter.
pub open spec fn is_reverse_dns(s: Seq<char>) -> bool {
    &&& s.len() > 0
    &&& is_lower(s[0])
    &&& s[s.len() - 1] != '.'
    &&& exists|i: int| 0 <= i < s.len() && s[i] == '.'
    &&& forall|i: int| 0 <= i < s.len() ==> (is_segment_char(#[trigger] s[i]) || s[i] == '.')
    &&& forall|i: int| 0 <= i < s.len() - 1 && #[trigger] s[i] == '.' ==> is_lower(s[i + 1])
}

/// Reverse-DNS id validation failure.
#[derive(Debug)]
pub enum IdError {
    /// Id string was empty.
    Empty,
    /// Id was not a valid reverse-DNS identifier; carries the rejected text.
    NotReverseDns(String),
}

impl IdError {
    /// Human-readable rendering of the error.
    pub fn message(&self) -> (m: String)
        ensures
            self is Empty ==> m@ == "id may not be empty"@,
            self matches IdError::NotReverseDns(t) ==> m@ == "not a valid reverse-DNS id: "@ + t@,
    {
        match self {
            IdError::Empty => String::from_str("id may not be empty"),
            IdError::NotReverseDns(t) => {
                let mut m = String::from_str("not a valid reverse-DNS id: ");
                m.append(t.as_str());
                m
            },
        }
    }
}

/// What validating `s` reports, as a value.
pub open spec fn spec_validate(s: Seq<char>) -> Result<(), Seq<char>> {
    if s.len() == 0 {
        Err(Seq::empty())
    } else if is_reverse_dns(s) {
        Ok(())
    } else {
        Err(s)
    }
}

/// Reverse-DNS validation shared by every flow identifier.
///
/// `Empty` exactly for the empty string; `NotReverseDns` carrying the input
/// exactly for the other strings outside the grammar; `Ok` otherwise.
pub fn validate_reverse_dns(s: &str) -> (r: Result<(), IdError>)
    ensures
        s@.len() == 0 <==> r matches Err(IdError::Empty),
        r is Ok <==> is_reverse_dns(s@),
        r matches Err(IdError::NotReverseDns(t)) ==> t@ == s@ && s@.len() > 0,
{
    let n = s.unicode_len();
    if n == 0 {
        return Err(IdError::Empty);
    }
    let mut i: usize = 0;
    let mut at_start = true;
    let mut seen_dot = false;
    while i < n
        invariant
            n == s@.len(),
            0 <= i <= n,
            at_start == (i == 0 || s@[i - 1] == '.'),
            seen_dot == (exists|j: int| 0 <= j < i && s@[j] == '.'),
            i > 0 ==> is_lower(s@[0]),
            forall|j: int| 0 <= j < i ==> (is_segment_char(#[trigger] s@[j]) || s@[j] == '.'),
            forall|j: int| 0 <= j < i - 1 && #[trigger] s@[j] == '.' ==> is_lower(s@[j + 1]),
        decreases n - i,
    {
        let c = s.get_char(i);
        if c == '.' {
            if at_start {
                proof {
                    if i > 0 {
                        assert(s@[i - 1] == '.');
                    }
                }
                return Err(IdError::NotReverseDns(s.to_owned()));
            }
            seen_dot = true;
            at_start = true;
        } else if at_start {
            if !('a' <= c && c <= 'z') {
                proof {
                    if i > 0 {
                        assert(s@[i - 1] == '.');
                    }
                }
                return Err(IdError::NotReverseDns(s.to_owned()));
            }
            at_start = false;
        } else {
            if !(('a' <= c && c <= 'z') || ('0' <= c && c <= '9') || c == '_' || c == '-') {
                assert(!(is_segment_char(s@[i as int]) || s@[i as int] == '.'));
                return Err(IdError::NotReverseDns(s.to_owned()));
            }
        }
        i = i + 1;
    }
    if at_start || !seen_dot {
        return Err(IdError::NotReverseDns(s.to_owned()));
    }
    Ok(())
}

} // verus!

verus! {

/// Reverse-DNS node identifier. Every value satisfies [`is_reverse_dns`].
#[derive(Debug)]
pub struct NodeId(String);

impl View for NodeId {
    type V = Seq<char>;

    closed spec fn view(&self) -> Seq<char> {
        self.0@
    }
}

impl NodeId {
    #[verifier::type_invariant]
    closed spec fn well_formed(self) -> bool {
        is_reverse_dns(self.0@)
    }

    /// Parse a string as a node id.
    pub fn new(s: String) -> (r: Result<Self, IdError>)
        ensures
            r matches Ok(id) ==> id@ == s@,
            r is Ok <==> is_reverse_dns(s@),
            r matches Err(IdError::Empty) <==> s@.len() == 0,
            r matches Err(IdError::NotReverseDns(t)) ==> t@ == s@,
    {
        match validate_reverse_dns(s.as_str()) {
            Ok(()) => Ok(NodeId(s)),
            Err(e) => Err(e),
        }
    }

    /// Borrow the underlying string slice.
    pub fn as_str(&self) -> (r: &str)
        ensures
            r@ == self@,
            is_reverse_dns(r@),
    {
        proof {
            use_type_invariant(self);
        }
        self.0.as_str()
    }
}

impl Clone for NodeId {
    fn clone(&self) -> (r: Self)
        ensures
            r@ == self@,
    {
        proof {
            use_type_invariant(self);
        }
        NodeId(self.0.clone())
    }
}

impl PartialEq for NodeId {
    fn eq(&self, other: &Self) -> (r: bool) {
        self.0 == other.0
    }
}

impl vstd::std_specs::cmp::PartialEqSpecImpl for NodeId {
    open spec fn obeys_eq_spec() -> bool {
        true
    }

    open spec fn eq_spec(&self, other: &Self) -> bool {
        self@ == other@
    }
}

impl Eq for NodeId {
}

impl From<NodeId> for String {
    /// The id's text.
    fn from(f: NodeId) -> (r: String)
        ensures
            r@ == f@,
    {
        f.0
    }
}

impl vstd::std_specs::convert::FromSpecImpl<NodeId> for String {
    open spec fn obeys_from_spec() -> bool {
        true
    }

    closed spec fn from_spec(f: NodeId) -> String {
        f.0
    }
}

impl TryFrom<String> for NodeId {
    type Error = IdError;

    /// Parse a string as a node id, as [`NodeId::new`] does.
    fn try_from(v: String) -> (r: Result<NodeId, IdError>)
        ensures
            r matches Ok(id) ==> id@ == v@,
            r is Ok <==> is_reverse_dns(v@),
            r matches Err(IdError::Empty) <==> v@.len() == 0,
            r matches Err(IdError::NotReverseDns(t)) ==> t@ == v@,
    {
        match validate_reverse_dns(v.as_str()) {
            Ok(()) => Ok(NodeId(v)),
            Err(IdError::Empty) => Err(IdError::Empty),
            Err(IdError::NotReverseDns(_)) => Err(IdError::NotReverseDns(v)),
        }
    }
}

impl vstd::std_specs::convert::TryFromSpecImpl<String> for NodeId {
    open spec fn obeys_try_from_spec() -> bool {
        true
    }

    closed spec fn try_from_spec(v: String) -> Result<NodeId, IdError> {
        if v@.len() == 0 {
            Err(IdError::Empty)
        } else if is_reverse_dns(v@) {
            Ok(NodeId(v))
        } else {
            Err(IdError::NotReverseDns(v))
        }
    }
}

/// Reverse-DNS node-kind identifier, kept apart from [`NodeId`] so "which node" and "what kind of node" never mix. Every value satisfies [`is_reverse_dns`].
#[derive(Debug)]
pub struct KindId(String);

impl View for KindId {
    type V = Seq<char>;

    closed spec fn view(&self) -> Seq<char> {
        self.0@
    }
}

impl KindId {
    #[verifier::type_invariant]
    closed spec fn well_formed(self) -> bool {
        is_reverse_dns(self.0@)
    }

    /// Parse a string as a kind id.
    pub fn new(s: String) -> (r: Result<Self, IdError>)
        ensures
            r matches Ok(id) ==> id@ == s@,
            r is Ok <==> is_reverse_dns(s@),
            r matches Err(IdError::Empty) <==> s@.len() == 0,
            r matches Err(IdError::NotReverseDns(t)) ==> t@ == s@,
    {
        match validate_reverse_dns(s.as_str()) {
            Ok(()) => Ok(KindId(s)),
            Err(e) => Err(e),
        }
    }

    /// Borrow the underlying string slice.
    pub fn as_str(&self) -> (r: &str)
        ensures
            r@ == self@,
            is_reverse_dns(r@),
    {
        proof {
            use_type_invariant(self);
        }
        self.0.as_str()
    }
}

impl Clone for KindId {
    fn clone(&self) -> (r: Self)
        ensures
            r@ == self@,
    {
        proof {
            use_type_invariant(self);
        }
        KindId(self.0.clone())
    }
}

impl PartialEq for KindId {
    fn eq(&self, other: &Self) -> (r: bool) {
        self.0 == other.0
    }
}

impl vstd::std_specs::cmp::PartialEqSpecImpl for KindId {
    open spec fn obeys_eq_spec() -> bool {
        true
    }

    open spec fn eq_spec(&self, other: &Self) -> bool {
        self@ == other@
    }
}

impl Eq for KindId {
}

impl From<KindId> for String {
    /// The id's text.
    fn from(f: KindId) -> (r: String)
        ensures
            r@ == f@,
    {
        f.0
    }
}

impl vstd::std_specs::convert::FromSpecImpl<KindId> for String {
    open spec fn obeys_from_spec() -> bool {
        true
    }

    closed spec fn from_spec(f: KindId) -> String {
        f.0
    }
}

impl TryFrom<String> for KindId {
    type Error = IdError;

    /// Parse a string as a kind id, as [`KindId::new`] does.
    fn try_from(v: String) -> (r: Result<KindId, IdError>)
        ensures
            r matches Ok(id) ==> id@ == v@,
            r is Ok <==> is_reverse_dns(v@),
            r matches Err(IdError::Empty) <==> v@.len() == 0,
            r matches Err(IdError::NotReverseDns(t)) ==> t@ == v@,
    {
        match validate_reverse_dns(v.as_str()) {
            Ok(()) => Ok(KindId(v)),
            Err(IdError::Empty) => Err(IdError::Empty),
            Err(IdError::NotReverseDns(_)) => Err(IdError::NotReverseDns(v)),
        }
    }
}

impl vstd::std_specs::convert::TryFromSpecImpl<String> for KindId {
    open spec fn obeys_try_from_spec() -> bool {
        true
    }

    closed spec fn try_from_spec(v: String) -> Result<KindId, IdError> {
        if v@.len() == 0 {
            Err(IdError::Empty)
        } else if is_reverse_dns(v@) {
            Ok(KindId(v))
        } else {
            Err(IdError::NotReverseDns(v))
        }
    }
}

/// Reverse-DNS flow identifier. Every value satisfies [`is_reverse_dns`].
#[derive(Debug)]
pub struct FlowId(String);

impl View for FlowId {
    type V = Seq<char>;

    closed spec fn view(&self) -> Seq<char> {
        self.0@
    }
}

impl FlowId {
    #[verifier::type_invariant]
    closed spec fn well_formed(self) -> bool {
        is_reverse_dns(self.0@)
    }

    /// Parse a string as a flow id.
    pub fn new(s: String) -> (r: Result<Self, IdError>)
        ensures
            r matches Ok(id) ==> id@ == s@,
            r is Ok <==> is_reverse_dns(s@),
            r matches Err(IdError::Empty) <==> s@.len() == 0,
            r matches Err(IdError::NotReverseDns(t)) ==> t@ == s@,
    {
        match validate_reverse_dns(s.as_str()) {
            Ok(()) => Ok(FlowId(s)),
            Err(e) => Err(e),
        }
    }

    /// Borrow the underlying string slice.
    pub fn as_str(&self) -> (r: &str)
        ensures
            r@ == self@,
            is_reverse_dns(r@),
    {
        proof {
            use_type_invariant(self);
        }
        self.0.as_str()
    }
}

impl Clone for FlowId {
    fn clone(&self) -> (r: Self)
        ensures
            r@ == self@,
    {
        proof {
            use_type_invariant(self);
        }
        FlowId(self.0.clone())
    }
}

impl PartialEq for FlowId {
    fn eq(&self, other: &Self) -> (r: bool) {
        self.0 == other.0
    }
}

impl vstd::std_specs::cmp::PartialEqSpecImpl for FlowId {
    open spec fn obeys_eq_spec() -> bool {
        true
    }

    open spec fn eq_spec(&self, other: &Self) -> bool {
        self@ == other@
    }
}

impl Eq for FlowId {
}

impl From<FlowId> for String {
    /// The id's text.
    fn from(f: FlowId) -> (r: String)
        ensures
            r@ == f@,
    {
        f.0
    }
}

impl vstd::std_specs::convert::FromSpecImpl<FlowId> for String {
    open spec fn obeys_from_spec() -> bool {
        true
    }

    closed spec fn from_spec(f: FlowId) -> String {
        f.0
    }
}

impl TryFrom<String> for FlowId {
    type Error = IdError;

    /// Parse a string as a flow id, as [`FlowId::new`] does.
    fn try_from(v: String) -> (r: Result<FlowId, IdError>)
        ensures
            r matches Ok(id) ==> id@ == v@,
            r is Ok <==> is_reverse_dns(v@),
            r matches Err(IdError::Empty) <==> v@.len() == 0,
            r matches Err(IdError::NotReverseDns(t)) ==> t@ == v@,
    {
        match validate_reverse_dns(v.as_str()) {
            Ok(()) => Ok(FlowId(v)),
            Err(IdError::Empty) => Err(IdError::Empty),
            Err(IdError::NotReverseDns(_)) => Err(IdError::NotReverseDns(v)),
        }
    }
}

impl vstd::std_specs::convert::TryFromSpecImpl<String> for FlowId {
    open spec fn obeys_try_from_spec() -> bool {
        true
    }

    closed spec fn try_from_spec(v: String) -> Result<FlowId, IdError> {
        if v@.len() == 0 {
            Err(IdError::Empty)
        } else if is_reverse_dns(v@) {
            Ok(FlowId(v))
        } else {
            Err(IdError::NotReverseDns(v))
        }
    }
}

impl KindId {
    /// The kind id spelled by a text already known to be in the grammar.
    pub fn from_valid(s: &str) -> (k: KindId)
        requires
            is_reverse_dns(s@),
        ensures
            k@ == s@,
    {
        match KindId::new(s.to_owned()) {
            Ok(k) => k,
            Err(_) => vstd::pervasive::unreached(),
        }
    }
}

} // verus!
