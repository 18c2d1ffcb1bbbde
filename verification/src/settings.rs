//! Node settings checked against a kind's JSON Schema at publish time: the
//! first violation is reported with a JSON Pointer to the offending field and
//! the schema keyword that failed.
//!
//! The schema validator is the `jsonschema` crate (draft 7); what it reports
//! is taken as a value and turned into a [`SettingsError`] by verified code.

use vstd::prelude::*;
use vstd::string::*;

use crate::text::{push_char, text_eq};

verus! {

/// A JSON document as `serde_json` holds it.
#[verifier::external_type_specification]
#[verifier::external_body]
pub struct ExJsonDocument(serde_json::Value);

/// A `serde_json` (de)serialisation error.
#[verifier::external_type_specification]
#[verifier::external_body]
pub struct ExJsonError(serde_json::Error);

/// A JSON Schema document as `schemars` derives it.
#[verifier::external_type_specification]
#[verifier::external_body]
pub struct ExRootSchema(schemars::schema::RootSchema);

/// The schema of a kind that declares no settings, as JSON text: `{}`,
/// which accepts any body.
pub const EMPTY_SCHEMA: &'static str = "{}";

/// Why a node's settings were refused.
#[derive(Debug)]
pub enum SettingsError {
    /// The settings do not match the kind's schema.
    SchemaViolation {
        /// JSON Pointer into the settings at the offending field.
        pointer: String,
        /// The schema keyword that failed.
        rule: &'static str,
        /// The validator's message.
        detail: String,
    },
    /// The settings passed the schema but could not be deserialised.
    Deserialise(serde_json::Error),
    /// A kind-specific cross-field rule refused the settings.
    Domain {
        /// Short stable code.
        code: &'static str,
        /// Human-readable text.
        detail: String,
    },
}

impl SettingsError {
    /// Human-readable message. For `Deserialise` it starts with the prefix
    /// below and continues with the `serde_json` error's own text.
    pub fn message(&self) -> (m: String)
        ensures
            self matches SettingsError::SchemaViolation { pointer, rule, detail } ==> m@
                == "settings schema violation at `"@ + pointer@ + "` (rule `"@ + rule@ + "`): "@ + detail@,
            self matches SettingsError::Domain { code, detail } ==> m@ == "settings domain rule violation ["@
                + code@ + "]: "@ + detail@,
            self is Deserialise ==> m@.len() >= "settings deserialisation failed: "@.len() && m@.subrange(
                0,
                "settings deserialisation failed: "@.len() as int,
            ) == "settings deserialisation failed: "@,
    {
        match self {
            SettingsError::SchemaViolation { pointer, rule, detail } => {
                let m = String::from_str("settings schema violation at `").concat(pointer.as_str());
                let m = m.concat("` (rule `").concat(rule).concat("`): ").concat(detail.as_str());
                assert(m@ =~= "settings schema violation at `"@ + pointer@ + "` (rule `"@ + rule@ + "`): "@
                    + detail@);
                m
            },
            SettingsError::Deserialise(e) => {
                let p = String::from_str("settings deserialisation failed: ");
                let m = p.concat(json_error_text(e).as_str());
                assert(m@.subrange(0, p@.len() as int) =~= p@);
                m
            },
            SettingsError::Domain { code, detail } => {
                let m = String::from_str("settings domain rule violation [").concat(code);
                let m = m.concat("]: ").concat(detail.as_str());
                assert(m@ =~= "settings domain rule violation ["@ + code@ + "]: "@ + detail@);
                m
            },
        }
    }
}

impl From<serde_json::Error> for SettingsError {
    fn from(e: serde_json::Error) -> (r: SettingsError) {
        SettingsError::Deserialise(e)
    }
}

impl vstd::std_specs::convert::FromSpecImpl<serde_json::Error> for SettingsError {
    open spec fn obeys_from_spec() -> bool {
        true
    }

    open spec fn from_spec(e: serde_json::Error) -> SettingsError {
        SettingsError::Deserialise(e)
    }
}

/// `<serde_json::Error as Display>::fmt`: the error's message. Nothing is
/// claimed of the text.
#[verifier::external_body]
fn json_error_text(e: &serde_json::Error) -> (r: String) {
    e.to_string()
}

/// The kind of failure the schema validator reports, one variant per kind
/// it distinguishes; `Other` is any kind this list does not name.
#[derive(Debug, Clone, Copy, PartialEq, Eq)]
pub enum SchemaFailure {
    AdditionalItems,
    AdditionalProperties,
    AnyOf,
    BacktrackLimitExceeded,
    Constant,
    Contains,
    ContentEncoding,
    ContentMediaType,
    Custom,
    Enum,
    ExclusiveMaximum,
    ExclusiveMinimum,
    FalseSchema,
    FileNotFound,
    Format,
    FromUtf8,
    Utf8,
    JsonParse,
    InvalidReference,
    InvalidUrl,
    MaxItems,
    Maximum,
    MaxLength,
    MaxProperties,
    MinItems,
    Minimum,
    MinLength,
    MinProperties,
    MultipleOf,
    Not,
    OneOfMultipleValid,
    OneOfNotValid,
    Pattern,
    PropertyNames,
    Required,
    Schema,
    Type,
    UnevaluatedProperties,
    UniqueItems,
    UnknownReferenceScheme,
    Resolver,
    Other,
}

/// The stable keyword a failure kind is reported under.
pub open spec fn schema_rule(k: SchemaFailure) -> Seq<char> {
    match k {
        SchemaFailure::AdditionalItems => "additionalItems"@,
        SchemaFailure::AdditionalProperties => "additionalProperties"@,
        SchemaFailure::AnyOf => "anyOf"@,
        SchemaFailure::BacktrackLimitExceeded => "backtrackLimit"@,
        SchemaFailure::Constant => "const"@,
        SchemaFailure::Contains => "contains"@,
        SchemaFailure::ContentEncoding => "contentEncoding"@,
        SchemaFailure::ContentMediaType => "contentMediaType"@,
        SchemaFailure::Enum => "enum"@,
        SchemaFailure::ExclusiveMaximum => "exclusiveMaximum"@,
        SchemaFailure::ExclusiveMinimum => "exclusiveMinimum"@,
        SchemaFailure::FalseSchema => "false"@,
        SchemaFailure::Format => "format"@,
        SchemaFailure::FromUtf8 => "utf8"@,
        SchemaFailure::MaxItems => "maxItems"@,
        SchemaFailure::Maximum => "maximum"@,
        SchemaFailure::MaxLength => "maxLength"@,
        SchemaFailure::MaxProperties => "maxProperties"@,
        SchemaFailure::MinItems => "minItems"@,
        SchemaFailure::Minimum => "minimum"@,
        SchemaFailure::MinLength => "minLength"@,
        SchemaFailure::MinProperties => "minProperties"@,
        SchemaFailure::MultipleOf => "multipleOf"@,
        SchemaFailure::Not => "not"@,
        SchemaFailure::OneOfMultipleValid => "oneOf"@,
        SchemaFailure::OneOfNotValid => "oneOf"@,
        SchemaFailure::Pattern => "pattern"@,
        SchemaFailure::PropertyNames => "propertyNames"@,
        SchemaFailure::Required => "required"@,
        SchemaFailure::Type => "type"@,
        SchemaFailure::UniqueItems => "uniqueItems"@,
        SchemaFailure::Custom => "custom"@,
        SchemaFailure::FileNotFound => "resolver"@,
        SchemaFailure::JsonParse => "resolver"@,
        SchemaFailure::InvalidUrl => "resolver"@,
        SchemaFailure::Resolver => "resolver"@,
        SchemaFailure::Schema => "schema"@,
        SchemaFailure::Utf8 => "utf8"@,
        SchemaFailure::InvalidReference => "unknown"@,
        SchemaFailure::UnevaluatedProperties => "unknown"@,
        SchemaFailure::UnknownReferenceScheme => "unknown"@,
        SchemaFailure::Other => "unknown"@,
    }
}

/// The stable keyword a failure kind is reported under, so callers can match
/// on it without reading the message.
pub fn jsonschema_rule(kind: SchemaFailure) -> (r: &'static str)
    ensures
        r@ == schema_rule(kind),
{
    match kind {
        SchemaFailure::AdditionalItems => "additionalItems",
        SchemaFailure::AdditionalProperties => "additionalProperties",
        SchemaFailure::AnyOf => "anyOf",
        SchemaFailure::BacktrackLimitExceeded => "backtrackLimit",
        SchemaFailure::Constant => "const",
        SchemaFailure::Contains => "contains",
        SchemaFailure::ContentEncoding => "contentEncoding",
        SchemaFailure::ContentMediaType => "contentMediaType",
        SchemaFailure::Enum => "enum",
        SchemaFailure::ExclusiveMaximum => "exclusiveMaximum",
        SchemaFailure::ExclusiveMinimum => "exclusiveMinimum",
        SchemaFailure::FalseSchema => "false",
        SchemaFailure::Format => "format",
        SchemaFailure::FromUtf8 => "utf8",
        SchemaFailure::MaxItems => "maxItems",
        SchemaFailure::Maximum => "maximum",
        SchemaFailure::MaxLength => "maxLength",
        SchemaFailure::MaxProperties => "maxProperties",
        SchemaFailure::MinItems => "minItems",
        SchemaFailure::Minimum => "minimum",
        SchemaFailure::MinLength => "minLength",
        SchemaFailure::MinProperties => "minProperties",
        SchemaFailure::MultipleOf => "multipleOf",
        SchemaFailure::Not => "not",
        SchemaFailure::OneOfMultipleValid => "oneOf",
        SchemaFailure::OneOfNotValid => "oneOf",
        SchemaFailure::Pattern => "pattern",
        SchemaFailure::PropertyNames => "propertyNames",
        SchemaFailure::Required => "required",
        SchemaFailure::Type => "type",
        SchemaFailure::UniqueItems => "uniqueItems",
        SchemaFailure::Custom => "custom",
        SchemaFailure::FileNotFound => "resolver",
        SchemaFailure::JsonParse => "resolver",
        SchemaFailure::InvalidUrl => "resolver",
        SchemaFailure::Resolver => "resolver",
        SchemaFailure::Schema => "schema",
        SchemaFailure::Utf8 => "utf8",
        SchemaFailure::InvalidReference => "unknown",
        SchemaFailure::UnevaluatedProperties => "unknown",
        SchemaFailure::UnknownReferenceScheme => "unknown",
        SchemaFailure::Other => "unknown",
    }
}

/// A character that can appear in a Rust identifier (ASCII).
pub open spec fn is_ident_char(c: char) -> bool {
    ('a' <= c && c <= 'z') || ('A' <= c && c <= 'Z') || ('0' <= c && c <= '9') || c == '_'
}

/// The identifier a text starts with.
pub open spec fn leading_ident(s: Seq<char>) -> Seq<char>
    decreases s.len(),
{
    if s.len() > 0 && is_ident_char(s[0]) {
        seq![s[0]] + leading_ident(s.drop_first())
    } else {
        Seq::empty()
    }
}

/// The identifier `s` starts with.
fn leading_ident_of(s: &str) -> (r: String)
    ensures
        r@ == leading_ident(s@),
{
    let n = s.unicode_len();
    let mut out = String::new();
    let mut i: usize = 0;
    assert(s@.skip(0) =~= s@);
    while i < n
        invariant
            0 <= i <= n,
            n == s@.len(),
            out@ + leading_ident(s@.skip(i as int)) == leading_ident(s@),
        decreases n - i,
    {
        let c = s.get_char(i);
        assert(s@.skip(i as int)[0] == c);
        assert(s@.skip(i as int).drop_first() =~= s@.skip(i + 1));
        if !(('a' <= c && c <= 'z') || ('A' <= c && c <= 'Z') || ('0' <= c && c <= '9') || c == '_') {
            assert(out@ =~= leading_ident(s@));
            return out;
        }
        push_char(&mut out, c);
        assert(out@ + leading_ident(s@.skip(i + 1)) =~= leading_ident(s@));
        i = i + 1;
    }
    assert(leading_ident(s@.skip(n as int)) =~= Seq::<char>::empty());
    assert(out@ =~= leading_ident(s@));
    out
}

/// The failure kind a variant name names.
pub open spec fn failure_named(n: Seq<char>) -> SchemaFailure {
    if n == "AdditionalItems"@ {
        SchemaFailure::AdditionalItems
    } else if n == "AdditionalProperties"@ {
        SchemaFailure::AdditionalProperties
    } else if n == "AnyOf"@ {
        SchemaFailure::AnyOf
    } else if n == "BacktrackLimitExceeded"@ {
        SchemaFailure::BacktrackLimitExceeded
    } else if n == "Constant"@ {
        SchemaFailure::Constant
    } else if n == "Contains"@ {
        SchemaFailure::Contains
    } else if n == "ContentEncoding"@ {
        SchemaFailure::ContentEncoding
    } else if n == "ContentMediaType"@ {
        SchemaFailure::ContentMediaType
    } else if n == "Custom"@ {
        SchemaFailure::Custom
    } else if n == "Enum"@ {
        SchemaFailure::Enum
    } else if n == "ExclusiveMaximum"@ {
        SchemaFailure::ExclusiveMaximum
    } else if n == "ExclusiveMinimum"@ {
        SchemaFailure::ExclusiveMinimum
    } else if n == "FalseSchema"@ {
        SchemaFailure::FalseSchema
    } else if n == "FileNotFound"@ {
        SchemaFailure::FileNotFound
    } else if n == "Format"@ {
        SchemaFailure::Format
    } else if n == "FromUtf8"@ {
        SchemaFailure::FromUtf8
    } else if n == "Utf8"@ {
        SchemaFailure::Utf8
    } else if n == "JSONParse"@ {
        SchemaFailure::JsonParse
    } else if n == "InvalidReference"@ {
        SchemaFailure::InvalidReference
    } else if n == "InvalidURL"@ {
        SchemaFailure::InvalidUrl
    } else if n == "MaxItems"@ {
        SchemaFailure::MaxItems
    } else if n == "Maximum"@ {
        SchemaFailure::Maximum
    } else if n == "MaxLength"@ {
        SchemaFailure::MaxLength
    } else if n == "MaxProperties"@ {
        SchemaFailure::MaxProperties
    } else if n == "MinItems"@ {
        SchemaFailure::MinItems
    } else if n == "Minimum"@ {
        SchemaFailure::Minimum
    } else if n == "MinLength"@ {
        SchemaFailure::MinLength
    } else if n == "MinProperties"@ {
        SchemaFailure::MinProperties
    } else if n == "MultipleOf"@ {
        SchemaFailure::MultipleOf
    } else if n == "Not"@ {
        SchemaFailure::Not
    } else if n == "OneOfMultipleValid"@ {
        SchemaFailure::OneOfMultipleValid
    } else if n == "OneOfNotValid"@ {
        SchemaFailure::OneOfNotValid
    } else if n == "Pattern"@ {
        SchemaFailure::Pattern
    } else if n == "PropertyNames"@ {
        SchemaFailure::PropertyNames
    } else if n == "Required"@ {
        SchemaFailure::Required
    } else if n == "Schema"@ {
        SchemaFailure::Schema
    } else if n == "Type"@ {
        SchemaFailure::Type
    } else if n == "UnevaluatedProperties"@ {
        SchemaFailure::UnevaluatedProperties
    } else if n == "UniqueItems"@ {
        SchemaFailure::UniqueItems
    } else if n == "UnknownReferenceScheme"@ {
        SchemaFailure::UnknownReferenceScheme
    } else if n == "Resolver"@ {
        SchemaFailure::Resolver
    } else {
        SchemaFailure::Other
    }
}

/// The failure kind named by the variant a `{:?}` rendering of the
/// validator's failure kind starts with.
pub fn failure_of_debug(debug: &str) -> (k: SchemaFailure)
    ensures
        k == failure_named(leading_ident(debug@)),
{
    let n = leading_ident_of(debug);
    let n = n.as_str();
    if text_eq(n, "AdditionalItems") {
        SchemaFailure::AdditionalItems
    } else if text_eq(n, "AdditionalProperties") {
        SchemaFailure::AdditionalProperties
    } else if text_eq(n, "AnyOf") {
        SchemaFailure::AnyOf
    } else if text_eq(n, "BacktrackLimitExceeded") {
        SchemaFailure::BacktrackLimitExceeded
    } else if text_eq(n, "Constant") {
        SchemaFailure::Constant
    } else if text_eq(n, "Contains") {
        SchemaFailure::Contains
    } else if text_eq(n, "ContentEncoding") {
        SchemaFailure::ContentEncoding
    } else if text_eq(n, "ContentMediaType") {
        SchemaFailure::ContentMediaType
    } else if text_eq(n, "Custom") {
        SchemaFailure::Custom
    } else if text_eq(n, "Enum") {
        SchemaFailure::Enum
    } else if text_eq(n, "ExclusiveMaximum") {
        SchemaFailure::ExclusiveMaximum
    } else if text_eq(n, "ExclusiveMinimum") {
        SchemaFailure::ExclusiveMinimum
    } else if text_eq(n, "FalseSchema") {
        SchemaFailure::FalseSchema
    } else if text_eq(n, "FileNotFound") {
        SchemaFailure::FileNotFound
    } else if text_eq(n, "Format") {
        SchemaFailure::Format
    } else if text_eq(n, "FromUtf8") {
        SchemaFailure::FromUtf8
    } else if text_eq(n, "Utf8") {
        SchemaFailure::Utf8
    } else if text_eq(n, "JSONParse") {
        SchemaFailure::JsonParse
    } else if text_eq(n, "InvalidReference") {
        SchemaFailure::InvalidReference
    } else if text_eq(n, "InvalidURL") {
        SchemaFailure::InvalidUrl
    } else if text_eq(n, "MaxItems") {
        SchemaFailure::MaxItems
    } else if text_eq(n, "Maximum") {
        SchemaFailure::Maximum
    } else if text_eq(n, "MaxLength") {
        SchemaFailure::MaxLength
    } else if text_eq(n, "MaxProperties") {
        SchemaFailure::MaxProperties
    } else if text_eq(n, "MinItems") {
        SchemaFailure::MinItems
    } else if text_eq(n, "Minimum") {
        SchemaFailure::Minimum
    } else if text_eq(n, "MinLength") {
        SchemaFailure::MinLength
    } else if text_eq(n, "MinProperties") {
        SchemaFailure::MinProperties
    } else if text_eq(n, "MultipleOf") {
        SchemaFailure::MultipleOf
    } else if text_eq(n, "Not") {
        SchemaFailure::Not
    } else if text_eq(n, "OneOfMultipleValid") {
        SchemaFailure::OneOfMultipleValid
    } else if text_eq(n, "OneOfNotValid") {
        SchemaFailure::OneOfNotValid
    } else if text_eq(n, "Pattern") {
        SchemaFailure::Pattern
    } else if text_eq(n, "PropertyNames") {
        SchemaFailure::PropertyNames
    } else if text_eq(n, "Required") {
        SchemaFailure::Required
    } else if text_eq(n, "Schema") {
        SchemaFailure::Schema
    } else if text_eq(n, "Type") {
        SchemaFailure::Type
    } else if text_eq(n, "UnevaluatedProperties") {
        SchemaFailure::UnevaluatedProperties
    } else if text_eq(n, "UniqueItems") {
        SchemaFailure::UniqueItems
    } else if text_eq(n, "UnknownReferenceScheme") {
        SchemaFailure::UnknownReferenceScheme
    } else if text_eq(n, "Resolver") {
        SchemaFailure::Resolver
    } else {
        SchemaFailure::Other
    }
}

/// What the validator reported for one body.
#[derive(Debug)]
pub enum SchemaReport {
    /// The schema itself did not compile; the compiler's message.
    NotCompiled(String),
    /// The body satisfies the schema.
    Valid,
    /// The first failure: instance pointer, `{:?}` of its kind, message.
    Violation(String, String, String),
}

/// What the draft-7 validator reports for a body against a schema
/// document.
pub uninterp spec fn draft7_report(schema: serde_json::Value, body: serde_json::Value) -> SchemaReport;

/// `jsonschema::JSONSchema::options().with_draft(Draft7).compile(schema)`,
/// then `validate(body)`: the compiler's message when the schema does not
/// compile, else the first failure as (instance pointer, `{:?}` of the
/// failure kind, message), or `Valid`. The contract names the report
/// ([`draft7_report`]) and claims it depends on the schema and the body
/// alone; which bodies a schema accepts is not restated.
#[verifier::external_body]
fn run_validator(schema: &serde_json::Value, body: &serde_json::Value) -> (r: SchemaReport)
    ensures
        r == draft7_report(*schema, *body),
{
    let compiled = match jsonschema::JSONSchema::options().with_draft(jsonschema::Draft::Draft7).compile(schema) {
        Ok(c) => c,
        Err(e) => return SchemaReport::NotCompiled(e.to_string()),
    };
    let report = match compiled.validate(body) {
        Ok(()) => SchemaReport::Valid,
        Err(mut errors) => match errors.next() {
            Some(e) => SchemaReport::Violation(e.instance_path.to_string(), format!("{:?}", e.kind), e.to_string()),
            None => SchemaReport::Valid,
        },
    };
    report
}

/// `true` when `r` is the settings verdict for `report`: a schema that does
/// not compile is a violation of rule `schema` at the root; the first
/// failure is a violation at its pointer, under its kind's keyword; no
/// failure is `Ok`.
pub open spec fn is_verdict_for(report: SchemaReport, r: Result<(), SettingsError>) -> bool {
    match report {
        SchemaReport::NotCompiled(e) => r matches Err(SettingsError::SchemaViolation { pointer, rule, detail })
            && pointer@ == Seq::<char>::empty() && rule@ == "schema"@ && detail@ == "could not compile node-kind schema: "@
            + e@,
        SchemaReport::Valid => r is Ok,
        SchemaReport::Violation(p, k, d) => r matches Err(SettingsError::SchemaViolation { pointer, rule, detail })
            && pointer == p && rule@ == schema_rule(failure_named(leading_ident(k@))) && detail == d,
    }
}

/// The settings verdict for a validator report (see [`is_verdict_for`]).
pub fn settings_verdict(report: SchemaReport) -> (r: Result<(), SettingsError>)
    ensures
        is_verdict_for(report, r),
        match report {
            SchemaReport::NotCompiled(e) => r matches Err(SettingsError::SchemaViolation { pointer, rule, detail })
                && pointer@ == Seq::<char>::empty() && rule@ == "schema"@ && detail@
                == "could not compile node-kind schema: "@ + e@,
            SchemaReport::Valid => r is Ok,
            SchemaReport::Violation(p, k, d) => r matches Err(SettingsError::SchemaViolation { pointer, rule, detail })
                && pointer == p && rule@ == schema_rule(failure_named(leading_ident(k@))) && detail == d,
        },
{
    match report {
        SchemaReport::NotCompiled(e) => Err(
            SettingsError::SchemaViolation {
                pointer: String::new(),
                rule: "schema",
                detail: String::from_str("could not compile node-kind schema: ").concat(e.as_str()),
            },
        ),
        SchemaReport::Valid => Ok(()),
        SchemaReport::Violation(p, k, d) => Err(
            SettingsError::SchemaViolation { pointer: p, rule: jsonschema_rule(failure_of_debug(k.as_str())), detail: d },
        ),
    }
}

/// The JSON document `serde_json::to_value` makes of a schema, or `None`
/// when serialising it fails.
pub uninterp spec fn schema_json(schema: schemars::schema::RootSchema) -> Option<serde_json::Value>;

/// `serde_json::to_value`: the JSON document of a schema, or the
/// serialisation error. The contract names the document ([`schema_json`])
/// and claims it, and whether serialising fails, depend on the schema
/// alone; the serialisation itself and the error are not restated.
#[verifier::external_body]
fn schema_document(schema: &schemars::schema::RootSchema) -> (r: Result<serde_json::Value, serde_json::Error>)
    ensures
        match r {
            Ok(v) => schema_json(*schema) == Some(v),
            Err(_) => schema_json(*schema) is None,
        },
{
    serde_json::to_value(schema)
}

/// Validate settings `body` against a kind's `schema` (JSON Schema, draft
/// 7). A schema that does not serialise is a `Deserialise` error; otherwise
/// the result is the verdict for what the validator reports on the schema's
/// document and the body: `Ok` exactly when it reports no failure.
pub fn default_validate(schema: &schemars::schema::RootSchema, body: &serde_json::Value) -> (r: Result<
    (),
    SettingsError,
>)
    ensures
        match schema_json(*schema) {
            None => r matches Err(SettingsError::Deserialise(_)),
            Some(doc) => is_verdict_for(draft7_report(doc, *body), r),
        },
        r is Ok <==> (schema_json(*schema) matches Some(doc) && draft7_report(doc, *body) is Valid),
        r matches Err(e) ==> (e is SchemaViolation || e is Deserialise),
{
    match schema_document(schema) {
        Err(e) => Err(SettingsError::Deserialise(e)),
        Ok(doc) => settings_verdict(run_validator(&doc, body)),
    }
}

} // verus!
