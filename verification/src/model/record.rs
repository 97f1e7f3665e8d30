//! Records read from JSON and validated against the schema that their kind
//! selects; the kind of a validated record is classified by type and source.
use vstd::prelude::*;
use vstd::string::StringSliceAdditionalSpecFns;
use crate::error::{ErrorCode, ErrorView, WDMSError, record_error};
use crate::json::{
    DocumentShape, ValidationFailure, document_shape, failure_view, failures_view, json_from_bytes,
    parse_json, schema_failures, schema_may_report, spec_value_shape,
};
use crate::record::record::{spec_parse_kind, split_kind};
pub use crate::record::record::RecordMap;
use crate::record::version::SemVer;
use crate::schema::{SchemaRegistry, registry_lookup};
use crate::text::{concat_str, join, join_strings, same_text};
use crate::validation::{describe_failures, failure_text, failure_texts};

verus! {

/// Why a record was refused: it did not read as JSON (the reader's
/// message), it failed validation (the reasons), or its kind is unknown.
#[derive(Debug)]
pub enum RecordErrorToDelete {
    Parsing(String),
    Validation(Vec<String>),
    UnknownKind(EntityKind),
}

/// The type of an entity, from the component of its kind.
#[derive(Debug)]
pub enum EntityType {
    Wellbore,
    WellLog,
    Uncategorised(String),
}

/// The value of an `EntityType`.
pub enum EntityTypeView {
    Wellbore,
    WellLog,
    Uncategorised(Seq<char>),
}

impl View for EntityType {
    type V = EntityTypeView;

    open spec fn view(&self) -> EntityTypeView {
        match self {
            EntityType::Wellbore => EntityTypeView::Wellbore,
            EntityType::WellLog => EntityTypeView::WellLog,
            EntityType::Uncategorised(s) => EntityTypeView::Uncategorised(s@),
        }
    }
}

/// Where an entity's definition comes from, from the first part of its kind.
#[derive(Debug)]
pub enum EntitySource {
    OSDU,
    Uncategorised(String),
}

/// The value of an `EntitySource`.
pub enum EntitySourceView {
    OSDU,
    Uncategorised(Seq<char>),
}

impl View for EntitySource {
    type V = EntitySourceView;

    open spec fn view(&self) -> EntitySourceView {
        match self {
            EntitySource::OSDU => EntitySourceView::OSDU,
            EntitySource::Uncategorised(s) => EntitySourceView::Uncategorised(s@),
        }
    }
}

/// A kind split into its parts, borrowed from the kind string.
#[derive(Debug)]
pub struct EntityKindSlice<'a> {
    pub ns1: &'a str,
    pub ns2: &'a str,
    pub component: &'a str,
    pub version: SemVer,
}

/// A kind classified: type, source and version.
#[derive(Debug)]
pub struct EntityKind {
    pub e_type: EntityType,
    pub source: EntitySource,
    pub version: SemVer,
}

/// The value of an `EntityKind`.
pub struct EntityKindView {
    pub e_type: EntityTypeView,
    pub source: EntitySourceView,
    pub version: SemVer,
}

impl View for EntityKind {
    type V = EntityKindView;

    open spec fn view(&self) -> EntityKindView {
        EntityKindView { e_type: self.e_type@, source: self.source@, version: self.version }
    }
}

/// The component of well logs is recognised; any other is kept as text.
pub open spec fn spec_entity_type(component: Seq<char>) -> EntityTypeView {
    if component == "work-product-component--WellLog"@ {
        EntityTypeView::WellLog
    } else {
        EntityTypeView::Uncategorised(component)
    }
}

/// The `osdu` namespace is recognised; any other is kept as text.
pub open spec fn spec_entity_source(namespace: Seq<char>) -> EntitySourceView {
    if namespace == "osdu"@ {
        EntitySourceView::OSDU
    } else {
        EntitySourceView::Uncategorised(namespace)
    }
}

/// The classified kind that a kind text reads as.
pub open spec fn spec_entity_kind(kind: Seq<char>) -> Option<EntityKindView> {
    match spec_parse_kind(kind) {
        Option::None => Option::None,
        Option::Some((ns1, _, component, version)) => Option::Some(
            EntityKindView {
                e_type: spec_entity_type(component),
                source: spec_entity_source(ns1),
                version,
            },
        ),
    }
}

impl EntityType {
    /// Classifies a component.
    pub fn from(value: &str) -> (r: EntityType)
        ensures
            r@ == spec_entity_type(value@),
    {
        if same_text(value, "work-product-component--WellLog") {
            return EntityType::WellLog;
        }
        EntityType::Uncategorised(String::from_str(value))
    }
}

impl EntitySource {
    /// Classifies a namespace.
    pub fn from(value: &str) -> (r: EntitySource)
        ensures
            r@ == spec_entity_source(value@),
    {
        if same_text(value, "osdu") {
            return EntitySource::OSDU;
        }
        EntitySource::Uncategorised(String::from_str(value))
    }
}

impl<'t> EntityKindSlice<'t> {
    /// Reads a kind `ns1:ns2:component:version`; `None` when it has fewer
    /// than three `:` or its last part is not a version. The kind is expected
    /// to match `[\w\-\.]+:[\w\-\.]+:[\w\-\.]+:[0-9]+.[0-9]+.[0-9]+`, but
    /// only the split and the version are checked: empty parts, other
    /// characters in the first three parts and `*` in the version are
    /// accepted.
    pub fn parse(v: &'t str) -> (r: Option<EntityKindSlice<'t>>)
        ensures
            match r {
                Option::Some(k) => spec_parse_kind(v@) == Option::Some(
                    (k.ns1@, k.ns2@, k.component@, k.version),
                ),
                Option::None => spec_parse_kind(v@) is None,
            },
    {
        let (ns1, ns2, component, ver) = match split_kind(v) {
            Option::Some(parts) => parts,
            Option::None => return Option::None,
        };
        match SemVer::from_str(ver) {
            Ok(version) => Option::Some(EntityKindSlice { ns1, ns2, component, version }),
            Err(_) => Option::None,
        }
    }

    /// Reads a kind, failing as `parse` does.
    pub fn try_from(value: &'t str) -> (r: Result<EntityKindSlice<'t>, ()>)
        ensures
            match r {
                Ok(k) => spec_parse_kind(value@) == Option::Some(
                    (k.ns1@, k.ns2@, k.component@, k.version),
                ),
                Err(_) => spec_parse_kind(value@) is None,
            },
    {
        match Self::parse(value) {
            Option::Some(v) => Ok(v),
            Option::None => Err(()),
        }
    }
}

impl EntityKind {
    /// Classifies a split kind by its component and first namespace.
    pub fn from(value: EntityKindSlice) -> (r: EntityKind)
        ensures
            r@ == (EntityKindView {
                e_type: spec_entity_type(value.component@),
                source: spec_entity_source(value.ns1@),
                version: value.version,
            }),
    {
        EntityKind {
            e_type: EntityType::from(value.component),
            source: EntitySource::from(value.ns1),
            version: value.version,
        }
    }

    /// Reads and classifies a kind.
    pub fn try_from(value: &str) -> (r: Result<EntityKind, ()>)
        ensures
            match r {
                Ok(k) => spec_entity_kind(value@) == Option::Some(k@),
                Err(_) => spec_entity_kind(value@) is None,
            },
    {
        match EntityKindSlice::try_from(value) {
            Ok(s) => Ok(EntityKind::from(s)),
            Err(e) => Err(e),
        }
    }
}

/// The error for a kind that does not read.
pub open spec fn invalid_kind_error(kind: Seq<char>) -> ErrorView {
    record_error(ErrorCode::ValidationFailed, "invalid kind: "@ + kind)
}

/// The schema that a kind selects: the first pattern of its component that
/// admits its version. A kind that does not read is a validation error; a
/// kind that selects no schema is an unknown kind.
pub fn schema_from_kind<'r>(registry: &'r SchemaRegistry, kind: &str) -> (r: Result<
    &'r jsonschema::JSONSchema,
    WDMSError,
>)
    ensures
        match spec_parse_kind(kind@) {
            Option::None => r matches Err(e) && e@ == invalid_kind_error(kind@),
            Option::Some((_, _, component, version)) => match registry_lookup(
                registry@,
                component,
                version,
            ) {
                Option::Some((i, j)) => r matches Ok(s) && *s == registry@[i].1[j].1,
                Option::None => r matches Err(e) && e@ == record_error(ErrorCode::UnknownKind, kind@),
            },
        },
{
    let kind_tokens = match EntityKindSlice::parse(kind) {
        Option::Some(t) => t,
        Option::None => {
            return Err(WDMSError::from_validation(concat_str("invalid kind: ", kind), Option::None));
        },
    };
    match registry.lookup(kind_tokens.component, &kind_tokens.version) {
        Option::Some(schema) => Ok(schema),
        Option::None => Err(
            WDMSError::from_record(ErrorCode::UnknownKind, String::from_str(kind), Option::None),
        ),
    }
}

/// The outcome of a validation of a record of kind `kind` that the schema
/// answered with `failures`: the failures described and joined by `, ` as
/// a validation error when there are any, else the classified kind.
pub open spec fn spec_conclude(kind: Seq<char>, failures: Seq<(Seq<char>, Seq<char>, Seq<char>)>) -> Result<
    EntityKindView,
    ErrorView,
> {
    if failures.len() > 0 {
        Err(
            record_error(
                ErrorCode::ValidationFailed,
                join(failures.map_values(|f: (Seq<char>, Seq<char>, Seq<char>)| failure_text(f.0, f.1, f.2)), ", "@),
            ),
        )
    } else {
        match spec_entity_kind(kind) {
            Option::Some(k) => Ok(k),
            Option::None => Err(invalid_kind_error(kind)),
        }
    }
}

/// A result as values.
pub open spec fn kind_result_view(r: Result<EntityKind, WDMSError>) -> Result<EntityKindView, ErrorView> {
    match r {
        Ok(k) => Ok(k@),
        Err(e) => Err(e@),
    }
}

/// Concludes a validation from the failures that the schema reported.
pub fn conclude_validation(kind: &str, failures: &Vec<ValidationFailure>) -> (r: Result<
    EntityKind,
    WDMSError,
>)
    ensures
        kind_result_view(r) == spec_conclude(kind@, failures@.map_values(|f: ValidationFailure| failure_view(f))),
{
    if failures.len() > 0 {
        let descriptions = describe_failures(failures);
        let joined = join_strings(&descriptions, ", ");
        assert(failures@.map_values(|f: ValidationFailure| failure_view(f)).map_values(
            |f: (Seq<char>, Seq<char>, Seq<char>)| failure_text(f.0, f.1, f.2),
        ) =~= failure_texts(failures@));
        return Err(WDMSError::from_validation(joined, Option::None));
    }
    match EntityKind::try_from(kind) {
        Ok(k) => Ok(k),
        Err(_) => Err(WDMSError::from_validation(concat_str("invalid kind: ", kind), Option::None)),
    }
}

/// What validating a document of the given shape against the registry
/// gives: a non-object and an object without a `kind` string are validation
/// errors; a kind that does not read or selects no schema fails as in
/// `schema_from_kind`; otherwise the outcome is what `spec_conclude` makes of
/// a list of failures that the selected schema may report on the document.
pub open spec fn shaped_outcome(
    registry: Seq<(Seq<char>, Seq<(EntityKindView, jsonschema::JSONSchema)>)>,
    shape: Option<Option<Seq<char>>>,
    value: serde_json::Value,
    r: Result<EntityKindView, ErrorView>,
) -> bool {
    match shape {
        Option::None => r == Err::<EntityKindView, ErrorView>(
            record_error(ErrorCode::ValidationFailed, "Invalid record, an object is expected"@),
        ),
        Option::Some(Option::None) => r == Err::<EntityKindView, ErrorView>(
            record_error(ErrorCode::ValidationFailed, "kind field is missing"@),
        ),
        Option::Some(Option::Some(kind)) => match spec_parse_kind(kind) {
            Option::None => r == Err::<EntityKindView, ErrorView>(invalid_kind_error(kind)),
            Option::Some((_, _, component, version)) => match registry_lookup(
                registry,
                component,
                version,
            ) {
                Option::None => r == Err::<EntityKindView, ErrorView>(
                    record_error(ErrorCode::UnknownKind, kind),
                ),
                Option::Some((i, j)) => exists|f: Seq<(Seq<char>, Seq<char>, Seq<char>)>|
                    schema_may_report(registry[i].1[j].1, value, f) && r == #[trigger] spec_conclude(
                        kind,
                        f,
                    ),
            },
        },
    }
}

/// Validates a document whose shape has been read: the record logic on what
/// it reads of the document, the document itself going only to the schema.
pub fn validate_shaped(registry: &SchemaRegistry, value: &serde_json::Value, shape: &DocumentShape) -> (r:
    Result<EntityKind, WDMSError>)
    ensures
        shaped_outcome(registry@, shape@, *value, kind_result_view(r)),
{
    match shape {
        DocumentShape::NotAnObject => Err(
            WDMSError::from_validation(
                String::from_str("Invalid record, an object is expected"),
                Option::None,
            ),
        ),
        DocumentShape::Object { kind: Option::None } => Err(
            WDMSError::from_validation(String::from_str("kind field is missing"), Option::None),
        ),
        DocumentShape::Object { kind: Option::Some(kind) } => {
            let schema = match schema_from_kind(registry, kind.as_str()) {
                Ok(s) => s,
                Err(e) => return Err(e),
            };
            let failures = schema_failures(schema, value);
            let r = conclude_validation(kind.as_str(), &failures);
            assert(failures@.map_values(|f: ValidationFailure| failure_view(f)) == failures_view(
                failures@,
            ));
            assert(kind_result_view(r) == spec_conclude(kind@, failures_view(failures@)));
            r
        },
    }
}

/// Validates a parsed document and returns its classified kind: the outcome
/// that `validate_shaped` gives for the shape of the document.
pub fn validate_record(registry: &SchemaRegistry, value: &serde_json::Value) -> (r: Result<
    EntityKind,
    WDMSError,
>)
    ensures
        shaped_outcome(registry@, spec_value_shape(*value), *value, kind_result_view(r)),
{
    let shape = document_shape(value);
    validate_shaped(registry, value, &shape)
}

/// A document validated against the schema of its kind, with its kind.
pub struct Record {
    pub value: serde_json::Value,
    pub kind: EntityKind,
}

/// A result of reading a record, as the record's kind or the error.
pub open spec fn record_result_view(r: Result<Record, WDMSError>) -> Result<EntityKindView, ErrorView> {
    match r {
        Ok(rec) => Ok(rec.kind@),
        Err(e) => Err(e@),
    }
}

/// The error for bytes that do not read as JSON.
pub open spec fn parsing_error(message: Seq<char>) -> ErrorView {
    ErrorView {
        category: crate::error::ErrorCategory::Record,
        code: ErrorCode::Parsing,
        description: message,
        source: Option::Some(message),
    }
}

/// What reading a record from `data` gives: a parsing error with the
/// reader's message, or the outcome of validating the document read, which
/// an accepted record holds.
pub open spec fn spec_record_from_bytes(
    registry: Seq<(Seq<char>, Seq<(EntityKindView, jsonschema::JSONSchema)>)>,
    data: Seq<u8>,
    r: Result<Record, WDMSError>,
) -> bool {
    match json_from_bytes(data) {
        Err(message) => record_result_view(r) == Err::<EntityKindView, ErrorView>(
            parsing_error(message),
        ),
        Ok(doc) => spec_record_from_document(registry, doc, r),
    }
}

/// What validating `doc` into a record gives: the outcome of validating its
/// shape, and on success a record that holds `doc`.
pub open spec fn spec_record_from_document(
    registry: Seq<(Seq<char>, Seq<(EntityKindView, jsonschema::JSONSchema)>)>,
    doc: serde_json::Value,
    r: Result<Record, WDMSError>,
) -> bool {
    &&& shaped_outcome(registry, spec_value_shape(doc), doc, record_result_view(r))
    &&& r matches Ok(rec) ==> rec.value == doc
}

impl Record {
    /// Reads a record from JSON text.
    pub fn from_string(registry: &SchemaRegistry, value: &str) -> (r: Result<Record, WDMSError>)
        ensures
            spec_record_from_bytes(registry@, value.spec_bytes(), r),
    {
        Self::from_slice(registry, value.as_bytes())
    }

    /// Reads a record from JSON bytes.
    pub fn from_slice(registry: &SchemaRegistry, value: &[u8]) -> (r: Result<Record, WDMSError>)
        ensures
            spec_record_from_bytes(registry@, value@, r),
    {
        match parse_json(value) {
            Err(message) => Err(WDMSError::from_json_error(message)),
            Ok(doc) => Self::from_json(registry, doc),
        }
    }

    /// Validates a parsed document into a record, as `validate_record` does;
    /// the document is kept as it is.
    pub fn from_json(registry: &SchemaRegistry, value: serde_json::Value) -> (r: Result<
        Record,
        WDMSError,
    >)
        ensures
            spec_record_from_document(registry@, value, r),
    {
        match validate_record(registry, &value) {
            Ok(kind) => Ok(Record { value, kind }),
            Err(e) => Err(e),
        }
    }
}

/// Law: reading a parsed document into a record gives an outcome that
/// validating the document could give (the same errors, or the same kind
/// for a list of failures that the schema may report), and a record holds
/// the document unchanged. The two calls are tied only through what the
/// schema may report: the schema may read referenced files when it first
/// resolves them, so two validations of one document need not agree.
pub proof fn lemma_from_json_as_validate_record(
    registry: Seq<(Seq<char>, Seq<(EntityKindView, jsonschema::JSONSchema)>)>,
    doc: serde_json::Value,
    r: Result<Record, WDMSError>,
)
    requires
        spec_record_from_document(registry, doc, r),
    ensures
        shaped_outcome(registry, spec_value_shape(doc), doc, record_result_view(r)),
        match r {
            Ok(rec) => rec.value == doc && record_result_view(r) == Ok::<EntityKindView, ErrorView>(
                rec.kind@,
            ),
            Err(e) => record_result_view(r) == Err::<EntityKindView, ErrorView>(e@),
        },
{
}

/// Law: a validation concludes with a kind only when the schema reported
/// no failure. Any failure refuses the record as an error of the record that
/// failed validation, whatever the failures are; with no failure, the kind is
/// the kind text read and classified: its version is the version read, and it
/// is a well log exactly when its component is that of well logs.
pub proof fn lemma_conclude_ok_only_without_failures(
    kind: Seq<char>,
    failures: Seq<(Seq<char>, Seq<char>, Seq<char>)>,
)
    ensures
        spec_conclude(kind, failures) is Ok ==> failures.len() == 0,
        failures.len() > 0 ==> (spec_conclude(kind, failures) matches Err(e) && e.category
            == crate::error::ErrorCategory::Record && e.code == ErrorCode::ValidationFailed),
        failures.len() == 0 ==> match spec_parse_kind(kind) {
            Option::Some((ns1, _, component, version)) => spec_conclude(kind, failures) matches Ok(k)
                && k.version == version && (k.e_type is WellLog <==> component
                == "work-product-component--WellLog"@) && (k.source is OSDU <==> ns1 == "osdu"@),
            Option::None => spec_conclude(kind, failures) is Err,
        },
{
    if failures.len() == 0 {
        if let Option::Some((ns1, _, component, _)) = spec_parse_kind(kind) {
            lemma_entity_type_only_well_log(component);
            lemma_entity_source_only_osdu(ns1);
        }
    }
}

/// Law: a document of the given shape is accepted with a kind only when it
/// has a kind text that selects a schema, and that schema may report no
/// failure on the document.
pub proof fn lemma_accepted_only_without_failures(
    registry: Seq<(Seq<char>, Seq<(EntityKindView, jsonschema::JSONSchema)>)>,
    shape: Option<Option<Seq<char>>>,
    value: serde_json::Value,
    k: EntityKindView,
)
    requires
        shaped_outcome(registry, shape, value, Ok(k)),
    ensures
        shape matches Option::Some(Option::Some(kind)) && spec_parse_kind(kind) matches Option::Some(
            (_, _, component, version),
        ) && registry_lookup(registry, component, version) matches Option::Some((i, j))
            && schema_may_report(
            registry[i].1[j].1,
            value,
            Seq::<(Seq<char>, Seq<char>, Seq<char>)>::empty(),
        ),
{
    if let Option::Some(Option::Some(kind)) = shape {
        if let Option::Some((_, _, component, version)) = spec_parse_kind(kind) {
            if let Option::Some((i, j)) = registry_lookup(registry, component, version) {
                let f = choose|f: Seq<(Seq<char>, Seq<char>, Seq<char>)>|
                    schema_may_report(registry[i].1[j].1, value, f) && Ok::<EntityKindView, ErrorView>(k)
                        == #[trigger] spec_conclude(kind, f);
                lemma_conclude_ok_only_without_failures(kind, f);
                assert(f =~= Seq::<(Seq<char>, Seq<char>, Seq<char>)>::empty());
            }
        }
    }
}

/// Law: the one component recognised as that of well logs is
/// `work-product-component--WellLog` itself; every other component is kept
/// as it is, uncategorised, however much it resembles it.
pub proof fn lemma_entity_type_only_well_log(component: Seq<char>)
    ensures
        spec_entity_type(component) is WellLog <==> component == "work-product-component--WellLog"@,
        component != "work-product-component--WellLog"@ ==> spec_entity_type(component)
            == EntityTypeView::Uncategorised(component),
{
}

/// Law: the one source recognised is `osdu` itself; every other first
/// namespace is kept as it is, uncategorised.
pub proof fn lemma_entity_source_only_osdu(namespace: Seq<char>)
    ensures
        spec_entity_source(namespace) is OSDU <==> namespace == "osdu"@,
        namespace != "osdu"@ ==> spec_entity_source(namespace) == EntitySourceView::Uncategorised(
            namespace,
        ),
{
}

} // verus!
