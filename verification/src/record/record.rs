//! Kinds of records (`namespace:source:component:version`) and records
//! checked against the schema that their kind selects.
use vstd::prelude::*;
use crate::record::version::{SemVer, lemma_semver_text_roundtrip, semver_text, spec_parse_semver};
use vstd::string::StringSliceAdditionalSpecFns;
use crate::json::{
    DocumentShape, ValidationFailure, document_shape, failure_view, failures_view, json_from_bytes,
    parse_json, schema_failures, schema_may_report, spec_value_shape,
};
use crate::model::record::EntityKindView;
use crate::schema::{SchemaRegistry, registry_lookup};
use crate::text::{
    find_char, find_char_index, is_first_index, lacks_char, lemma_find_char, lemma_find_char_is,
};
use crate::validation::{describe_failures, failure_text, failure_texts};

verus! {

/// The four `:`-separated parts of a kind: the text before the first `:`,
/// between the first and the second, between the second and the third, and
/// after the third (which may hold further `:`).
pub open spec fn spec_split_kind(s: Seq<char>) -> Option<(Seq<char>, Seq<char>, Seq<char>, Seq<char>)> {
    match find_char(s, ':') {
        Option::None => Option::None,
        Option::Some(p1) => {
            let r1 = s.subrange(p1 + 1, s.len() as int);
            match find_char(r1, ':') {
                Option::None => Option::None,
                Option::Some(p2) => {
                    let r2 = r1.subrange(p2 + 1, r1.len() as int);
                    match find_char(r2, ':') {
                        Option::None => Option::None,
                        Option::Some(p3) => Option::Some(
                            (
                                s.subrange(0, p1),
                                r1.subrange(0, p2),
                                r2.subrange(0, p3),
                                r2.subrange(p3 + 1, r2.len() as int),
                            ),
                        ),
                    }
                },
            }
        },
    }
}

/// How a kind reads: split at the first three `:`, the last part read as a
/// version; `None` when there are fewer than three `:` or the version does
/// not read.
pub open spec fn spec_parse_kind(s: Seq<char>) -> Option<(Seq<char>, Seq<char>, Seq<char>, SemVer)> {
    match spec_split_kind(s) {
        Option::None => Option::None,
        Option::Some((a, b, c, v)) => match spec_parse_semver(v) {
            Ok(ver) => Option::Some((a, b, c, ver)),
            Err(_) => Option::None,
        },
    }
}

/// Splits a kind into its four parts, borrowing from it.
pub fn split_kind<'a>(v: &'a str) -> (r: Option<(&'a str, &'a str, &'a str, &'a str)>)
    ensures
        match r {
            Option::Some((a, b, c, d)) => spec_split_kind(v@) == Option::Some((a@, b@, c@, d@)),
            Option::None => spec_split_kind(v@) is None,
        },
{
    let n = v.unicode_len();
    proof {
        lemma_find_char(v@, ':');
    }
    let p1 = match find_char_index(v, ':') {
        Option::Some(p) => p,
        Option::None => return Option::None,
    };
    let r1 = v.substring_char(p1 + 1, n);
    assert(r1@ =~= v@.subrange(p1 + 1, n as int));
    let n1 = r1.unicode_len();
    proof {
        lemma_find_char(r1@, ':');
    }
    let p2 = match find_char_index(r1, ':') {
        Option::Some(p) => p,
        Option::None => return Option::None,
    };
    let r2 = r1.substring_char(p2 + 1, n1);
    let n2 = r2.unicode_len();
    proof {
        lemma_find_char(r2@, ':');
    }
    let p3 = match find_char_index(r2, ':') {
        Option::Some(p) => p,
        Option::None => return Option::None,
    };
    Option::Some(
        (
            v.substring_char(0, p1),
            r1.substring_char(0, p2),
            r2.substring_char(0, p3),
            r2.substring_char(p3 + 1, n2),
        ),
    )
}

/// The text of a kind built from its parts.
pub open spec fn kind_text(ns1: Seq<char>, ns2: Seq<char>, component: Seq<char>, version: Seq<char>) -> Seq<char> {
    ns1 + seq![':'] + ns2 + seq![':'] + component + seq![':'] + version
}

/// Law: parts without `:` joined by `:` split back into the same parts; the
/// last part may hold anything.
pub proof fn lemma_kind_text_split(ns1: Seq<char>, ns2: Seq<char>, component: Seq<char>, version: Seq<char>)
    requires
        lacks_char(ns1, ':'),
        lacks_char(ns2, ':'),
        lacks_char(component, ':'),
    ensures
        spec_split_kind(kind_text(ns1, ns2, component, version)) == Option::Some(
            (ns1, ns2, component, version),
        ),
{
    let s = kind_text(ns1, ns2, component, version);
    let a = ns1.len() as int;
    assert(s =~= ns1 + (seq![':'] + ns2 + seq![':'] + component + seq![':'] + version));
    assert(is_first_index(s, ':', a)) by {
        assert forall|j: int| 0 <= j < a implies s[j] != ':' by {
            assert(s[j] == ns1[j]);
        }
    }
    lemma_find_char_is(s, ':', a);
    let r1 = s.subrange(a + 1, s.len() as int);
    assert(r1 =~= ns2 + seq![':'] + component + seq![':'] + version);
    let b = ns2.len() as int;
    assert(is_first_index(r1, ':', b)) by {
        assert forall|j: int| 0 <= j < b implies r1[j] != ':' by {
            assert(r1[j] == ns2[j]);
        }
    }
    lemma_find_char_is(r1, ':', b);
    let r2 = r1.subrange(b + 1, r1.len() as int);
    assert(r2 =~= component + seq![':'] + version);
    let c = component.len() as int;
    assert(is_first_index(r2, ':', c)) by {
        assert forall|j: int| 0 <= j < c implies r2[j] != ':' by {
            assert(r2[j] == component[j]);
        }
    }
    lemma_find_char_is(r2, ':', c);
    assert(s.subrange(0, a) =~= ns1);
    assert(r1.subrange(0, b) =~= ns2);
    assert(r2.subrange(0, c) =~= component);
    assert(r2.subrange(c + 1, r2.len() as int) =~= version);
}

/// Law: a kind written from parts without `:` and a version reads back as
/// those parts and that version.
pub proof fn lemma_kind_text_roundtrip(ns1: Seq<char>, ns2: Seq<char>, component: Seq<char>, version: SemVer)
    requires
        lacks_char(ns1, ':'),
        lacks_char(ns2, ':'),
        lacks_char(component, ':'),
    ensures
        spec_parse_kind(kind_text(ns1, ns2, component, semver_text(version))) == Option::Some(
            (ns1, ns2, component, version),
        ),
{
    lemma_kind_text_split(ns1, ns2, component, semver_text(version));
    lemma_semver_text_roundtrip(version);
}

/// A kind `ns1:ns2:component:version`, its text parts borrowed from the
/// kind string.
#[derive(Debug)]
pub struct EntityKind<'a> {
    pub ns1: &'a str,
    pub ns2: &'a str,
    pub component: &'a str,
    pub version: SemVer,
}

impl<'t> EntityKind<'t> {
    /// Reads a kind `ns1:ns2:component:version`; `None` when it has fewer
    /// than three `:` or its last part is not a version. The kind is expected
    /// to match `[\w\-\.]+:[\w\-\.]+:[\w\-\.]+:[0-9]+.[0-9]+.[0-9]+`, but
    /// only the split and the version are checked: empty parts, other
    /// characters in the first three parts and `*` in the version are
    /// accepted.
    pub fn parse(v: &'t str) -> (r: Option<EntityKind<'t>>)
        ensures
            match r {
                Option::Some(k) => spec_parse_kind(v@) == Option::Some(
                    (k.ns1@, k.ns2@, k.component@, k.version),
                ),
                Option::None => spec_parse_kind(v@) is None,
            },
    {
        let (ns1, ns2, component, ver) = match split_kind(v) {
            Option::Some(parts) => parts,
            Option::None => return Option::None,
        };
        match SemVer::from_str(ver) {
            Ok(version) => Option::Some(EntityKind { ns1, ns2, component, version }),
            Err(_) => Option::None,
        }
    }
}


/// The schema that a kind selects, or `None` when the kind does not read
/// or selects none.
pub fn schema_from_kind<'r>(registry: &'r SchemaRegistry, kind: &str) -> (r: Option<
    &'r jsonschema::JSONSchema,
>)
    ensures
        match spec_parse_kind(kind@) {
            Option::None => r is None,
            Option::Some((_, _, component, version)) => match registry_lookup(
                registry@,
                component,
                version,
            ) {
                Option::Some((i, j)) => r matches Option::Some(s) && *s == registry@[i].1[j].1,
                Option::None => r is None,
            },
        },
{
    let k = EntityKind::parse(kind)?;
    registry.lookup(k.component, &k.version)
}

/// The fields of a record that is a JSON object.
pub struct RecordMap<'a> {
    shape: &'a DocumentShape,
}

impl<'t> RecordMap<'t> {
    /// The shape of the object that this map reads.
    pub closed spec fn shape(&self) -> Option<Option<Seq<char>>> {
        self.shape@
    }

    /// The `kind` field, when it holds a string.
    pub fn kind(&self) -> (r: Option<&'t str>)
        ensures
            match self.shape() {
                Option::Some(Option::Some(k)) => r matches Option::Some(s) && s@ == k,
                _ => r is None,
            },
    {
        match self.shape {
            DocumentShape::Object { kind: Option::Some(k) } => Option::Some(k.as_str()),
            _ => Option::None,
        }
    }
}

/// A JSON document held as a record, with what the record logic reads of it.
pub struct Record {
    value: serde_json::Value,
    shape: DocumentShape,
}

impl Record {
    /// The shape held is what `document_shape` reads of the document.
    #[verifier::type_invariant]
    spec fn shape_is_read(self) -> bool {
        self.shape@ == spec_value_shape(self.value)
    }
}

/// Where the kind text of a document leads in the registry: the entry and
/// pattern of the schema it selects, or `None` when there is no kind text,
/// the kind does not read, or it selects no schema.
pub open spec fn selected_schema(
    registry: Seq<(Seq<char>, Seq<(EntityKindView, jsonschema::JSONSchema)>)>,
    kind: Option<Seq<char>>,
) -> Option<(int, int)> {
    match kind {
        Option::None => Option::None,
        Option::Some(k) => match spec_parse_kind(k) {
            Option::None => Option::None,
            Option::Some((_, _, component, version)) => registry_lookup(registry, component, version),
        },
    }
}

/// What validating a document of the given shape gives: a single message
/// when the document is not an object or its kind selects no schema, else
/// the outcome for a list of failures that the selected schema may report on
/// the document.
pub open spec fn validation_outcome(
    registry: Seq<(Seq<char>, Seq<(EntityKindView, jsonschema::JSONSchema)>)>,
    shape: Option<Option<Seq<char>>>,
    value: serde_json::Value,
    r: Result<(), Seq<Seq<char>>>,
) -> bool {
    match shape {
        Option::None => r == Err::<(), Seq<Seq<char>>>(seq!["An object is expected"@]),
        Option::Some(kind) => match selected_schema(registry, kind) {
            Option::None => r == Err::<(), Seq<Seq<char>>>(seq!["no schema found"@]),
            Option::Some((i, j)) => exists|f: Seq<(Seq<char>, Seq<char>, Seq<char>)>|
                schema_may_report(registry[i].1[j].1, value, f) && r == #[trigger] failures_outcome(f),
        },
    }
}

/// What admitting a document as a validated record gives: `not an object`
/// for a document that is not an object, else the outcome of validation.
pub open spec fn admission_outcome(
    registry: Seq<(Seq<char>, Seq<(EntityKindView, jsonschema::JSONSchema)>)>,
    shape: Option<Option<Seq<char>>>,
    value: serde_json::Value,
    r: Result<(), Seq<Seq<char>>>,
) -> bool {
    match shape {
        Option::None => r == Err::<(), Seq<Seq<char>>>(seq!["not an object"@]),
        Option::Some(_) => validation_outcome(registry, shape, value, r),
    }
}

/// The outcome for the failures that a schema reported: `Ok` for none, else
/// their descriptions.
pub open spec fn failures_outcome(f: Seq<(Seq<char>, Seq<char>, Seq<char>)>) -> Result<(), Seq<Seq<char>>> {
    if f.len() == 0 {
        Ok(())
    } else {
        Err(f.map_values(|x: (Seq<char>, Seq<char>, Seq<char>)| failure_text(x.0, x.1, x.2)))
    }
}

/// A list of messages as values.
pub open spec fn messages_view(r: Result<(), Vec<String>>) -> Result<(), Seq<Seq<char>>> {
    match r {
        Ok(()) => Ok(()),
        Err(v) => Err(v@.map_values(|s: String| s@)),
    }
}

/// A list holding one message.
fn one_message(m: &str) -> (r: Vec<String>)
    ensures
        r@.map_values(|s: String| s@) == seq![m@],
{
    let mut v: Vec<String> = Vec::new();
    v.push(String::from_str(m));
    assert(v@.map_values(|s: String| s@) =~= seq![m@]);
    v
}

/// The outcome of a validation for the failures that the schema reported:
/// `Ok` for none, else the description of each, in order.
pub fn failures_result(failures: &Vec<ValidationFailure>) -> (r: Result<(), Vec<String>>)
    ensures
        messages_view(r) == failures_outcome(failures@.map_values(|f: ValidationFailure| failure_view(f))),
{
    if failures.len() == 0 {
        return Ok(());
    }
    let descriptions = describe_failures(failures);
    assert(failures@.map_values(|f: ValidationFailure| failure_view(f)).map_values(
        |x: (Seq<char>, Seq<char>, Seq<char>)| failure_text(x.0, x.1, x.2),
    ) =~= failure_texts(failures@));
    Err(descriptions)
}

impl Record {
    /// The document.
    pub closed spec fn document(&self) -> serde_json::Value {
        self.value
    }

    /// What the record logic reads of the document.
    pub open spec fn shape(&self) -> Option<Option<Seq<char>>> {
        spec_value_shape(self.document())
    }

    /// Holds a document as a record without validating it; only an object is
    /// accepted, else the document comes back with `not an object`.
    pub fn from_object_unvalidated(instance: serde_json::Value) -> (r: Result<
        Record,
        (serde_json::Value, String),
    >)
        ensures
            match spec_value_shape(instance) {
                Option::None => r matches Err((v, msg)) && v == instance && msg@ == "not an object"@,
                Option::Some(_) => r matches Ok(rec) && rec.document() == instance,
            },
    {
        let shape = document_shape(&instance);
        match shape {
            DocumentShape::NotAnObject => Err((instance, String::from_str("not an object"))),
            _ => Ok(Record { value: instance, shape }),
        }
    }

    /// Reads JSON text and holds it as a record without validating it; text
    /// that does not read gives the reader's message, a document that is not
    /// an object gives `not an object`.
    pub fn from_json(json_str: &str) -> (r: Result<Record, String>)
        ensures
            match json_from_bytes(json_str.spec_bytes()) {
                Err(msg) => r matches Err(m) && m@ == msg,
                Ok(doc) => match spec_value_shape(doc) {
                    Option::None => r matches Err(m) && m@ == "not an object"@,
                    Option::Some(_) => r matches Ok(rec) && rec.document() == doc,
                },
            },
    {
        let doc = match parse_json(json_str.as_bytes()) {
            Ok(doc) => doc,
            Err(msg) => return Err(msg),
        };
        match Self::from_object_unvalidated(doc) {
            Ok(rec) => Ok(rec),
            Err((_, msg)) => Err(msg),
        }
    }

    /// Holds a document as a record once it validates against the schema of
    /// its kind; else the document comes back with the reasons.
    pub fn from_object_validated(registry: &SchemaRegistry, instance: serde_json::Value) -> (r: Result<
        Record,
        (serde_json::Value, Vec<String>),
    >)
        ensures
            match r {
                Ok(rec) => rec.document() == instance && admission_outcome(
                    registry@,
                    spec_value_shape(instance),
                    instance,
                    Ok(()),
                ),
                Err((v, msgs)) => v == instance && admission_outcome(
                    registry@,
                    spec_value_shape(instance),
                    instance,
                    messages_view(Err(msgs)),
                ),
            },
    {
        let shape = document_shape(&instance);
        if let DocumentShape::NotAnObject = shape {
            let msgs = one_message("not an object");
            return Err((instance, msgs));
        }
        let record = Record { value: instance, shape };
        match record.validate(registry) {
            Err(s) => Err((record.into_document(), s)),
            Ok(()) => Ok(record),
        }
    }

    /// The document, given back.
    fn into_document(self) -> (r: serde_json::Value)
        ensures
            r == self.document(),
    {
        self.value
    }

    /// The fields of the record, when it is an object.
    pub fn as_map(&self) -> (r: Option<RecordMap>)
        ensures
            match r {
                Option::Some(m) => self.shape() is Some && m.shape() == self.shape(),
                Option::None => self.shape() is None,
            },
    {
        proof {
            use_type_invariant(self);
        }
        match self.shape {
            DocumentShape::NotAnObject => Option::None,
            _ => Option::Some(RecordMap { shape: &self.shape }),
        }
    }

    /// Validates the record against the schema that its kind selects; the
    /// failures that the schema reports become the messages, as
    /// `failures_result` says.
    pub fn validate(&self, registry: &SchemaRegistry) -> (r: Result<(), Vec<String>>)
        ensures
            validation_outcome(registry@, self.shape(), self.document(), messages_view(r)),
    {
        proof {
            use_type_invariant(self);
        }
        match &self.shape {
            DocumentShape::NotAnObject => Err(one_message("An object is expected")),
            DocumentShape::Object { kind } => {
                let schema = match kind {
                    Option::None => Option::None,
                    Option::Some(k) => schema_from_kind(registry, k.as_str()),
                };
                match schema {
                    Option::None => Err(one_message("no schema found")),
                    Option::Some(s) => {
                        let failures = schema_failures(s, &self.value);
                        assert(failures@.map_values(|f: ValidationFailure| failure_view(f))
                            == failures_view(failures@));
                        failures_result(&failures)
                    },
                }
            },
        }
    }
}

/// Law: a record admitted as validated may validate again: `Ok` is an
/// outcome that `Record::validate` can give for its document, because the
/// selected schema may report no failures on it. That it does validate
/// again is not claimed: the schema may read referenced files when it first
/// resolves them.
pub proof fn lemma_admitted_validates(
    registry: Seq<(Seq<char>, Seq<(EntityKindView, jsonschema::JSONSchema)>)>,
    doc: serde_json::Value,
)
    requires
        admission_outcome(registry, spec_value_shape(doc), doc, Ok(())),
    ensures
        spec_value_shape(doc) is Some,
        validation_outcome(registry, spec_value_shape(doc), doc, Ok(())),
        match selected_schema(registry, spec_value_shape(doc)->Some_0) {
            Option::Some((i, j)) => schema_may_report(
                registry[i].1[j].1,
                doc,
                Seq::<(Seq<char>, Seq<char>, Seq<char>)>::empty(),
            ),
            Option::None => false,
        },
{
    if let Option::Some((i, j)) = selected_schema(registry, spec_value_shape(doc)->Some_0) {
        let f = choose|f: Seq<(Seq<char>, Seq<char>, Seq<char>)>|
            schema_may_report(registry[i].1[j].1, doc, f) && Ok::<(), Seq<Seq<char>>>(()) == #[trigger] failures_outcome(f);
        assert(f.len() == 0);
        assert(f =~= Seq::<(Seq<char>, Seq<char>, Seq<char>)>::empty());
    }
}

/// Law: validation succeeds only when the schema reported no failure; else
/// there is one message per failure, in the order reported, each naming the
/// failure's instance path, schema path and message.
pub proof fn lemma_failures_outcome(failures: Seq<(Seq<char>, Seq<char>, Seq<char>)>)
    ensures
        failures_outcome(failures) is Ok <==> failures.len() == 0,
        failures.len() > 0 ==> (failures_outcome(failures) matches Err(msgs) && msgs.len()
            == failures.len() && forall|i: int|
            0 <= i < failures.len() ==> #[trigger] msgs[i] == failures[i].0 + " ("@ + failures[i].1
                + "): "@ + failures[i].2),
{
}

/// Law: a record validates only when its kind selects a schema and that
/// schema may report no failure on its document.
pub proof fn lemma_validated_only_without_failures(
    registry: Seq<(Seq<char>, Seq<(EntityKindView, jsonschema::JSONSchema)>)>,
    shape: Option<Option<Seq<char>>>,
    doc: serde_json::Value,
)
    requires
        validation_outcome(registry, shape, doc, Ok(())),
    ensures
        shape matches Option::Some(kind) && selected_schema(registry, kind) matches Option::Some((i, j))
            && schema_may_report(
            registry[i].1[j].1,
            doc,
            Seq::<(Seq<char>, Seq<char>, Seq<char>)>::empty(),
        ),
{
    if let Option::Some(kind) = shape {
        if let Option::Some((i, j)) = selected_schema(registry, kind) {
            let f = choose|f: Seq<(Seq<char>, Seq<char>, Seq<char>)>|
                schema_may_report(registry[i].1[j].1, doc, f) && Ok::<(), Seq<Seq<char>>>(())
                    == #[trigger] failures_outcome(f);
            lemma_failures_outcome(f);
            assert(f =~= Seq::<(Seq<char>, Seq<char>, Seq<char>)>::empty());
        }
    }
}

} // verus!
