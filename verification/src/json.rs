//! JSON documents and JSON schemas as the record logic sees them: the
//! document is carried through untouched, and what the logic reads from it
//! (whether it is an object, and the text of its `kind` field) is held as
//! plain values beside it.
use vstd::prelude::*;

verus! {

#[verifier::external_type_specification]
#[verifier::external_body]
pub struct ExJsonValue(serde_json::Value);

#[verifier::external_type_specification]
#[verifier::external_body]
pub struct ExJsonSchema(jsonschema::JSONSchema);

/// What the record logic reads from a JSON document.
#[derive(Debug)]
pub enum DocumentShape {
    /// The document is not a JSON object.
    NotAnObject,
    /// The document is an object; `kind` is its `kind` field when that field
    /// holds a string.
    Object { kind: Option<String> },
}

impl View for DocumentShape {
    /// `None` for a document that is not an object; else the `kind` text.
    type V = Option<Option<Seq<char>>>;

    open spec fn view(&self) -> Option<Option<Seq<char>>> {
        match self {
            DocumentShape::NotAnObject => Option::None,
            DocumentShape::Object { kind } => Option::Some(
                match kind {
                    Option::Some(k) => Option::Some(k@),
                    Option::None => Option::None,
                },
            ),
        }
    }
}

/// One failure reported by a schema: where in the document, where in the
/// schema, and the message.
#[derive(Debug)]
pub struct ValidationFailure {
    pub instance_path: String,
    pub schema_path: String,
    pub message: String,
}

/// What `serde_json::from_slice` makes of `data`: the document, or the
/// display text of its error when the bytes are not one JSON document.
pub uninterp spec fn json_from_bytes(data: Seq<u8>) -> Result<serde_json::Value, Seq<char>>;

/// What `Value::as_object` then `Map::get(key)` give: `None` when the value
/// is not an object, else the field `key` when the object has it.
pub uninterp spec fn object_field(value: serde_json::Value, key: Seq<char>) -> Option<
    Option<serde_json::Value>,
>;

/// What `Value::as_str` gives: the text of a JSON string, else `None`.
pub uninterp spec fn value_text(value: serde_json::Value) -> Option<Seq<char>>;

/// Reads `data` as one JSON document with `serde_json::from_slice`.
/// Claims: the document, or the error's display text, is what
/// `json_from_bytes` names for these bytes (serde_json reads
/// deterministically). Which bytes are accepted is left unsaid.
#[verifier::external_body]
pub(crate) fn parse_json(data: &[u8]) -> (r: Result<serde_json::Value, String>)
    ensures
        match r {
            Ok(v) => json_from_bytes(data@) == Ok::<serde_json::Value, Seq<char>>(v),
            Err(msg) => json_from_bytes(data@) == Err::<serde_json::Value, Seq<char>>(msg@),
        },
{
    match serde_json::from_slice::<serde_json::Value>(data) {
        Ok(v) => Ok(v),
        Err(e) => Err(e.to_string()),
    }
}

/// The field `key` of a JSON object: `Value::as_object`, then `Map::get`.
/// Claims: the result is what `object_field` names for the value and key.
#[verifier::external_body]
pub(crate) fn object_get<'a>(value: &'a serde_json::Value, key: &str) -> (r: Option<
    Option<&'a serde_json::Value>,
>)
    ensures
        match r {
            Option::None => object_field(*value, key@) is None,
            Option::Some(Option::None) => object_field(*value, key@) == Option::Some(
                Option::<serde_json::Value>::None,
            ),
            Option::Some(Option::Some(f)) => object_field(*value, key@) == Option::Some(
                Option::Some(*f),
            ),
        },
{
    match value.as_object() {
        Option::Some(map) => Option::Some(map.get(key)),
        Option::None => Option::None,
    }
}

/// The text of a JSON string: `Value::as_str`. Claims: the result is what
/// `value_text` names for the value.
#[verifier::external_body]
pub(crate) fn value_as_str(value: &serde_json::Value) -> (r: Option<&str>)
    ensures
        match r {
            Option::Some(s) => value_text(*value) == Option::Some(s@),
            Option::None => value_text(*value) is None,
        },
{
    value.as_str()
}

/// What the record logic reads of a document: `None` when it is not an
/// object, else the text of its `kind` field when that field is a string.
pub open spec fn spec_value_shape(value: serde_json::Value) -> Option<Option<Seq<char>>> {
    match object_field(value, "kind"@) {
        Option::None => Option::None,
        Option::Some(Option::None) => Option::Some(Option::None),
        Option::Some(Option::Some(field)) => Option::Some(value_text(field)),
    }
}

/// Reads the shape of a document: whether it is an object, and the text of
/// its `kind` field.
pub fn document_shape(value: &serde_json::Value) -> (r: DocumentShape)
    ensures
        r@ == spec_value_shape(*value),
{
    match object_get(value, "kind") {
        Option::None => DocumentShape::NotAnObject,
        Option::Some(Option::None) => DocumentShape::Object { kind: Option::None },
        Option::Some(Option::Some(field)) => match value_as_str(field) {
            Option::Some(k) => DocumentShape::Object { kind: Option::Some(String::from_str(k)) },
            Option::None => DocumentShape::Object { kind: Option::None },
        },
    }
}

/// A failure's parts as character sequences: instance path, schema path,
/// message.
pub open spec fn failure_view(f: ValidationFailure) -> (Seq<char>, Seq<char>, Seq<char>) {
    (f.instance_path@, f.schema_path@, f.message@)
}

/// A list of failures as character sequences, in order.
pub open spec fn failures_view(fs: Seq<ValidationFailure>) -> Seq<(Seq<char>, Seq<char>, Seq<char>)> {
    fs.map_values(|f: ValidationFailure| failure_view(f))
}

/// Whether `failures` (instance path, schema path and message of each, in
/// order) is a list that `JSONSchema::validate` of `schema` may report on
/// `value`. This is a relation, not a function: a schema resolves its
/// references lazily, reading the referenced files on its first
/// validation, so its answer on one document may change with what is on
/// disk, and the schema path it reports differs between the first and
/// later validations.
pub uninterp spec fn schema_may_report(
    schema: jsonschema::JSONSchema,
    value: serde_json::Value,
    failures: Seq<(Seq<char>, Seq<char>, Seq<char>)>,
) -> bool;

/// Validates `value` against `schema` with `JSONSchema::validate` and returns
/// the reported failures, each with its instance path, schema path and
/// message as displayed; none when `validate` returns `Ok`. Claims: the list
/// is one that `schema` may report on `value`. Which list that is stays
/// unsaid: the schema may read referenced files when it first resolves them.
#[verifier::external_body]
pub(crate) fn schema_failures(schema: &jsonschema::JSONSchema, value: &serde_json::Value) -> (r: Vec<
    ValidationFailure,
>)
    ensures
        schema_may_report(*schema, *value, failures_view(r@)),
{
    match schema.validate(value) {
        Ok(()) => Vec::new(),
        Err(errors) => errors.map(
            |e| ValidationFailure {
                instance_path: e.instance_path.to_string(),
                schema_path: e.schema_path.to_string(),
                message: e.to_string(),
            },
        ).collect(),
    }
}

} // verus!
