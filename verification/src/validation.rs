//! Where the schemas that OSDU schemas refer to are found on disk, and how
//! a schema validation failure is described.
use vstd::prelude::*;
use crate::json::ValidationFailure;
use crate::text::{concat_str, has_prefix, starts_with};

verus! {

/// Base URL of the published OSDU schemas.
pub const BASE_OSDU_SCHEMA_URL: &'static str = "https://schema.osdu.opengroup.org/json/";

/// Local directory that mirrors the published OSDU schemas.
pub const SCHEMA_LOCAL_BASE_DIR: &'static str = "res/schemas/";

/// The local path of a schema reference: the reference with the published
/// base replaced by the local directory; `None` for a reference elsewhere.
pub open spec fn spec_schema_ref_path(url: Seq<char>) -> Option<Seq<char>> {
    let base = BASE_OSDU_SCHEMA_URL@;
    if has_prefix(url, base) {
        Option::Some(SCHEMA_LOCAL_BASE_DIR@ + url.subrange(base.len() as int, url.len() as int))
    } else {
        Option::None
    }
}

/// Maps a schema reference, given by its URL text, to the local copy of the
/// schema.
pub fn osdu_schema_ref_to_local_path(url: &str) -> (r: Option<String>)
    ensures
        match r {
            Option::Some(p) => spec_schema_ref_path(url@) == Option::Some(p@),
            Option::None => spec_schema_ref_path(url@) is None,
        },
{
    let base = BASE_OSDU_SCHEMA_URL;
    if starts_with(url, base) {
        let rest = url.substring_char(base.unicode_len(), url.unicode_len());
        return Option::Some(concat_str(SCHEMA_LOCAL_BASE_DIR, rest));
    }
    Option::None
}

/// Law: a reference under the published base maps to the same relative path
/// under the local directory.
pub proof fn lemma_schema_ref_path(relative: Seq<char>)
    ensures
        spec_schema_ref_path(BASE_OSDU_SCHEMA_URL@ + relative) == Option::Some(
            SCHEMA_LOCAL_BASE_DIR@ + relative,
        ),
{
    let url = BASE_OSDU_SCHEMA_URL@ + relative;
    let n = BASE_OSDU_SCHEMA_URL@.len() as int;
    assert(url.subrange(0, n) =~= BASE_OSDU_SCHEMA_URL@);
    assert(url.subrange(n, url.len() as int) =~= relative);
}

/// How a failure displays: `<instance path> (<schema path>): <message>`.
pub open spec fn failure_text(instance_path: Seq<char>, schema_path: Seq<char>, message: Seq<char>) -> Seq<char> {
    instance_path + " ("@ + schema_path + "): "@ + message
}

/// Describes a schema validation failure.
pub fn validation_error_descr(error: &ValidationFailure) -> (r: String)
    ensures
        r@ == failure_text(error.instance_path@, error.schema_path@, error.message@),
{
    let mut r = concat_str(error.instance_path.as_str(), " (");
    r.append(error.schema_path.as_str());
    r.append("): ");
    r.append(error.message.as_str());
    r
}

/// The description of each failure, in order.
pub open spec fn failure_texts(failures: Seq<ValidationFailure>) -> Seq<Seq<char>> {
    failures.map_values(
        |f: ValidationFailure| failure_text(f.instance_path@, f.schema_path@, f.message@),
    )
}

/// Describes each failure that a schema reported, in order.
pub fn describe_failures(failures: &Vec<ValidationFailure>) -> (r: Vec<String>)
    ensures
        r@.map_values(|s: String| s@) == failure_texts(failures@),
{
    let mut descriptions: Vec<String> = Vec::new();
    let n = failures.len();
    let mut i: usize = 0;
    while i < n
        invariant
            n == failures@.len(),
            i <= n,
            descriptions@.len() == i,
            forall|k: int|
                0 <= k < i ==> #[trigger] descriptions@[k]@ == failure_texts(failures@)[k],
        decreases n - i,
    {
        descriptions.push(validation_error_descr(&failures[i]));
        i = i + 1;
    }
    assert(descriptions@.map_values(|s: String| s@) =~= failure_texts(failures@));
    descriptions
}

} // verus!
