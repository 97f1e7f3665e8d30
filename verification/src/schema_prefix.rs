//! Schemas found by the prefix of a kind: the kind without its two leading
//! namespaces, such as `work-product-component--WellLog:1.2.0`.
use vstd::prelude::*;
use crate::text::{
    concat_str, find_char, find_char_index, is_first_index, lacks_char, lemma_find_char,
    lemma_find_char_is, same_text,
};
use crate::validation::{osdu_schema_ref_to_local_path, spec_schema_ref_path};

verus! {

/// The types of entity that have a schema.
#[derive(Debug, Clone, Copy, PartialEq, Eq, Structural)]
pub enum EntityType {
    WellLog,
}

/// A schema for the kinds with a prefix: the entity type, the prefix, and
/// the schema's file.
pub struct EntitySchemaDef(pub EntityType, pub &'static str, pub &'static str);

impl EntitySchemaDef {
    /// The prefix of the kinds that this schema is for.
    pub fn kind_prefix(&self) -> (r: &str)
        ensures
            r@ == self.1@,
    {
        self.1
    }

    /// The file of the schema.
    pub fn schema_file(&self) -> (r: &str)
        ensures
            r@ == self.2@,
    {
        self.2
    }
}

/// The schemas known by prefix: none.
pub fn supported_schema_defs() -> (r: Vec<EntitySchemaDef>)
    ensures
        r@.len() == 0,
{
    Vec::new()
}

/// The prefix of a kind: what follows its second `:` (splitting at most
/// twice and keeping the last piece), so the text after the only `:` when
/// there is one, and the whole kind when there is none.
pub open spec fn spec_kind_prefix(kind: Seq<char>) -> Seq<char> {
    match find_char(kind, ':') {
        Option::None => kind,
        Option::Some(p1) => {
            let r1 = kind.subrange(p1 + 1, kind.len() as int);
            match find_char(r1, ':') {
                Option::None => r1,
                Option::Some(p2) => r1.subrange(p2 + 1, r1.len() as int),
            }
        },
    }
}

/// The prefix of a kind; always present.
pub fn kind_to_prefix(kind: &str) -> (r: Option<&str>)
    ensures
        r matches Option::Some(p) && p@ == spec_kind_prefix(kind@),
{
    let n = kind.unicode_len();
    proof {
        lemma_find_char(kind@, ':');
    }
    match find_char_index(kind, ':') {
        Option::None => Option::Some(kind),
        Option::Some(p1) => {
            let r1 = kind.substring_char(p1 + 1, n);
            assert(r1@ =~= kind@.subrange(p1 + 1, n as int));
            let n1 = r1.unicode_len();
            proof {
                lemma_find_char(r1@, ':');
            }
            match find_char_index(r1, ':') {
                Option::None => Option::Some(r1),
                Option::Some(p2) => Option::Some(r1.substring_char(p2 + 1, n1)),
            }
        },
    }
}

/// Law: the prefix of `ns1:ns2:rest`, where the namespaces hold no `:`, is
/// `rest`; for a kind `ns1:ns2:component:version` it is `component:version`.
pub proof fn lemma_kind_prefix(ns1: Seq<char>, ns2: Seq<char>, rest: Seq<char>)
    requires
        lacks_char(ns1, ':'),
        lacks_char(ns2, ':'),
    ensures
        spec_kind_prefix(ns1 + seq![':'] + ns2 + seq![':'] + rest) == rest,
{
    let s = ns1 + seq![':'] + ns2 + seq![':'] + rest;
    let a = ns1.len() as int;
    assert(is_first_index(s, ':', a)) by {
        assert forall|j: int| 0 <= j < a implies s[j] != ':' by {
            assert(s[j] == ns1[j]);
        }
    }
    lemma_find_char_is(s, ':', a);
    let r1 = s.subrange(a + 1, s.len() as int);
    assert(r1 =~= ns2 + seq![':'] + rest);
    let b = ns2.len() as int;
    assert(is_first_index(r1, ':', b)) by {
        assert forall|j: int| 0 <= j < b implies r1[j] != ':' by {
            assert(r1[j] == ns2[j]);
        }
    }
    lemma_find_char_is(r1, ':', b);
    assert(r1.subrange(b + 1, r1.len() as int) =~= rest);
}

/// Maps a schema reference, given by its URL text, to the local copy of the
/// schema.
pub fn osdu_schema_ref_to_path(url: &str) -> (r: Option<String>)
    ensures
        match r {
            Option::Some(p) => spec_schema_ref_path(url@) == Option::Some(p@),
            Option::None => spec_schema_ref_path(url@) is None,
        },
{
    osdu_schema_ref_to_local_path(url)
}

/// Compiled schemas by kind prefix.
pub struct PrefixValidators {
    entries: Vec<(String, jsonschema::JSONSchema)>,
}

impl View for PrefixValidators {
    type V = Seq<(Seq<char>, jsonschema::JSONSchema)>;

    closed spec fn view(&self) -> Seq<(Seq<char>, jsonschema::JSONSchema)> {
        self.entries@.map_values(|e: (String, jsonschema::JSONSchema)| (e.0@, e.1))
    }
}

/// Index of the first entry at or after `i` with prefix `prefix`.
pub open spec fn find_prefix_from(m: Seq<(Seq<char>, jsonschema::JSONSchema)>, prefix: Seq<char>, i: int) -> Option<int>
    decreases m.len() - i,
{
    if i < 0 || i >= m.len() {
        Option::None
    } else if m[i].0 == prefix {
        Option::Some(i)
    } else {
        find_prefix_from(m, prefix, i + 1)
    }
}

proof fn lemma_find_prefix_from(m: Seq<(Seq<char>, jsonschema::JSONSchema)>, prefix: Seq<char>, i: int)
    requires
        0 <= i,
    ensures
        match find_prefix_from(m, prefix, i) {
            Option::Some(k) => i <= k < m.len() && m[k].0 == prefix,
            Option::None => true,
        },
    decreases m.len() - i,
{
    if i < m.len() && m[i].0 != prefix {
        lemma_find_prefix_from(m, prefix, i + 1);
    }
}

impl PrefixValidators {
    /// No schemas.
    pub fn new() -> (r: PrefixValidators)
        ensures
            r@ == Seq::<(Seq<char>, jsonschema::JSONSchema)>::empty(),
    {
        let r = PrefixValidators { entries: Vec::new() };
        assert(r@ =~= Seq::<(Seq<char>, jsonschema::JSONSchema)>::empty());
        r
    }

    fn position(&self, prefix: &str) -> (r: Option<usize>)
        ensures
            match r {
                Option::Some(k) => find_prefix_from(self@, prefix@, 0) == Option::Some(k as int),
                Option::None => find_prefix_from(self@, prefix@, 0) is None,
            },
    {
        let n = self.entries.len();
        let mut i: usize = 0;
        while i < n
            invariant
                n == self.entries@.len(),
                n == self@.len(),
                i <= n,
                find_prefix_from(self@, prefix@, 0) == find_prefix_from(self@, prefix@, i as int),
            decreases n - i,
        {
            assert(self@[i as int].0 == self.entries@[i as int].0@);
            if same_text(self.entries[i].0.as_str(), prefix) {
                return Option::Some(i);
            }
            i = i + 1;
        }
        Option::None
    }

    /// Sets the schema of a prefix, replacing the one it had.
    pub fn insert(&mut self, prefix: &str, schema: jsonschema::JSONSchema)
        ensures
            final(self)@ == match find_prefix_from(old(self)@, prefix@, 0) {
                Option::Some(k) => old(self)@.update(k, (prefix@, schema)),
                Option::None => old(self)@.push((prefix@, schema)),
            },
    {
        proof {
            lemma_find_prefix_from(self@, prefix@, 0);
        }
        match self.position(prefix) {
            Option::Some(k) => {
                self.entries.set(k, (String::from_str(prefix), schema));
                assert(self@ =~= old(self)@.update(k as int, (prefix@, schema)));
            },
            Option::None => {
                self.entries.push((String::from_str(prefix), schema));
                assert(self@ =~= old(self)@.push((prefix@, schema)));
            },
        }
    }

    /// The schema of a prefix.
    pub fn get(&self, prefix: &str) -> (r: Option<&jsonschema::JSONSchema>)
        ensures
            match find_prefix_from(self@, prefix@, 0) {
                Option::Some(k) => r matches Option::Some(s) && *s == self@[k].1,
                Option::None => r is None,
            },
    {
        proof {
            lemma_find_prefix_from(self@, prefix@, 0);
        }
        match self.position(prefix) {
            Option::Some(k) => Option::Some(&self.entries[k].1),
            Option::None => Option::None,
        }
    }
}

/// The schema for a kind, found by the kind's prefix; a kind whose prefix
/// has no schema gives `unsupported kind <kind>`.
pub fn validator_from_kind<'v>(validators: &'v PrefixValidators, kind: &str) -> (r: Result<
    &'v jsonschema::JSONSchema,
    String,
>)
    ensures
        match find_prefix_from(validators@, spec_kind_prefix(kind@), 0) {
            Option::Some(k) => r matches Ok(s) && *s == validators@[k].1,
            Option::None => r matches Err(msg) && msg@ == "unsupported kind "@ + kind@,
        },
{
    let kind_prefix = match kind_to_prefix(kind) {
        Option::Some(p) => p,
        Option::None => return Err(concat_str("invalid kind ", kind)),
    };
    match validators.get(kind_prefix) {
        Option::Some(s) => Ok(s),
        Option::None => Err(concat_str("unsupported kind ", kind)),
    }
}

} // verus!
