//! The schemas that records are checked against: for each component, a list
//! of entity kinds (type, source and version pattern), each with its
//! compiled schema. A kind selects the first entry of its component whose
//! version pattern admits its version.
use vstd::prelude::*;
use crate::record::version::{SemVer, SemVerToken, semver_matches};
use crate::model::record::{
    EntityKind, EntityKindView, EntitySource, EntitySourceView, EntityType, EntityTypeView,
};
use crate::text::same_text;

verus! {

/// Components and, for each, its kinds (type, source, version pattern) with
/// their schemas.
pub struct SchemaRegistry {
    entries: Vec<(String, Vec<(EntityKind, jsonschema::JSONSchema)>)>,
}

impl View for SchemaRegistry {
    type V = Seq<(Seq<char>, Seq<(EntityKindView, jsonschema::JSONSchema)>)>;

    closed spec fn view(&self) -> Seq<(Seq<char>, Seq<(EntityKindView, jsonschema::JSONSchema)>)> {
        self.entries@.map_values(
            |e: (String, Vec<(EntityKind, jsonschema::JSONSchema)>)| (e.0@, patterns_view(e.1@)),
        )
    }
}

/// A component's kinds with their schemas, each kind taken by its value.
pub open spec fn patterns_view(v: Seq<(EntityKind, jsonschema::JSONSchema)>) -> Seq<
    (EntityKindView, jsonschema::JSONSchema),
> {
    v.map_values(|p: (EntityKind, jsonschema::JSONSchema)| (p.0@, p.1))
}

/// First index at or after `i` whose component is `comp`.
pub open spec fn find_component_from(
    entries: Seq<(Seq<char>, Seq<(EntityKindView, jsonschema::JSONSchema)>)>,
    comp: Seq<char>,
    i: int,
) -> Option<int>
    decreases entries.len() - i,
{
    if i < 0 || i >= entries.len() {
        Option::None
    } else if entries[i].0 == comp {
        Option::Some(i)
    } else {
        find_component_from(entries, comp, i + 1)
    }
}

/// First index whose component is `comp`.
pub open spec fn find_component(
    entries: Seq<(Seq<char>, Seq<(EntityKindView, jsonschema::JSONSchema)>)>,
    comp: Seq<char>,
) -> Option<int> {
    find_component_from(entries, comp, 0)
}

/// First index at or after `j` whose pattern admits `v`.
pub open spec fn find_pattern_from(vs: Seq<(EntityKindView, jsonschema::JSONSchema)>, v: SemVer, j: int) -> Option<
    int,
>
    decreases vs.len() - j,
{
    if j < 0 || j >= vs.len() {
        Option::None
    } else if semver_matches(vs[j].0.version, v) {
        Option::Some(j)
    } else {
        find_pattern_from(vs, v, j + 1)
    }
}

/// Where a component and version lead: the first entry of the component,
/// then the first of its patterns that admits the version.
pub open spec fn registry_lookup(
    entries: Seq<(Seq<char>, Seq<(EntityKindView, jsonschema::JSONSchema)>)>,
    comp: Seq<char>,
    v: SemVer,
) -> Option<(int, int)> {
    match find_component(entries, comp) {
        Option::None => Option::None,
        Option::Some(i) => match find_pattern_from(entries[i].1, v, 0) {
            Option::None => Option::None,
            Option::Some(j) => Option::Some((i, j)),
        },
    }
}

proof fn lemma_find_component_from(
    entries: Seq<(Seq<char>, Seq<(EntityKindView, jsonschema::JSONSchema)>)>,
    comp: Seq<char>,
    i: int,
)
    requires
        0 <= i,
    ensures
        match find_component_from(entries, comp, i) {
            Option::Some(k) => i <= k < entries.len() && entries[k].0 == comp,
            Option::None => true,
        },
    decreases entries.len() - i,
{
    if i < entries.len() && entries[i].0 != comp {
        lemma_find_component_from(entries, comp, i + 1);
    }
}

proof fn lemma_find_pattern_from(vs: Seq<(EntityKindView, jsonschema::JSONSchema)>, v: SemVer, j: int)
    requires
        0 <= j,
    ensures
        match find_pattern_from(vs, v, j) {
            Option::Some(k) => j <= k < vs.len(),
            Option::None => true,
        },
    decreases vs.len() - j,
{
    if j < vs.len() && !semver_matches(vs[j].0.version, v) {
        lemma_find_pattern_from(vs, v, j + 1);
    }
}

/// The kind of a well log of the given version pattern.
pub open spec fn well_log_kind(version: SemVer) -> EntityKindView {
    EntityKindView {
        e_type: EntityTypeView::WellLog,
        source: EntitySourceView::OSDU,
        version,
    }
}

/// A well-log kind of the given version pattern, from the OSDU source.
fn well_log_entry(component: &str, version: SemVer) -> (r: EntityKind)
    requires
        component@ == "work-product-component--WellLog"@,
    ensures
        r@ == well_log_kind(version),
{
    EntityKind {
        e_type: EntityType::from(component),
        source: EntitySource::OSDU,
        version,
    }
}

/// The components that records may have, each with its kinds (type, source
/// and version pattern) and the file of the schema for each, in the order in
/// which they are tried.
pub fn supported_schemas() -> (r: Vec<(&'static str, Vec<(EntityKind, &'static str)>)>)
    ensures
        r@.len() == 1,
        r@[0].0@ == "work-product-component--WellLog"@,
        r@[0].1@.len() == 3,
        r@[0].1@[0].0@ == well_log_kind(
            SemVer { major: SemVerToken::Number(1), minor: SemVerToken::Number(1), patch: SemVerToken::Any },
        ),
        r@[0].1@[0].1@ == "work-product-component/WellLog.1.1.0.json"@,
        r@[0].1@[1].0@ == well_log_kind(
            SemVer { major: SemVerToken::Number(1), minor: SemVerToken::Number(0), patch: SemVerToken::Any },
        ),
        r@[0].1@[1].1@ == "work-product-component/WellLog.1.0.0.json"@,
        r@[0].1@[2].0@ == well_log_kind(
            SemVer { major: SemVerToken::Number(1), minor: SemVerToken::Any, patch: SemVerToken::Any },
        ),
        r@[0].1@[2].1@ == "work-product-component/WellLog.1.2.0.json"@,
{
    let component = "work-product-component--WellLog";
    let mut kinds: Vec<(EntityKind, &'static str)> = Vec::new();
    kinds.push(
        (well_log_entry(component, SemVer::any_patch(1, 1)), "work-product-component/WellLog.1.1.0.json"),
    );
    kinds.push(
        (well_log_entry(component, SemVer::any_patch(1, 0)), "work-product-component/WellLog.1.0.0.json"),
    );
    kinds.push(
        (well_log_entry(component, SemVer::any_minor(1)), "work-product-component/WellLog.1.2.0.json"),
    );
    let mut r: Vec<(&'static str, Vec<(EntityKind, &'static str)>)> = Vec::new();
    r.push((component, kinds));
    r
}

impl SchemaRegistry {
    /// An empty registry.
    pub fn new() -> (r: SchemaRegistry)
        ensures
            r@ == Seq::<(Seq<char>, Seq<(EntityKindView, jsonschema::JSONSchema)>)>::empty(),
    {
        let r = SchemaRegistry { entries: Vec::new() };
        assert(r@ =~= Seq::<(Seq<char>, Seq<(EntityKindView, jsonschema::JSONSchema)>)>::empty());
        r
    }

    /// The number of components.
    pub fn len(&self) -> (r: usize)
        ensures
            r == self@.len(),
    {
        self.entries.len()
    }

    /// Sets the patterns of a component: they replace those of the
    /// component's entry, where there is one, else they form a new last
    /// entry.
    pub fn insert(&mut self, component: &str, versions: Vec<(EntityKind, jsonschema::JSONSchema)>)
        ensures
            final(self)@ == registry_insert(old(self)@, component@, patterns_view(versions@)),
    {
        proof {
            lemma_find_component_from(self@, component@, 0);
        }
        match self.position(component) {
            Option::Some(k) => {
                self.entries.set(k, (String::from_str(component), versions));
                assert(self@ =~= old(self)@.update(k as int, (component@, patterns_view(versions@))));
            },
            Option::None => {
                self.entries.push((String::from_str(component), versions));
                assert(self@ =~= old(self)@.push((component@, patterns_view(versions@))));
            },
        }
    }

    /// Index of the entry of a component.
    fn position(&self, component: &str) -> (r: Option<usize>)
        ensures
            match r {
                Option::Some(k) => find_component(self@, component@) == Option::Some(k as int),
                Option::None => find_component(self@, component@) is None,
            },
    {
        let n = self.entries.len();
        let mut i: usize = 0;
        while i < n
            invariant
                n == self.entries@.len(),
                n == self@.len(),
                i <= n,
                find_component(self@, component@) == find_component_from(self@, component@, i as int),
            decreases n - i,
        {
            assert(self@[i as int].0 == self.entries@[i as int].0@);
            if same_text(self.entries[i].0.as_str(), component) {
                return Option::Some(i);
            }
            i = i + 1;
        }
        Option::None
    }

    /// Builds the registry from components and their loaded schemas, each
    /// set in turn as `insert` does.
    pub fn from_loaded(table: Vec<(&str, Vec<(EntityKind, jsonschema::JSONSchema)>)>) -> (r: SchemaRegistry)
        ensures
            r@ == built_registry(
                table@.map_values(
                    |e: (&str, Vec<(EntityKind, jsonschema::JSONSchema)>)| (e.0@, patterns_view(e.1@)),
                ),
            ),
    {
        let mut r = SchemaRegistry::new();
        let mut table = table;
        let ghost items = table@.map_values(
            |e: (&str, Vec<(EntityKind, jsonschema::JSONSchema)>)| (e.0@, patterns_view(e.1@)),
        );
        let mut rev: Vec<(&str, Vec<(EntityKind, jsonschema::JSONSchema)>)> = Vec::new();
        while table.len() > 0
            invariant
                items.len() == table@.len() + rev@.len(),
                forall|k: int|
                    0 <= k < table@.len() ==> (table@[k].0@, patterns_view(table@[k].1@)) == #[trigger] items[k],
                forall|k: int|
                    0 <= k < rev@.len() ==> (rev@[k].0@, patterns_view(rev@[k].1@)) == #[trigger] items[items.len()
                        - 1 - k],
            decreases table.len(),
        {
            let e = table.pop().unwrap();
            rev.push(e);
        }
        let n = rev.len();
        while rev.len() > 0
            invariant
                items.len() == n,
                rev@.len() <= n,
                forall|k: int|
                    0 <= k < rev@.len() ==> (rev@[k].0@, patterns_view(rev@[k].1@)) == #[trigger] items[n - 1 - k],
                r@ == built_registry(items.subrange(0, (n - rev@.len()) as int)),
            decreases rev.len(),
        {
            let ghost before = rev@.len();
            let ghost old_rev = rev@;
            let (component, versions) = rev.pop().unwrap();
            let ghost idx = (n - before) as int;
            assert((old_rev[before - 1].0@, patterns_view(old_rev[before - 1].1@)) == items[n - 1 - (before - 1)]);
            assert(items.subrange(0, idx + 1).drop_last() =~= items.subrange(0, idx));
            assert((component@, patterns_view(versions@)) == items[idx]);
            r.insert(component, versions);
        }
        assert(items.subrange(0, n as int) =~= items);
        r
    }

    /// The schema of the first pattern, in the entry of `component`, that
    /// admits `version`.
    pub fn lookup(&self, component: &str, version: &SemVer) -> (r: Option<&jsonschema::JSONSchema>)
        ensures
            match registry_lookup(self@, component@, *version) {
                Option::Some((i, j)) => r matches Option::Some(s) && *s == self@[i].1[j].1,
                Option::None => r is None,
            },
    {
        proof {
            lemma_find_component_from(self@, component@, 0);
        }
        let i = match self.position(component) {
            Option::Some(i) => i,
            Option::None => return Option::None,
        };
        let versions = &self.entries[i].1;
        assert(patterns_view(versions@) == self@[i as int].1);
        let m = versions.len();
        let mut j: usize = 0;
        while j < m
            invariant
                m == versions@.len(),
                j <= m,
                find_component(self@, component@) == Option::Some(i as int),
                patterns_view(versions@) == self@[i as int].1,
                find_pattern_from(self@[i as int].1, *version, 0) == find_pattern_from(
                    self@[i as int].1,
                    *version,
                    j as int,
                ),
            decreases m - j,
        {
            assert(self@[i as int].1[j as int].0.version == versions@[j as int].0.version);
            if versions[j].0.version.is_match_other(version) {
                assert(find_pattern_from(self@[i as int].1, *version, j as int) == Option::Some(j as int));
                return Option::Some(&versions[j].1);
            }
            j = j + 1;
        }
        Option::None
    }
}

/// The registry that inserting each of `items` in turn into an empty one
/// gives.
pub open spec fn built_registry(items: Seq<(Seq<char>, Seq<(EntityKindView, jsonschema::JSONSchema)>)>) -> Seq<
    (Seq<char>, Seq<(EntityKindView, jsonschema::JSONSchema)>),
>
    decreases items.len(),
{
    if items.len() == 0 {
        Seq::empty()
    } else {
        registry_insert(built_registry(items.drop_last()), items.last().0, items.last().1)
    }
}

/// A component's patterns set: they replace those of the component's entry,
/// where there is one, else they form a new last entry.
pub open spec fn registry_insert(
    entries: Seq<(Seq<char>, Seq<(EntityKindView, jsonschema::JSONSchema)>)>,
    comp: Seq<char>,
    versions: Seq<(EntityKindView, jsonschema::JSONSchema)>,
) -> Seq<(Seq<char>, Seq<(EntityKindView, jsonschema::JSONSchema)>)> {
    match find_component(entries, comp) {
        Option::Some(k) => entries.update(k, (comp, versions)),
        Option::None => entries.push((comp, versions)),
    }
}

proof fn lemma_find_component_same_names(
    m1: Seq<(Seq<char>, Seq<(EntityKindView, jsonschema::JSONSchema)>)>,
    m2: Seq<(Seq<char>, Seq<(EntityKindView, jsonschema::JSONSchema)>)>,
    comp: Seq<char>,
    i: int,
)
    requires
        m1.len() == m2.len(),
        forall|j: int| 0 <= j < m1.len() ==> m1[j].0 == m2[j].0,
    ensures
        find_component_from(m1, comp, i) == find_component_from(m2, comp, i),
    decreases m1.len() - i,
{
    if 0 <= i < m1.len() && m1[i].0 != comp {
        lemma_find_component_same_names(m1, m2, comp, i + 1);
    }
}

proof fn lemma_find_component_push(
    m: Seq<(Seq<char>, Seq<(EntityKindView, jsonschema::JSONSchema)>)>,
    e: (Seq<char>, Seq<(EntityKindView, jsonschema::JSONSchema)>),
    comp: Seq<char>,
    i: int,
)
    requires
        0 <= i <= m.len(),
    ensures
        find_component_from(m.push(e), comp, i) == match find_component_from(m, comp, i) {
            Option::Some(k) => Option::Some(k),
            Option::None => if e.0 == comp {
                Option::Some(m.len() as int)
            } else {
                Option::None
            },
        },
    decreases m.len() - i,
{
    if i < m.len() {
        assert(m.push(e)[i] == m[i]);
        if m[i].0 != comp {
            lemma_find_component_push(m, e, comp, i + 1);
        }
    } else {
        assert(m.push(e)[i] == e);
        assert(find_component_from(m.push(e), comp, i + 1) is None);
    }
}

/// Law: after a component's patterns are set, a version of that component
/// selects the first of the new patterns that admits it, and the versions of
/// every other component select what they selected before.
pub proof fn lemma_insert_then_lookup(
    entries: Seq<(Seq<char>, Seq<(EntityKindView, jsonschema::JSONSchema)>)>,
    comp: Seq<char>,
    versions: Seq<(EntityKindView, jsonschema::JSONSchema)>,
    other: Seq<char>,
    v: SemVer,
)
    ensures
        match registry_lookup(registry_insert(entries, comp, versions), comp, v) {
            Option::Some((i, j)) => registry_insert(entries, comp, versions)[i].1 == versions
                && find_pattern_from(versions, v, 0) == Option::Some(j),
            Option::None => find_pattern_from(versions, v, 0) is None,
        },
        other != comp ==> registry_lookup(registry_insert(entries, comp, versions), other, v)
            == registry_lookup(entries, other, v),
{
    lemma_find_component_from(entries, comp, 0);
    lemma_find_component_from(entries, other, 0);
    let r = registry_insert(entries, comp, versions);
    match find_component(entries, comp) {
        Option::Some(k) => {
            assert forall|j: int| 0 <= j < entries.len() implies entries[j].0 == r[j].0 by {}
            lemma_find_component_same_names(entries, r, comp, 0);
            lemma_find_component_same_names(entries, r, other, 0);
            if let Option::Some(k2) = find_component(entries, other) {
                if other != comp {
                    assert(k2 != k);
                    assert(r[k2] == entries[k2]);
                }
            }
        },
        Option::None => {
            lemma_find_component_push(entries, (comp, versions), comp, 0);
            lemma_find_component_push(entries, (comp, versions), other, 0);
            if let Option::Some(k2) = find_component(entries, other) {
                assert(r[k2] == entries[k2]);
            }
        },
    }
}

proof fn lemma_first_pattern_from(vs: Seq<(EntityKindView, jsonschema::JSONSchema)>, v: SemVer, i: int)
    requires
        0 <= i,
    ensures
        match find_pattern_from(vs, v, i) {
            Option::Some(j) => i <= j < vs.len() && semver_matches(vs[j].0.version, v) && forall|k: int|
                i <= k < j ==> !semver_matches(#[trigger] vs[k].0.version, v),
            Option::None => forall|k: int|
                i <= k < vs.len() ==> !semver_matches(#[trigger] vs[k].0.version, v),
        },
    decreases vs.len() - i,
{
    if i < vs.len() {
        lemma_first_pattern_from(vs, v, i + 1);
    }
}

proof fn lemma_first_component_from(
    entries: Seq<(Seq<char>, Seq<(EntityKindView, jsonschema::JSONSchema)>)>,
    comp: Seq<char>,
    i: int,
)
    requires
        0 <= i,
    ensures
        match find_component_from(entries, comp, i) {
            Option::Some(k) => i <= k < entries.len() && entries[k].0 == comp && forall|m: int|
                i <= m < k ==> #[trigger] entries[m].0 != comp,
            Option::None => forall|m: int| i <= m < entries.len() ==> #[trigger] entries[m].0 != comp,
        },
    decreases entries.len() - i,
{
    if i < entries.len() {
        lemma_first_component_from(entries, comp, i + 1);
    }
}

/// Law: the pattern that a version selects among a component's kinds is the
/// first whose version pattern admits the version: it admits it, and no
/// earlier one does; none is selected exactly when no pattern admits it.
pub proof fn lemma_first_admitting_pattern(vs: Seq<(EntityKindView, jsonschema::JSONSchema)>, v: SemVer)
    ensures
        match find_pattern_from(vs, v, 0) {
            Option::Some(j) => 0 <= j < vs.len() && semver_matches(vs[j].0.version, v) && forall|k: int|
                0 <= k < j ==> !semver_matches(#[trigger] vs[k].0.version, v),
            Option::None => forall|k: int|
                0 <= k < vs.len() ==> !semver_matches(#[trigger] vs[k].0.version, v),
        },
{
    lemma_first_pattern_from(vs, v, 0);
}

/// Law: a component and version lead to the first entry of the component,
/// and in it to the first kind whose version pattern admits the version;
/// they lead nowhere exactly when the component has no entry or no pattern
/// of its first entry admits the version.
pub proof fn lemma_registry_lookup_first(
    entries: Seq<(Seq<char>, Seq<(EntityKindView, jsonschema::JSONSchema)>)>,
    comp: Seq<char>,
    v: SemVer,
)
    ensures
        match registry_lookup(entries, comp, v) {
            Option::Some((i, j)) => {
                &&& 0 <= i < entries.len()
                &&& entries[i].0 == comp
                &&& forall|m: int| 0 <= m < i ==> #[trigger] entries[m].0 != comp
                &&& 0 <= j < entries[i].1.len()
                &&& semver_matches(entries[i].1[j].0.version, v)
                &&& forall|k: int|
                    0 <= k < j ==> !semver_matches(#[trigger] entries[i].1[k].0.version, v)
            },
            Option::None => (forall|m: int| 0 <= m < entries.len() ==> #[trigger] entries[m].0 != comp)
                || exists|i: int|
                #![trigger entries[i]]
                0 <= i < entries.len() && entries[i].0 == comp && (forall|m: int|
                    0 <= m < i ==> #[trigger] entries[m].0 != comp) && forall|k: int|
                    0 <= k < entries[i].1.len() ==> !semver_matches(
                        #[trigger] entries[i].1[k].0.version,
                        v,
                    ),
        },
{
    lemma_first_component_from(entries, comp, 0);
    if let Option::Some(i) = find_component(entries, comp) {
        lemma_first_pattern_from(entries[i].1, v, 0);
    }
}

} // verus!
