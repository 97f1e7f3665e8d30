//! Request headers: the header map of actix-web, what the logic reads of it,
//! and the two ways a handler takes headers from a request: capturing a
//! fixed list of them, or insisting that all of the list are present.
use vstd::prelude::*;
use core::marker::PhantomData;
use actix_web::http::header::{HeaderMap, HeaderValue};
use crate::text::{concat_str, lower_ascii};

verus! {

/// A header name, in the lower case in which requests carry it.
pub type HeaderName = &'static str;

/// The header that names the data partition of a request.
pub const DATA_PARTITION: HeaderName = "data-partition-id";

/// The authorization header.
pub const AUTHORIZATION: HeaderName = "authorization";

#[verifier::external_type_specification]
#[verifier::external_body]
pub struct ExHeaderMap(actix_web::http::header::HeaderMap);

#[verifier::external_type_specification]
#[verifier::external_body]
pub struct ExHeaderValue(actix_web::http::header::HeaderValue);

/// What a header map holds: each header name, in lower case, with the bytes
/// of its values in the order in which they were added.
pub uninterp spec fn header_entries(m: HeaderMap) -> Map<Seq<char>, Seq<Seq<u8>>>;

/// The bytes of a header value, as `HeaderValue::as_bytes` gives them.
pub uninterp spec fn value_bytes(v: HeaderValue) -> Seq<u8>;

/// Whether `HeaderName::from_bytes` accepts the name: a nonempty name of
/// header characters (ASCII letters of either case among them), not too long.
pub uninterp spec fn header_name_accepted(name: Seq<char>) -> bool;

/// The first value of a header in what a map holds.
pub open spec fn first_value(m: Map<Seq<char>, Seq<Seq<u8>>>, name: Seq<char>) -> Option<Seq<u8>> {
    if m.dom().contains(name) && m[name].len() > 0 {
        Option::Some(m[name][0])
    } else {
        Option::None
    }
}

/// An empty header map: `HeaderMap::new`. Claims: it holds nothing.
#[verifier::external_body]
fn empty_header_map() -> (r: HeaderMap)
    ensures
        header_entries(r).dom() == Set::<Seq<char>>::empty(),
{
    HeaderMap::new()
}

/// The first value of a header: `HeaderMap::get` with the name as text, the
/// value cloned. Claims: the name is taken in lower case (`HeaderName`
/// folds ASCII letters), the result is the first value held under it, and a
/// value is found only for a name that `HeaderName::from_bytes` accepts (a
/// name it refuses is looked up as no header).
#[verifier::external_body]
fn first_header_value(m: &HeaderMap, name: &str) -> (r: Option<HeaderValue>)
    ensures
        match r {
            Option::Some(v) => first_value(header_entries(*m), lower_ascii(name@)) == Option::Some(
                value_bytes(v),
            ) && header_name_accepted(name@),
            Option::None => first_value(header_entries(*m), lower_ascii(name@)) is None,
        },
{
    match m.get(name) {
        Option::Some(v) => Option::Some(v.clone()),
        Option::None => Option::None,
    }
}

/// Whether a header is present: `HeaderMap::contains_key` with the name as
/// text. Claims: the name is taken in lower case, as in `first_header_value`.
#[verifier::external_body]
fn has_header(m: &HeaderMap, name: &str) -> (r: bool)
    ensures
        r == header_entries(*m).dom().contains(lower_ascii(name@)),
{
    m.contains_key(name)
}

/// Sets a header to one value: `HeaderName::from_bytes`, then
/// `HeaderMap::insert`, which drops the earlier values of the name. Claims:
/// the map then holds the value alone under the name in lower case, and
/// every other header as before.
#[verifier::external_body]
fn set_header(m: &mut HeaderMap, name: &str, value: HeaderValue)
    requires
        header_name_accepted(name@),
    ensures
        header_entries(*final(m)) == header_entries(*old(m)).insert(
            lower_ascii(name@),
            seq![value_bytes(value)],
        ),
{
    match actix_web::http::header::HeaderName::from_bytes(name.as_bytes()) {
        Ok(n) => {
            m.insert(n, value);
        },
        Err(_) => {},
    }
}

/// A fixed list, known to the type that implements this.
pub trait ReprArray<T> {
    /// The list.
    spec fn spec_array() -> Seq<T>;

    /// The list.
    fn get_array() -> (r: &'static [T])
        ensures
            r@ == Self::spec_array(),
    ;
}

/// The headers that the service passes on to the storage service: the data
/// partition and the authorization.
pub struct CommonHeaders;

impl ReprArray<HeaderName> for CommonHeaders {
    open spec fn spec_array() -> Seq<HeaderName> {
        seq![DATA_PARTITION, AUTHORIZATION]
    }

    fn get_array() -> (r: &'static [HeaderName]) {
        let r: &'static [HeaderName] = &[DATA_PARTITION, AUTHORIZATION];
        assert(r@ =~= seq![DATA_PARTITION, AUTHORIZATION]);
        r
    }
}

/// The names of a list of headers, in lower case.
pub open spec fn names_view(list: Seq<HeaderName>) -> Seq<Seq<char>> {
    list.map_values(|s: HeaderName| lower_ascii(s@))
}

/// The headers of `names` that `source` holds, each with its first value.
pub open spec fn captured(names: Seq<Seq<char>>, source: Map<Seq<char>, Seq<Seq<u8>>>) -> Map<
    Seq<char>,
    Seq<Seq<u8>>,
>
    decreases names.len(),
{
    if names.len() == 0 {
        Map::empty()
    } else {
        let prev = captured(names.drop_last(), source);
        match first_value(source, names.last()) {
            Option::Some(v) => prev.insert(names.last(), seq![v]),
            Option::None => prev,
        }
    }
}

/// The headers of the list `T` that a request carried.
pub struct CaptureHeaders<T: ReprArray<HeaderName>> {
    _map: HeaderMap,
    _marker: PhantomData<T>,
}

impl<T: ReprArray<HeaderName>> CaptureHeaders<T> {
    /// What the captured headers hold.
    pub closed spec fn captured_view(&self) -> Map<Seq<char>, Seq<Seq<u8>>> {
        header_entries(self._map)
    }

    /// Takes from `source_map` the headers of the list, each with its first
    /// value.
    pub fn from(source_map: &HeaderMap) -> (r: Self)
        ensures
            r.captured_view() == captured(names_view(T::spec_array()), header_entries(*source_map)),
    {
        let list = T::get_array();
        let ghost names = names_view(T::spec_array());
        let ghost source = header_entries(*source_map);
        let mut map = empty_header_map();
        assert(header_entries(map) =~= Map::<Seq<char>, Seq<Seq<u8>>>::empty());
        let n = list.len();
        let mut i: usize = 0;
        while i < n
            invariant
                n == list@.len(),
                list@ == T::spec_array(),
                names == names_view(T::spec_array()),
                source == header_entries(*source_map),
                i <= n,
                header_entries(map) == captured(names.subrange(0, i as int), source),
            decreases n - i,
        {
            let hdr = list[i];
            assert(names.subrange(0, i + 1).drop_last() =~= names.subrange(0, i as int));
            assert(names.subrange(0, i + 1).last() == lower_ascii(hdr@));
            if let Option::Some(value) = first_header_value(source_map, hdr) {
                set_header(&mut map, hdr, value);
            }
            i = i + 1;
        }
        assert(names.subrange(0, n as int) =~= names);
        CaptureHeaders { _map: map, _marker: PhantomData }
    }

    /// The captured headers.
    pub fn headers(&self) -> (r: &HeaderMap)
        ensures
            header_entries(*r) == self.captured_view(),
    {
        &self._map
    }

    /// The captured headers, taken out.
    pub fn into_headers(self) -> (r: HeaderMap)
        ensures
            header_entries(r) == self.captured_view(),
    {
        self._map
    }
}

/// Index of the first name of the list at or after `i` that `source` lacks.
pub open spec fn first_missing_from(names: Seq<Seq<char>>, source: Map<Seq<char>, Seq<Seq<u8>>>, i: int) -> Option<
    int,
>
    decreases names.len() - i,
{
    if i < 0 || i >= names.len() {
        Option::None
    } else if !source.dom().contains(names[i]) {
        Option::Some(i)
    } else {
        first_missing_from(names, source, i + 1)
    }
}

/// Proof that a request carried every header of the list `T`.
pub struct EnsureHeaders<T: ReprArray<HeaderName>> {
    _marker: PhantomData<T>,
}

impl<T: ReprArray<HeaderName>> EnsureHeaders<T> {
    /// Checks that `source_map` holds every header of the list; the first
    /// that it lacks is named in the error `missing header: <name>`.
    pub fn check(source_map: &HeaderMap) -> (r: Result<Self, String>)
        ensures
            match first_missing_from(names_view(T::spec_array()), header_entries(*source_map), 0) {
                Option::Some(k) => r matches Err(msg) && msg@ == "missing header: "@
                    + T::spec_array()[k]@,
                Option::None => r is Ok,
            },
    {
        let list = T::get_array();
        let ghost names = names_view(T::spec_array());
        let ghost source = header_entries(*source_map);
        let n = list.len();
        let mut i: usize = 0;
        while i < n
            invariant
                n == list@.len(),
                list@ == T::spec_array(),
                names == names_view(T::spec_array()),
                source == header_entries(*source_map),
                i <= n,
                first_missing_from(names, source, 0) == first_missing_from(names, source, i as int),
            decreases n - i,
        {
            let hdr = list[i];
            if !has_header(source_map, hdr) {
                return Err(concat_str("missing header: ", hdr));
            }
            i = i + 1;
        }
        Ok(EnsureHeaders { _marker: PhantomData })
    }
}

/// Law: after a header is set, it reads back as the value set, and every
/// other header reads as before.
pub proof fn lemma_insert_then_get(
    m: Map<Seq<char>, Seq<Seq<u8>>>,
    name: Seq<char>,
    value: Seq<u8>,
    other: Seq<char>,
)
    ensures
        first_value(m.insert(name, seq![value]), name) == Option::Some(value),
        other != name ==> first_value(m.insert(name, seq![value]), other) == first_value(m, other),
{
}

/// Law: the captured headers are those of the list that the source holds,
/// each with its first value in the source: a listed header reads as in the
/// source, and no other header is present.
pub proof fn lemma_captured(names: Seq<Seq<char>>, source: Map<Seq<char>, Seq<Seq<u8>>>, n: Seq<char>)
    ensures
        first_value(captured(names, source), n) == if names.contains(n) {
            first_value(source, n)
        } else {
            Option::None
        },
        captured(names, source).dom().contains(n) ==> names.contains(n),
    decreases names.len(),
{
    if names.len() > 0 {
        let init = names.drop_last();
        let last = names.last();
        lemma_captured(init, source, n);
        assert(names =~= init.push(last));
        assert(names.contains(n) <==> (init.contains(n) || n == last)) by {
            if names.contains(n) {
                let k = choose|k: int| 0 <= k < names.len() && names[k] == n;
                if k < init.len() {
                    assert(init[k] == n);
                }
            }
            if init.contains(n) {
                let k = choose|k: int| 0 <= k < init.len() && init[k] == n;
                assert(names[k] == n);
            }
            if n == last {
                assert(names[names.len() - 1] == n);
            }
        }
    }
}

proof fn lemma_first_missing_from(names: Seq<Seq<char>>, source: Map<Seq<char>, Seq<Seq<u8>>>, i: int)
    requires
        0 <= i,
    ensures
        first_missing_from(names, source, i) is None <==> forall|j: int|
            i <= j < names.len() ==> #[trigger] source.dom().contains(names[j]),
    decreases names.len() - i,
{
    if i < names.len() {
        lemma_first_missing_from(names, source, i + 1);
    }
}

/// Law: headers are ensured exactly when every header of the list is present.
pub proof fn lemma_ensure_all_present(names: Seq<Seq<char>>, source: Map<Seq<char>, Seq<Seq<u8>>>)
    ensures
        first_missing_from(names, source, 0) is None <==> forall|j: int|
            0 <= j < names.len() ==> #[trigger] source.dom().contains(names[j]),
{
    lemma_first_missing_from(names, source, 0);
}

} // verus!
