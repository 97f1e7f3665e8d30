//! Versions of the form `major.minor.patch`, where each part is a number
//! or the wildcard `*`, and the matching of a version against a pattern.
use vstd::prelude::*;
use crate::text::{
    canonical_decimal, digits_value, is_digit, lemma_canonical_decimal,
    concat_str, decimal, find_char, find_char_index, is_first_index, lacks_char, lemma_decimal,
    lemma_find_char, lemma_find_char_is, parse_u16, spec_parse_u16, u16_to_decimal, all_digits, unsigned_digits,
};

verus! {

/// One part of a version: a number, or `*` which stands for any number.
#[derive(Debug, Clone, Copy, PartialEq, Eq, Structural)]
pub enum SemVerToken {
    Number(u16),
    Any,
}

/// A version `major.minor.patch`.
#[derive(Debug, Clone, Copy, PartialEq, Eq, Structural)]
pub struct SemVer {
    pub major: SemVerToken,
    pub minor: SemVerToken,
    pub patch: SemVerToken,
}

/// How a token reads: `*` is the wildcard, anything else is a `u16`
/// (see `spec_parse_u16`); the error names the text.
pub open spec fn spec_parse_token(s: Seq<char>) -> Result<SemVerToken, Seq<char>> {
    if s == seq!['*'] {
        Ok(SemVerToken::Any)
    } else {
        match spec_parse_u16(s) {
            Option::Some(v) => Ok(SemVerToken::Number(v)),
            Option::None => Err(s + " is invalid"@),
        }
    }
}

/// How a version reads: the text up to the first `.` is the major part,
/// up to the second `.` the minor part, the rest the patch part; the parts
/// are read in that order and the first that fails gives the error.
/// Text with fewer than two dots is refused as a whole.
pub open spec fn spec_parse_semver(s: Seq<char>) -> Result<SemVer, Seq<char>> {
    match find_char(s, '.') {
        Option::None => Err(s + " invalid semver"@),
        Option::Some(p1) => {
            let rest = s.subrange(p1 + 1, s.len() as int);
            match find_char(rest, '.') {
                Option::None => Err(s + " invalid semver"@),
                Option::Some(p2) => {
                    let major = s.subrange(0, p1);
                    let minor = rest.subrange(0, p2);
                    let patch = rest.subrange(p2 + 1, rest.len() as int);
                    match spec_parse_token(major) {
                        Err(e) => Err(e),
                        Ok(ma) => match spec_parse_token(minor) {
                            Err(e) => Err(e),
                            Ok(mi) => match spec_parse_token(patch) {
                                Err(e) => Err(e),
                                Ok(pa) => Ok(SemVer { major: ma, minor: mi, patch: pa }),
                            },
                        },
                    }
                },
            }
        },
    }
}

/// Text of a token: `*` or the number in decimal.
pub open spec fn token_text(t: SemVerToken) -> Seq<char> {
    match t {
        SemVerToken::Any => seq!['*'],
        SemVerToken::Number(v) => decimal(v as nat),
    }
}

/// Text of a version: its three parts joined by dots.
pub open spec fn semver_text(v: SemVer) -> Seq<char> {
    token_text(v.major) + seq!['.'] + token_text(v.minor) + seq!['.'] + token_text(v.patch)
}

/// Whether a pattern token admits a token: `*` admits any; a number admits
/// only the same number (never the wildcard).
pub open spec fn token_matches(pattern: SemVerToken, t: SemVerToken) -> bool {
    match pattern {
        SemVerToken::Any => true,
        SemVerToken::Number(a) => match t {
            SemVerToken::Number(b) => a == b,
            SemVerToken::Any => false,
        },
    }
}

/// Whether a pattern admits a version, part by part.
pub open spec fn semver_matches(pattern: SemVer, v: SemVer) -> bool {
    &&& token_matches(pattern.major, v.major)
    &&& token_matches(pattern.minor, v.minor)
    &&& token_matches(pattern.patch, v.patch)
}

/// Error of a parse as a character sequence.
pub open spec fn error_view<T>(r: Result<T, String>) -> Result<T, Seq<char>> {
    match r {
        Ok(v) => Ok(v),
        Err(e) => Err(e@),
    }
}

impl SemVerToken {
    /// Reads a token: `*` or a `u16` in decimal.
    pub fn from_str(s: &str) -> (r: Result<SemVerToken, String>)
        ensures
            error_view(r) == spec_parse_token(s@),
    {
        if s.unicode_len() == 1 && s.get_char(0) == '*' {
            assert(s@ =~= seq!['*']);
            return Ok(SemVerToken::Any);
        }
        match parse_u16(s) {
            Option::Some(v) => Ok(SemVerToken::Number(v)),
            Option::None => Err(concat_str(s, " is invalid")),
        }
    }

    /// The number, or `None` for the wildcard.
    pub fn value(&self) -> (r: Option<u16>)
        ensures
            r == match *self {
                SemVerToken::Number(v) => Option::Some(v),
                SemVerToken::Any => Option::None,
            },
    {
        match self {
            SemVerToken::Any => Option::None,
            SemVerToken::Number(v) => Option::Some(*v),
        }
    }

    /// `*` or the number in decimal.
    pub fn to_string(&self) -> (r: String)
        ensures
            r@ == token_text(*self),
    {
        match self {
            SemVerToken::Any => {
                proof {
                    reveal_strlit("*");
                }
                String::from_str("*")
            },
            SemVerToken::Number(v) => u16_to_decimal(*v),
        }
    }

    /// Whether this token, taken as a pattern, admits `t`.
    pub fn is_match(&self, t: &SemVerToken) -> (r: bool)
        ensures
            r == token_matches(*self, *t),
    {
        match self {
            SemVerToken::Any => true,
            SemVerToken::Number(left) => match t {
                SemVerToken::Number(right) => *left == *right,
                _ => false,
            },
        }
    }
}

impl SemVer {
    /// Reads `major.minor.patch`.
    pub fn from_str(s: &str) -> (r: Result<SemVer, String>)
        ensures
            error_view(r) == spec_parse_semver(s@),
    {
        let n = s.unicode_len();
        proof {
            lemma_find_char(s@, '.');
        }
        if let Option::Some(p1) = find_char_index(s, '.') {
            let rest = s.substring_char(p1 + 1, n);
            assert(rest@ =~= s@.subrange(p1 + 1, n as int));
            proof {
                lemma_find_char(rest@, '.');
            }
            if let Option::Some(p2) = find_char_index(rest, '.') {
                let rn = rest.unicode_len();
                let major_s = s.substring_char(0, p1);
                let minor_s = rest.substring_char(0, p2);
                let patch_s = rest.substring_char(p2 + 1, rn);
                let major = match SemVerToken::from_str(major_s) {
                    Ok(t) => t,
                    Err(e) => return Err(e),
                };
                let minor = match SemVerToken::from_str(minor_s) {
                    Ok(t) => t,
                    Err(e) => return Err(e),
                };
                let patch = match SemVerToken::from_str(patch_s) {
                    Ok(t) => t,
                    Err(e) => return Err(e),
                };
                return Ok(SemVer { major, minor, patch });
            }
        }
        Err(concat_str(s, " invalid semver"))
    }

    /// The pattern `*.*.*`, which admits every version.
    pub fn any() -> (r: SemVer)
        ensures
            r == (SemVer { major: SemVerToken::Any, minor: SemVerToken::Any, patch: SemVerToken::Any }),
    {
        SemVer { major: SemVerToken::Any, minor: SemVerToken::Any, patch: SemVerToken::Any }
    }

    /// The pattern `major.*.*`.
    pub fn any_minor(major: u16) -> (r: SemVer)
        ensures
            r == (SemVer {
                major: SemVerToken::Number(major),
                minor: SemVerToken::Any,
                patch: SemVerToken::Any,
            }),
    {
        SemVer { major: SemVerToken::Number(major), minor: SemVerToken::Any, patch: SemVerToken::Any }
    }

    /// The pattern `major.minor.*`.
    pub fn any_patch(major: u16, minor: u16) -> (r: SemVer)
        ensures
            r == (SemVer {
                major: SemVerToken::Number(major),
                minor: SemVerToken::Number(minor),
                patch: SemVerToken::Any,
            }),
    {
        SemVer {
            major: SemVerToken::Number(major),
            minor: SemVerToken::Number(minor),
            patch: SemVerToken::Any,
        }
    }

    /// Whether this pattern admits the version that `s` reads as; text that
    /// does not read as a version is never admitted.
    pub fn is_match(&self, s: &str) -> (r: bool)
        ensures
            r == match spec_parse_semver(s@) {
                Ok(other) => semver_matches(*self, other),
                Err(_) => false,
            },
    {
        match SemVer::from_str(s) {
            Err(_) => false,
            Ok(other) => self.is_match_other(&other),
        }
    }

    /// Whether this pattern admits `other`, part by part.
    pub fn is_match_other(&self, other: &SemVer) -> (r: bool)
        ensures
            r == semver_matches(*self, *other),
    {
        self.major.is_match(&other.major) && self.minor.is_match(&other.minor)
            && self.patch.is_match(&other.patch)
    }

    /// `major.minor.patch`, each part as `*` or in decimal.
    pub fn to_string(&self) -> (r: String)
        ensures
            r@ == semver_text(*self),
    {
        proof {
            reveal_strlit(".");
        }
        let mut r = self.major.to_string();
        r.append(".");
        let minor = self.minor.to_string();
        r.append(minor.as_str());
        r.append(".");
        let patch = self.patch.to_string();
        r.append(patch.as_str());
        r
    }
}

/// A token's text reads back as the token.
pub proof fn lemma_token_text_roundtrip(t: SemVerToken)
    ensures
        spec_parse_token(token_text(t)) == Ok::<SemVerToken, Seq<char>>(t),
        lacks_char(token_text(t), '.'),
        token_text(t).len() > 0,
{
    match t {
        SemVerToken::Any => {},
        SemVerToken::Number(v) => {
            let s = decimal(v as nat);
            lemma_decimal(v as nat);
            assert(crate::text::is_digit(s[0]));
            assert(s != seq!['*']) by {
                if s == seq!['*'] {
                    assert(s[0] == '*');
                }
            }
            assert(unsigned_digits(s) == s);
            assert forall|j: int| 0 <= j < s.len() implies s[j] != '.' by {
                assert(crate::text::is_digit(s[j]));
            }
        },
    }
}

/// Law: the text of a version reads back as that same version, so
/// `SemVer::from_str` undoes `SemVer::to_string`.
pub proof fn lemma_semver_text_roundtrip(v: SemVer)
    ensures
        spec_parse_semver(semver_text(v)) == Ok::<SemVer, Seq<char>>(v),
{
    let a = token_text(v.major);
    let b = token_text(v.minor);
    let c = token_text(v.patch);
    lemma_token_text_roundtrip(v.major);
    lemma_token_text_roundtrip(v.minor);
    lemma_token_text_roundtrip(v.patch);
    let s = semver_text(v);
    assert(s =~= a + seq!['.'] + b + seq!['.'] + c);
    assert(is_first_index(s, '.', a.len() as int)) by {
        assert forall|j: int| 0 <= j < a.len() implies s[j] != '.' by {
            assert(s[j] == a[j]);
        }
    }
    lemma_find_char_is(s, '.', a.len() as int);
    let rest = s.subrange(a.len() as int + 1, s.len() as int);
    assert(rest =~= b + seq!['.'] + c);
    assert(is_first_index(rest, '.', b.len() as int)) by {
        assert forall|j: int| 0 <= j < b.len() implies rest[j] != '.' by {
            assert(rest[j] == b[j]);
        }
    }
    lemma_find_char_is(rest, '.', b.len() as int);
    assert(s.subrange(0, a.len() as int) =~= a);
    assert(rest.subrange(0, b.len() as int) =~= b);
    assert(rest.subrange(b.len() as int + 1, rest.len() as int) =~= c);
}

/// The canonical text of a token: `*`, or a `u16` in decimal without sign
/// and without leading zeros.
pub open spec fn canonical_token(t: Seq<char>) -> bool {
    t == seq!['*'] || (canonical_decimal(t) && digits_value(t) <= u16::MAX)
}

proof fn lemma_canonical_token(t: Seq<char>)
    requires
        canonical_token(t),
    ensures
        spec_parse_token(t) matches Ok(tok) && token_text(tok) == t,
{
    if t != seq!['*'] {
        assert(is_digit(t[0]));
        assert(unsigned_digits(t) == t);
        lemma_canonical_decimal(t);
    }
}

/// Law: a version written canonically, each part `*` or a `u16` in decimal
/// without sign or leading zeros, reads as a version whose text is that same
/// text, so `SemVer::to_string` undoes `SemVer::from_str` on such text.
pub proof fn lemma_canonical_text_roundtrip(major: Seq<char>, minor: Seq<char>, patch: Seq<char>)
    requires
        canonical_token(major),
        canonical_token(minor),
        canonical_token(patch),
    ensures
        spec_parse_semver(major + seq!['.'] + minor + seq!['.'] + patch) matches Ok(v) && semver_text(v)
            == major + seq!['.'] + minor + seq!['.'] + patch,
{
    lemma_canonical_token(major);
    lemma_canonical_token(minor);
    lemma_canonical_token(patch);
    let v = SemVer {
        major: spec_parse_token(major)->Ok_0,
        minor: spec_parse_token(minor)->Ok_0,
        patch: spec_parse_token(patch)->Ok_0,
    };
    assert(semver_text(v) == major + seq!['.'] + minor + seq!['.'] + patch);
    lemma_semver_text_roundtrip(v);
}

/// Law: a pattern admits the text of a version exactly when it admits the
/// version, so `is_match` on `to_string` agrees with `is_match_other`.
pub proof fn lemma_match_text(p: SemVer, v: SemVer)
    ensures
        (match spec_parse_semver(semver_text(v)) {
            Ok(other) => semver_matches(p, other),
            Err(_) => false,
        }) == semver_matches(p, v),
{
    lemma_semver_text_roundtrip(v);
}

/// Law: every version admits itself.
pub proof fn lemma_matches_reflexive(v: SemVer)
    ensures
        semver_matches(v, v),
{
}

/// Law: admitting is transitive; a pattern admits whatever the versions it
/// admits admit.
pub proof fn lemma_matches_transitive(p: SemVer, q: SemVer, v: SemVer)
    requires
        semver_matches(p, q),
        semver_matches(q, v),
    ensures
        semver_matches(p, v),
{
}

/// Law: `*.*.*` admits every version.
pub proof fn lemma_any_matches_all(v: SemVer)
    ensures
        semver_matches(
            SemVer { major: SemVerToken::Any, minor: SemVerToken::Any, patch: SemVerToken::Any },
            v,
        ),
{
}

/// A version without wildcards.
pub open spec fn is_concrete(v: SemVer) -> bool {
    &&& v.major is Number
    &&& v.minor is Number
    &&& v.patch is Number
}

/// Law: a version without wildcards admits exactly itself.
pub proof fn lemma_concrete_matches_only_itself(v: SemVer, w: SemVer)
    requires
        is_concrete(v),
    ensures
        semver_matches(v, w) <==> v == w,
{
}

/// Law: a pattern with a wildcard is admitted by no version without one.
pub proof fn lemma_concrete_rejects_wildcards(v: SemVer, p: SemVer)
    requires
        is_concrete(v),
        !is_concrete(p),
    ensures
        !semver_matches(v, p),
{
}

impl core::str::FromStr for SemVerToken {
    type Err = String;

    fn from_str(s: &str) -> (r: Result<SemVerToken, String>)
        ensures
            error_view(r) == spec_parse_token(s@),
    {
        SemVerToken::from_str(s)
    }
}

impl core::str::FromStr for SemVer {
    type Err = String;

    fn from_str(s: &str) -> (r: Result<SemVer, String>)
        ensures
            error_view(r) == spec_parse_semver(s@),
    {
        SemVer::from_str(s)
    }
}

} // verus!
