//! The qualified device name grammar: `vendor/class=identifier`.
//!
//! A name is valid iff all three parts are non-empty, `vendor` and `class`
//! are drawn from the allowed character set, and the identifier (everything
//! after the last `=`) is a non-empty opaque token. An invalid name is
//! rejected, never coerced; the one legacy exception is `qualify`, which
//! rewrites an unqualified identifier with a configured default vendor and
//! class before downstream validation.

use vstd::prelude::*;
use vstd::string::StrSliceExecFns;
use vstd::string::StringExecFns;

use crate::errors::CdiError;
use crate::errors::CdiErrorV;
use crate::text::find_char;
use crate::text::find_first;
use crate::text::find_last;
use crate::text::lemma_find_first;
use crate::text::lemma_find_first_at;
use crate::text::lemma_find_last;
use crate::text::lemma_find_last_at;
use crate::text::rfind_char;
use crate::text::substring;

verus! {

/// Characters allowed in the vendor and class tokens.
pub open spec fn allowed_char(c: char) -> bool {
    ('a' <= c && c <= 'z') || ('A' <= c && c <= 'Z') || ('0' <= c && c <= '9') || c == '.' || c
        == '-' || c == '_'
}

/// A non-empty token of allowed characters.
pub open spec fn valid_token(s: Seq<char>) -> bool {
    s.len() > 0 && forall|i: int| 0 <= i < s.len() ==> allowed_char(#[trigger] s[i])
}

/// The parse of a qualified name: split on the last `=` to separate the
/// identifier, then on the first `/` to separate vendor from class.
pub open spec fn parse_name_spec(s: Seq<char>) -> Option<(Seq<char>, Seq<char>, Seq<char>)> {
    match find_last(s, '=') {
        None => None,
        Some(k) => {
            let kind = s.subrange(0, k);
            let id = s.subrange(k + 1, s.len() as int);
            if id.len() == 0 {
                None
            } else {
                match find_first(kind, '/') {
                    None => None,
                    Some(j) => {
                        let vendor = kind.subrange(0, j);
                        let class = kind.subrange(j + 1, kind.len() as int);
                        if valid_token(vendor) && valid_token(class) {
                            Some((vendor, class, id))
                        } else {
                            None
                        }
                    },
                }
            }
        },
    }
}

/// Whether `s` is a valid fully qualified device name.
pub open spec fn is_qualified_spec(s: Seq<char>) -> bool {
    parse_name_spec(s) is Some
}

/// An unqualified name rewritten with the default vendor and class; a
/// qualified name is returned unchanged.
pub open spec fn qualify_spec(n: Seq<char>, dv: Seq<char>, dc: Seq<char>) -> Seq<char> {
    if is_qualified_spec(n) {
        n
    } else {
        dv + seq!['/'] + dc + seq!['='] + n
    }
}

/// Whether `c` may stand in a vendor or class token, executably.
pub fn is_allowed_char(c: char) -> (r: bool)
    ensures
        r == allowed_char(c),
{
    ('a' <= c && c <= 'z') || ('A' <= c && c <= 'Z') || ('0' <= c && c <= '9') || c == '.' || c
        == '-' || c == '_'
}

/// Whether `s` is a non-empty token of allowed characters, executably.
pub fn is_valid_token(s: &str) -> (r: bool)
    ensures
        r == valid_token(s@),
{
    let n = s.unicode_len();
    if n == 0 {
        return false;
    }
    let mut i: usize = 0;
    while i < n
        invariant
            i <= n,
            n == s@.len(),
            n > 0,
            forall|j: int| 0 <= j < i ==> allowed_char(#[trigger] s@[j]),
        decreases n - i,
    {
        if !is_allowed_char(s.get_char(i)) {
            return false;
        }
        i = i + 1;
    }
    true
}

/// Parse a qualified device name into `(vendor, class, identifier)`.
///
/// Fails with `MalformedName` exactly on the strings that the grammar
/// rejects: a missing separator, an empty part, or a vendor or class with a
/// character outside the allowed set.
pub fn parse_device(device: &str) -> (r: Result<(String, String, String), CdiError>)
    ensures
        match r {
            Ok(p) => parse_name_spec(device@) == Some((p.0@, p.1@, p.2@)),
            Err(e) => parse_name_spec(device@) is None && e.deep_view()
                == (CdiErrorV::MalformedName { name: device@ }),
        },
{
    let n = device.unicode_len();
    match rfind_char(device, '=') {
        None => Err(CdiError::MalformedName { name: device.to_owned() }),
        Some(k) => {
            proof {
                lemma_find_last(device@, '=');
            }
            if k + 1 == n {
                return Err(CdiError::MalformedName { name: device.to_owned() });
            }
            let id = substring(device, k + 1, n);
            let kind = device.substring_char(0, k);
            match find_char(kind, '/') {
                None => Err(CdiError::MalformedName { name: device.to_owned() }),
                Some(j) => {
                    proof {
                        lemma_find_first(kind@, '/');
                    }
                    let vendor = substring(kind, 0, j);
                    let class = substring(kind, j + 1, k);
                    if is_valid_token(vendor.as_str()) && is_valid_token(class.as_str()) {
                        Ok((vendor, class, id))
                    } else {
                        Err(CdiError::MalformedName { name: device.to_owned() })
                    }
                },
            }
        },
    }
}

/// Whether `name` is a valid fully qualified device name, executably.
pub fn is_qualified_name(name: &str) -> (r: bool)
    ensures
        r == is_qualified_spec(name@),
{
    let n = name.unicode_len();
    match rfind_char(name, '=') {
        None => false,
        Some(k) => {
            proof {
                lemma_find_last(name@, '=');
            }
            if k + 1 == n {
                return false;
            }
            let kind = name.substring_char(0, k);
            match find_char(kind, '/') {
                None => false,
                Some(j) => {
                    proof {
                        lemma_find_first(kind@, '/');
                    }
                    let vendor = kind.substring_char(0, j);
                    let class = kind.substring_char(j + 1, k);
                    is_valid_token(vendor) && is_valid_token(class)
                },
            }
        },
    }
}

/// Rewrite an unqualified name as `default_vendor/default_class=name`; a
/// qualified name is returned unchanged. Never fails; downstream validation
/// is still required.
pub fn qualify(name: &str, default_vendor: &str, default_class: &str) -> (r: String)
    ensures
        r@ == qualify_spec(name@, default_vendor@, default_class@),
{
    if is_qualified_name(name) {
        name.to_owned()
    } else {
        let mut out = default_vendor.to_owned();
        out.append("/");
        out.append(default_class);
        out.append("=");
        out.append(name);
        proof {
            reveal_strlit("/");
            reveal_strlit("=");
            assert(out@ =~= default_vendor@ + seq!['/'] + default_class@ + seq!['='] + name@);
        }
        out
    }
}

/// A name assembled from valid vendor and class tokens and a non-empty
/// identifier free of `=` parses back into exactly those three parts.
pub proof fn lemma_parse_qualified(v: Seq<char>, c: Seq<char>, i: Seq<char>)
    requires
        valid_token(v),
        valid_token(c),
        i.len() > 0,
        forall|j: int| 0 <= j < i.len() ==> i[j] != '=',
    ensures
        parse_name_spec(v + seq!['/'] + c + seq!['='] + i) == Some((v, c, i)),
{
    let s = v + seq!['/'] + c + seq!['='] + i;
    let kk = v.len() + 1 + c.len();
    assert(s.len() == v.len() + 1 + c.len() + 1 + i.len());
    assert(s[kk as int] == '=');
    assert forall|j: int| kk < j < s.len() implies s[j] != '=' by {
        assert(s[j] == i[j - kk - 1]);
    }
    lemma_find_last_at(s, '=', kk as int);
    let kind = s.subrange(0, kk as int);
    let id = s.subrange(kk as int + 1, s.len() as int);
    assert(id =~= i);
    assert(kind =~= v + seq!['/'] + c);
    assert(kind[v.len() as int] == '/');
    assert forall|j: int| 0 <= j < v.len() implies kind[j] != '/' by {
        assert(kind[j] == v[j]);
        assert(allowed_char(v[j]));
    }
    lemma_find_first_at(kind, '/', v.len() as int);
    assert(kind.subrange(0, v.len() as int) =~= v);
    assert(kind.subrange(v.len() as int + 1, kind.len() as int) =~= c);
}

/// The failing side of the grammar: a string without `=`, or without `/`
/// before the last `=`, does not parse; and whatever parses has all three
/// parts non-empty.
pub proof fn lemma_parse_malformed(s: Seq<char>)
    ensures
        (forall|j: int| 0 <= j < s.len() ==> s[j] != '=') ==> parse_name_spec(s) is None,
        (forall|j: int| 0 <= j < s.len() ==> s[j] != '/') ==> parse_name_spec(s) is None,
        parse_name_spec(s) matches Some(p) ==> p.0.len() > 0 && p.1.len() > 0 && p.2.len() > 0,
{
    lemma_find_last(s, '=');
    if (forall|j: int| 0 <= j < s.len() ==> s[j] != '=') {
        assert(parse_name_spec(s) is None);
    }
    if (forall|j: int| 0 <= j < s.len() ==> s[j] != '/') {
        match find_last(s, '=') {
            None => {},
            Some(k) => {
                let kind = s.subrange(0, k);
                lemma_find_first(kind, '/');
                match find_first(kind, '/') {
                    None => {},
                    Some(j) => {
                        assert(kind[j] == s[j]);
                    },
                }
            },
        }
    }
}

/// Parsing inverts assembly for parts drawn from the allowed character set.
pub proof fn lemma_parse_roundtrip(v: Seq<char>, c: Seq<char>, i: Seq<char>)
    requires
        valid_token(v),
        valid_token(c),
        valid_token(i),
    ensures
        parse_name_spec(v + seq!['/'] + c + seq!['='] + i) == Some((v, c, i)),
{
    assert forall|j: int| 0 <= j < i.len() implies i[j] != '=' by {
        assert(allowed_char(i[j]));
    }
    lemma_parse_qualified(v, c, i);
}

/// Qualification is idempotent: requalifying a qualified result changes
/// nothing. This holds for every already-qualified name, and for every
/// unqualified name free of `=` when the defaults are valid tokens.
pub proof fn lemma_qualify_idempotent(n: Seq<char>, dv: Seq<char>, dc: Seq<char>)
    requires
        is_qualified_spec(n) || (valid_token(dv) && valid_token(dc) && n.len() > 0 && (forall|
            j: int,
        | 0 <= j < n.len() ==> n[j] != '=')),
    ensures
        qualify_spec(qualify_spec(n, dv, dc), dv, dc) == qualify_spec(n, dv, dc),
{
    if !is_qualified_spec(n) {
        lemma_parse_qualified(dv, dc, n);
    }
}

} // verus!
