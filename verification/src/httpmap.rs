//! Installing a finished header template into the HTTP collaborator's
//! `http::HeaderMap`, the default-header state that the engine consumes.
//! The map is modelled as a mathematical map from header name to the most
//! recently inserted value of that name.

use vstd::prelude::*;
use vstd::string::StrSliceExecFns;
use http::HeaderMap;
use crate::headers::HeaderTemplate;

verus! {

#[verifier::external_type_specification]
#[verifier::external_body]
#[verifier::reject_recursive_types(T)]
pub struct ExHeaderMap<T>(http::HeaderMap<T>);

#[verifier::external_type_specification]
#[verifier::external_body]
pub struct ExHeaderValue(http::HeaderValue);

/// What an `http::HeaderMap` holds: for each name, the value most
/// recently inserted under it.
pub uninterp spec fn header_map_model(m: http::HeaderMap) -> Map<Seq<char>, Seq<char>>;

/// A header name as this library installs it: 1 to 64 characters, each a
/// lowercase letter, a digit or a hyphen. The collaborator accepts every
/// such name unchanged.
pub open spec fn is_simple_header_name(s: Seq<char>) -> bool {
    1 <= s.len() <= 64 && forall|i: int|
        0 <= i < s.len() ==> (('a' as u32) <= (s[i] as u32) && (s[i] as u32) <= ('z' as u32) || (
        '0' as u32) <= (s[i] as u32) && (s[i] as u32) <= ('9' as u32) || s[i] == '-')
}

/// A header value the collaborator accepts: visible characters, spaces
/// and tabs.
pub open spec fn is_simple_header_value(s: Seq<char>) -> bool {
    forall|i: int|
        0 <= i < s.len() ==> ((' ' as u32) <= (s[i] as u32) && (s[i] as u32) <= ('~' as u32)
            || s[i] == '\t')
}

/// The model of a map with nothing in it.
pub open spec fn empty_header_map_model() -> Map<Seq<char>, Seq<char>> {
    Map::empty()
}

/// Relies on http::HeaderMap::new: it creates an empty map.
#[verifier::external_body]
fn header_map_new() -> (res: HeaderMap)
    ensures
        header_map_model(res) == empty_header_map_model(),
{
    http::HeaderMap::new()
}

/// Relies on http::HeaderName::from_bytes and http::HeaderValue::from_str,
/// which accept exactly the byte sets stated above (lowercase names pass
/// through unchanged), and on http::HeaderMap::try_insert, which replaces
/// every value previously held under the name and fails only when the map
/// cannot grow its table; its growth paths, including the conservative one
/// it switches to under adversarial hash collisions, never refuse while
/// the map holds fewer than 0x1000 names.
#[verifier::external_body]
fn header_map_insert(m: &mut http::HeaderMap, name: &str, value: &str) -> (ok: bool)
    ensures
        is_simple_header_name(name@) && is_simple_header_value(value@) && header_map_model(
            *old(m),
        ).dom().len() < 0x1000 ==> ok,
        ok && is_simple_header_name(name@) ==> header_map_model(*final(m)) == header_map_model(
            *old(m),
        ).insert(name@, value@),
        !ok ==> header_map_model(*final(m)) == header_map_model(*old(m)),
{
    let n = match http::HeaderName::from_bytes(name.as_bytes()) {
        Ok(n) => n,
        Err(_) => return false,
    };
    let v = match http::HeaderValue::from_str(value) {
        Ok(v) => v,
        Err(_) => return false,
    };
    m.try_insert(n, v).is_ok()
}

/// The map contents after installing the first `k` template entries.
pub open spec fn map_upto(t: Seq<(Seq<char>, Seq<char>)>, k: int) -> Map<Seq<char>, Seq<char>>
    decreases k,
{
    if k <= 0 {
        Map::empty()
    } else {
        map_upto(t, k - 1).insert(t[k - 1].0, t[k - 1].1)
    }
}

/// The map contents after installing a whole template.
pub open spec fn as_header_map(t: Seq<(Seq<char>, Seq<char>)>) -> Map<Seq<char>, Seq<char>> {
    map_upto(t, t.len() as int)
}

/// Every entry of the template is one the collaborator accepts.
pub open spec fn template_installable(t: Seq<(Seq<char>, Seq<char>)>) -> bool {
    forall|i: int|
        0 <= i < t.len() ==> is_simple_header_name(#[trigger] t[i].0) && is_simple_header_value(
            t[i].1,
        )
}

/// Character check matching `is_simple_header_name`.
fn name_ok(s: &str) -> (r: bool)
    ensures
        r == is_simple_header_name(s@),
{
    let n = s.unicode_len();
    if n < 1 || n > 64 {
        return false;
    }
    let mut i: usize = 0;
    while i < n
        invariant
            n == s@.len(),
            1 <= n <= 64,
            i <= n,
            forall|j: int|
                0 <= j < i ==> (('a' as u32) <= (s@[j] as u32) && (s@[j] as u32) <= ('z' as u32)
                    || ('0' as u32) <= (s@[j] as u32) && (s@[j] as u32) <= ('9' as u32) || s@[j]
                    == '-'),
        decreases n - i,
    {
        let c = s.get_char(i);
        let u = c as u32;
        let lower = ('a' as u32) <= u && u <= ('z' as u32);
        let digit = ('0' as u32) <= u && u <= ('9' as u32);
        if !(lower || digit || c == '-') {
            return false;
        }
        i = i + 1;
    }
    true
}

/// Character check matching `is_simple_header_value`.
fn value_ok(s: &str) -> (r: bool)
    ensures
        r == is_simple_header_value(s@),
{
    let n = s.unicode_len();
    let mut i: usize = 0;
    while i < n
        invariant
            n == s@.len(),
            i <= n,
            forall|j: int|
                0 <= j < i ==> ((' ' as u32) <= (s@[j] as u32) && (s@[j] as u32) <= ('~' as u32)
                    || s@[j] == '\t'),
        decreases n - i,
    {
        let c = s.get_char(i);
        let u = c as u32;
        if !((' ' as u32) <= u && u <= ('~' as u32) || c == '\t') {
            return false;
        }
        i = i + 1;
    }
    true
}

/// Install a template as the collaborator's default-header state. The
/// installation succeeds exactly when every entry is acceptable to the
/// collaborator and the template stays below the size its map is always
/// able to hold; the resulting map holds, for each name, the template's
/// value under that name.
pub fn build_header_map(t: &HeaderTemplate) -> (r: Option<http::HeaderMap>)
    ensures
        r is Some <==> template_installable(t@) && t@.len() <= 0x1000,
        r matches Some(m) ==> header_map_model(m) == as_header_map(t@),
{
    let n = t.len();
    if n > 0x1000 {
        return None;
    }
    let mut m = header_map_new();
    let mut i: usize = 0;
    while i < n
        invariant
            n == t@.len() <= 0x1000,
            i <= n,
            header_map_model(m) == map_upto(t@, i as int),
            header_map_model(m).dom().finite(),
            header_map_model(m).dom().len() <= i,
            forall|j: int|
                0 <= j < i ==> is_simple_header_name(#[trigger] t@[j].0) && is_simple_header_value(
                    t@[j].1,
                ),
        decreases n - i,
    {
        let name = match t.name_at(i) {
            Some(s) => s,
            None => return None,
        };
        let value = match t.value_at(i) {
            Some(s) => s,
            None => return None,
        };
        if !name_ok(name.as_str()) || !value_ok(value.as_str()) {
            return None;
        }
        let ok = header_map_insert(&mut m, name.as_str(), value.as_str());
        if !ok {
            return None;
        }
        proof {
            broadcast use vstd::set::group_set_axioms;

            assert(header_map_model(m).dom() =~= map_upto(t@, i as int).dom().insert(
                t@[i as int].0,
            ));
        }
        i = i + 1;
    }
    Some(m)
}

} // verus!
