//! Dual-channel credential extraction: the bearer credential is read from
//! the `Authorization` header, or, on absence or a malformed header, from
//! the named cookie's value. Every stage that needs the access credential
//! uses this one lookup.

use vstd::prelude::*;

use crate::strutil::{
    first_index, lemma_first_index_at, str_eq, trim, trim_spec,
};

verus! {

/// What one `name=value` cookie pair yields for `name`: the pair's value,
/// both sides trimmed of surrounding whitespace, when the name matches.
pub open spec fn pair_value(pair: Seq<char>, name: Seq<char>) -> Option<Seq<char>> {
    let e = first_index(pair, '=');
    if 0 <= e && e < pair.len() && trim_spec(pair.subrange(0, e)) == name {
        Some(trim_spec(pair.subrange(e + 1, pair.len() as int)))
    } else {
        None
    }
}

/// What looking the named cookie up in a `Cookie` header value yields: the
/// pairs are read left to right, split on `;`, and the first pair whose
/// trimmed name matches wins.
pub open spec fn cookie_value_spec(s: Seq<char>, name: Seq<char>) -> Option<Seq<char>>
    decreases s.len(),
{
    let i = first_index(s, ';');
    match pair_value(s.subrange(0, if 0 <= i && i <= s.len() { i } else { 0 }), name) {
        Some(v) => Some(v),
        None => if 0 <= i && i < s.len() {
            cookie_value_spec(s.subrange(i + 1, s.len() as int), name)
        } else {
            None
        },
    }
}

/// Looks the named cookie up in a `Cookie` header value.
pub fn cookie_value<'a>(s: &'a str, name: &str) -> (r: Option<&'a str>)
    ensures
        match r {
            Some(v) => cookie_value_spec(s@, name@) == Some(v@),
            None => cookie_value_spec(s@, name@) is None,
        },
    decreases s@.len(),
{
    let len = s.unicode_len();
    let mut i: usize = 0;
    while i < len && s.get_char(i) != ';'
        invariant
            i <= len,
            len == s@.len(),
            forall|j: int| 0 <= j < i ==> s@[j] != ';',
        decreases len - i,
    {
        i = i + 1;
    }
    proof {
        lemma_first_index_at(s@, ';', i as int);
    }
    let pair = s.substring_char(0, i);
    let plen = pair.unicode_len();
    let mut e: usize = 0;
    while e < plen && pair.get_char(e) != '='
        invariant
            e <= plen,
            plen == pair@.len(),
            forall|j: int| 0 <= j < e ==> pair@[j] != '=',
        decreases plen - e,
    {
        e = e + 1;
    }
    proof {
        lemma_first_index_at(pair@, '=', e as int);
    }
    if e < plen {
        let key = trim(pair.substring_char(0, e));
        if str_eq(key, name) {
            let value = trim(pair.substring_char(e + 1, plen));
            return Some(value);
        }
    }
    if i < len {
        let rest = s.substring_char(i + 1, len);
        cookie_value(rest, name)
    } else {
        None
    }
}

/// What parsing `Bearer <token>` out of an `Authorization` header value
/// yields: the rest after the scheme prefix, or nothing for a malformed
/// value.
pub open spec fn bearer_of(h: Seq<char>) -> Option<Seq<char>> {
    if h.len() >= 7 && h.subrange(0, 7) == "Bearer "@ {
        Some(h.subrange(7, h.len() as int))
    } else {
        None
    }
}

/// Parses `Bearer <token>` out of an `Authorization` header value.
pub fn parse_bearer(h: &str) -> (r: Option<&str>)
    ensures
        match r {
            Some(t) => bearer_of(h@) == Some(t@),
            None => bearer_of(h@) is None,
        },
{
    proof {
        reveal_strlit("Bearer ");
    }
    let len = h.unicode_len();
    if len < 7 {
        return None;
    }
    let mut i: usize = 0;
    while i < 7
        invariant
            i <= 7,
            7 <= len == h@.len(),
            forall|j: int| 0 <= j < i ==> h@[j] == "Bearer "@[j],
        decreases 7 - i,
    {
        proof {
            reveal_strlit("Bearer ");
        }
        if h.get_char(i) != "Bearer ".get_char(i) {
            proof {
                assert(h@.subrange(0, 7)[i as int] != "Bearer "@[i as int]);
            }
            return None;
        }
        i = i + 1;
    }
    let t = h.substring_char(7, len);
    proof {
        assert(h@.subrange(0, 7) =~= "Bearer "@);
    }
    Some(t)
}

/// The credential the dual-channel lookup settles on: the token of a
/// well-formed `Authorization` header; else, the named cookie's value; else
/// nothing.
pub open spec fn extracted(header: Option<Seq<char>>, cookie: Option<Seq<char>>) -> Option<
    Seq<char>,
> {
    match header {
        Some(h) => match bearer_of(h) {
            Some(t) => Some(t),
            None => cookie,
        },
        None => cookie,
    }
}

/// Pulls the bearer credential from the `Authorization` header value or, on
/// absence or malformed header, from the access cookie's value.
pub fn extract_bearer<'a>(header: Option<&'a str>, cookie: Option<&'a str>) -> (r: Option<&'a str>)
    ensures
        match r {
            Some(t) => extracted(header.deep_view(), cookie.deep_view()) == Some(t@),
            None => extracted(header.deep_view(), cookie.deep_view()) is None,
        },
{
    match header {
        Some(h) => match parse_bearer(h) {
            Some(t) => Some(t),
            None => cookie,
        },
        None => cookie,
    }
}

} // verus!
