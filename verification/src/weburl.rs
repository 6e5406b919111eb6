use vstd::prelude::*;

use crate::text::{digit_val, is_digit};

verus! {

// ------------------------------------------------------------------
// URL components, through the url crate
// ------------------------------------------------------------------

/// The host component of the text under WHATWG URL parsing, or `None`
/// where the text does not parse as an absolute URL or its kind has no
/// host.
pub uninterp spec fn url_host_of(u: Seq<char>) -> Option<Seq<char>>;

/// Relies on url::Url::parse and url::Url::host_str: the URL's host,
/// a function of the text alone.
#[verifier::external_body]
pub(crate) fn url_host(u: &str) -> (r: Option<String>)
    ensures
        match r {
            Some(h) => url_host_of(u@) == Some(h@),
            None => url_host_of(u@) is None,
        },
{
    match url::Url::parse(u) {
        Ok(p) => p.host_str().map(|h| h.to_string()),
        Err(_) => None,
    }
}

/// The path component of the text under WHATWG URL parsing (at least `/`
/// for http URLs), or `None` where the text does not parse.
pub uninterp spec fn url_path_of(u: Seq<char>) -> Option<Seq<char>>;

/// Relies on url::Url::parse and url::Url::path: the URL's path, a
/// function of the text alone.
#[verifier::external_body]
pub(crate) fn url_path(u: &str) -> (r: Option<String>)
    ensures
        match r {
            Some(p) => url_path_of(u@) == Some(p@),
            None => url_path_of(u@) is None,
        },
{
    match url::Url::parse(u) {
        Ok(p) => Some(p.path().to_string()),
        Err(_) => None,
    }
}

/// The raw (still percent-encoded) query component of the text, without
/// the `?`; `None` where the text does not parse as a URL or carries no
/// query.
pub uninterp spec fn url_query_of(u: Seq<char>) -> Option<Seq<char>>;

/// Relies on url::Url::parse and url::Url::query: the URL's raw query
/// string, a function of the text alone.
#[verifier::external_body]
pub(crate) fn url_query(u: &str) -> (r: Option<String>)
    ensures
        match r {
            Some(q) => url_query_of(u@) == Some(q@),
            None => url_query_of(u@) is None,
        },
{
    match url::Url::parse(u) {
        Ok(p) => p.query().map(|q| q.to_string()),
        Err(_) => None,
    }
}

// ------------------------------------------------------------------
// Query-string parameters (verified over the raw query)
// ------------------------------------------------------------------

/// End of the `&`-separated pair that starts at `i`.
pub open spec fn amp_end(q: Seq<char>, i: int) -> int
    decreases q.len() - i,
{
    if 0 <= i < q.len() && q[i] != '&' {
        amp_end(q, i + 1)
    } else {
        i
    }
}

proof fn lemma_amp_end_bounds(q: Seq<char>, i: int)
    requires
        0 <= i <= q.len(),
    ensures
        i <= amp_end(q, i) <= q.len(),
    decreases q.len() - i,
{
    if i < q.len() && q[i] != '&' {
        lemma_amp_end_bounds(q, i + 1);
    }
}

/// First `=` in `[i, e)`, or `e` where the pair has none.
pub open spec fn eq_end_before(q: Seq<char>, i: int, e: int) -> int
    decreases e - i,
{
    if i < e && 0 <= i < q.len() && q[i] != '=' {
        eq_end_before(q, i + 1, e)
    } else {
        i
    }
}

/// The raw value of the first query pair named `key`, scanning the pairs
/// of `q` from index `i` on; a pair without `=` has the empty value.
pub open spec fn find_param_from(q: Seq<char>, key: Seq<char>, i: int) -> Option<Seq<char>>
    decreases q.len() - i
        when 0 <= i <= q.len()
        via find_param_from_decreases
{
    let e = amp_end(q, i);
    let m = eq_end_before(q, i, e);
    if q.subrange(i, m) == key {
        Some(
            if m < e {
                q.subrange(m + 1, e)
            } else {
                Seq::empty()
            },
        )
    } else if e >= q.len() {
        None
    } else {
        find_param_from(q, key, e + 1)
    }
}

#[via_fn]
proof fn find_param_from_decreases(q: Seq<char>, key: Seq<char>, i: int) {
    lemma_amp_end_bounds(q, i);
}

// ------------------------------------------------------------------
// Percent-decoding of a query value
// ------------------------------------------------------------------

pub open spec fn hex_val(c: char) -> int {
    if is_digit(c) {
        digit_val(c)
    } else if 97 <= c as u32 && c as u32 <= 102 {
        c as u32 - 87
    } else if 65 <= c as u32 && c as u32 <= 70 {
        c as u32 - 55
    } else {
        -1
    }
}

pub open spec fn is_hex(c: char) -> bool {
    hex_val(c) >= 0
}

fn hex_val_ex(c: char) -> (r: Option<u8>)
    ensures
        match r {
            Some(v) => is_hex(c) && v as int == hex_val(c),
            None => !is_hex(c),
        },
{
    let u = c as u32;
    if 48 <= u && u <= 57 {
        Some((u - 48) as u8)
    } else if 97 <= u && u <= 102 {
        Some((u - 87) as u8)
    } else if 65 <= u && u <= 70 {
        Some((u - 55) as u8)
    } else {
        None
    }
}

/// An ASCII percent-escape begins at `i`: `%`, two hex digits, and a value
/// below 128.
pub open spec fn ascii_escape_at(s: Seq<char>, i: int) -> bool {
    &&& 0 <= i
    &&& i + 3 <= s.len()
    &&& s[i] == '%'
    &&& is_hex(s[i + 1])
    &&& is_hex(s[i + 2])
    &&& hex_val(s[i + 1]) * 16 + hex_val(s[i + 2]) < 128
}

/// Form-urlencoding undone, for the values share links carry: `+` becomes a
/// space and an ASCII `%XX` escape becomes its character; anything else
/// (including a non-ASCII escape) stands as it is.
pub open spec fn decode_from(s: Seq<char>, i: int) -> Seq<char>
    decreases s.len() - i,
{
    if !(0 <= i < s.len()) {
        Seq::empty()
    } else if s[i] == '+' {
        seq![' '] + decode_from(s, i + 1)
    } else if ascii_escape_at(s, i) {
        seq![((hex_val(s[i + 1]) * 16 + hex_val(s[i + 2])) as u8) as char] + decode_from(s, i + 3)
    } else {
        seq![s[i]] + decode_from(s, i + 1)
    }
}

pub open spec fn spec_decode(s: Seq<char>) -> Seq<char> {
    decode_from(s, 0)
}

pub fn decode_component(s: &str) -> (r: String)
    ensures
        r@ == spec_decode(s@),
{
    let n = s.unicode_len();
    let mut out = String::new();
    let mut i: usize = 0;
    while i < n
        invariant
            n == s@.len(),
            i <= n,
            out@ + decode_from(s@, i as int) == spec_decode(s@),
        decreases n - i,
    {
        let c = s.get_char(i);
        if c == '+' {
            out.push(' ');
            i += 1;
        } else if c == '%' && n - i > 2 {
            let h1 = hex_val_ex(s.get_char(i + 1));
            let h2 = hex_val_ex(s.get_char(i + 2));
            match (h1, h2) {
                (Some(v1), Some(v2)) if v1 * 16 + v2 < 128 => {
                    out.push(((v1 * 16 + v2) as u8) as char);
                    i += 3;
                },
                _ => {
                    out.push(c);
                    i += 1;
                },
            }
        } else {
            out.push(c);
            i += 1;
        }
    }
    out
}

/// The decoded value of the first query pair named `key` in the raw query
/// `q`, or `None` where no pair carries that name.
pub open spec fn spec_query_param(q: Seq<char>, key: Seq<char>) -> Option<Seq<char>> {
    match find_param_from(q, key, 0) {
        Some(raw) => Some(spec_decode(raw)),
        None => None,
    }
}

pub fn query_param(query: &str, key: &str) -> (r: Option<String>)
    ensures
        match r {
            Some(v) => spec_query_param(query@, key@) == Some(v@),
            None => spec_query_param(query@, key@) is None,
        },
{
    let n = query.unicode_len();
    let mut i: usize = 0;
    loop
        invariant
            n == query@.len(),
            0 <= i <= n,
            spec_query_param(query@, key@) == (match find_param_from(query@, key@, i as int) {
                Some(raw) => Some(spec_decode(raw)),
                None => None,
            }),
        decreases n - i,
    {
        let mut e = i;
        while e < n && query.get_char(e) != '&'
            invariant
                i <= e <= n,
                n == query@.len(),
                amp_end(query@, i as int) == amp_end(query@, e as int),
            decreases n - e,
        {
            e += 1;
        }
        let mut m = i;
        while m < e && query.get_char(m) != '='
            invariant
                i <= m <= e <= n,
                n == query@.len(),
                eq_end_before(query@, i as int, e as int) == eq_end_before(
                    query@,
                    m as int,
                    e as int,
                ),
            decreases e - m,
        {
            m += 1;
        }
        let name = query.substring_char(i, m);
        if crate::text::str_eq(name, key) {
            let raw = if m < e {
                query.substring_char(m + 1, e)
            } else {
                proof {
                    assert(Seq::<char>::empty() =~= query@.subrange(m as int, m as int));
                }
                query.substring_char(m, m)
            };
            proof {
                if m >= e {
                    assert(raw@ =~= Seq::<char>::empty());
                }
            }
            return Some(decode_component(raw));
        }
        if e >= n {
            return None;
        }
        i = e + 1;
    }
}

/// The decoded value of the query parameter `key` of the URL `u`: the
/// composition of the url crate's query accessor with the verified pair
/// scan.
pub fn url_query_param(u: &str, key: &str) -> (r: Option<String>)
    ensures
        match url_query_of(u@) {
            Some(q) => (match r {
                Some(v) => spec_query_param(q, key@) == Some(v@),
                None => spec_query_param(q, key@) is None,
            }),
            None => r is None,
        },
{
    match url_query(u) {
        Some(q) => query_param(q.as_str(), key),
        None => None,
    }
}

} // verus!
