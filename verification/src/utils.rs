use vstd::prelude::*;

use crate::errors::ParseError;
use crate::text::{
    all_digits, digit_str, find_from, find_substr, find_substr_from, is_digit, is_space,
    is_word_char, lemma_find_from_some, lemma_occurrence_is_found, match_at, matches_at,
    space_char, spec_trim, trim_start_idx, trim_str, word_char,
};

use rand::RngExt;

verus! {

// ------------------------------------------------------------------
// URL normalizer
// ------------------------------------------------------------------

/// The characters an http/https URL candidate may continue over; scanning
/// stops at the first character outside this set (whitespace, CJK text,
/// closing punctuation, quotes, and so on).
pub open spec fn is_url_char(c: char) -> bool {
    is_word_char(c) || c == '.' || c == '-' || c == '/' || c == ':' || c == '?' || c == '='
        || c == '&' || c == '+' || c == '%'
}

pub fn url_char(c: char) -> (r: bool)
    ensures
        r == is_url_char(c),
{
    word_char(c) || c == '.' || c == '-' || c == '/' || c == ':' || c == '?' || c == '=' || c == '&'
        || c == '+' || c == '%'
}

/// An absolute http or https scheme begins at index `i`.
pub open spec fn is_scheme_at(t: Seq<char>, i: int) -> bool {
    matches_at(t, "http://"@, i) || matches_at(t, "https://"@, i)
}

pub open spec fn first_scheme_from(t: Seq<char>, i: int) -> Option<int>
    decreases t.len() - i,
{
    if !(0 <= i < t.len()) {
        None
    } else if is_scheme_at(t, i) {
        Some(i)
    } else {
        first_scheme_from(t, i + 1)
    }
}

pub open spec fn url_end_from(t: Seq<char>, i: int) -> int
    decreases t.len() - i,
{
    if 0 <= i < t.len() && is_url_char(t[i]) {
        url_end_from(t, i + 1)
    } else {
        i
    }
}

/// The first plausible absolute http/https URL in `t`: the maximal run of
/// URL characters starting at the first scheme occurrence.
pub open spec fn spec_extract_url(t: Seq<char>) -> Option<Seq<char>> {
    match first_scheme_from(t, 0) {
        Some(i) => Some(t.subrange(i, url_end_from(t, i))),
        None => None,
    }
}

pub proof fn lemma_first_scheme_bounds(t: Seq<char>, i: int)
    requires
        0 <= i,
        first_scheme_from(t, i) is Some,
    ensures
        i <= first_scheme_from(t, i)->0 < t.len(),
        is_scheme_at(t, first_scheme_from(t, i)->0),
    decreases t.len() - i,
{
    if 0 <= i < t.len() && !is_scheme_at(t, i) {
        lemma_first_scheme_bounds(t, i + 1);
    }
}

pub proof fn lemma_url_end_bounds(t: Seq<char>, i: int)
    requires
        0 <= i <= t.len(),
    ensures
        i <= url_end_from(t, i) <= t.len(),
    decreases t.len() - i,
{
    if i < t.len() && is_url_char(t[i]) {
        lemma_url_end_bounds(t, i + 1);
    }
}

/// The normalizer never invents bytes: an extracted URL is a verbatim
/// contiguous substring of the input text.
pub proof fn lemma_extracted_url_is_substring(t: Seq<char>, u: Seq<char>)
    requires
        spec_extract_url(t) == Some(u),
    ensures
        exists|i: int|
            0 <= i && i + u.len() <= t.len() && #[trigger] t.subrange(i, i + u.len()) == u,
{
    let i = first_scheme_from(t, 0)->0;
    lemma_first_scheme_bounds(t, 0);
    lemma_url_end_bounds(t, i);
    let e = url_end_from(t, i);
    assert(t.subrange(i, i + u.len()) == u);
}

fn find_scheme_start(text: &str) -> (r: Option<usize>)
    ensures
        match r {
            Some(i) => first_scheme_from(text@, 0) == Some(i as int),
            None => first_scheme_from(text@, 0) is None,
        },
{
    let n = text.unicode_len();
    let mut i: usize = 0;
    loop
        invariant
            n == text@.len(),
            i <= n,
            first_scheme_from(text@, 0) == first_scheme_from(text@, i as int),
        decreases n - i,
    {
        if i >= n {
            return None;
        }
        if match_at(text, "http://", i) || match_at(text, "https://", i) {
            return Some(i);
        }
        i += 1;
    }
}

/// Extracts the first syntactically plausible absolute http/https URL from
/// arbitrary free text, byte for byte as it stands there.
pub fn extract_url_from_string(text: &str) -> (r: Result<String, ParseError>)
    ensures
        match r {
            Ok(u) => spec_extract_url(text@) == Some(u@),
            Err(e) => e == ParseError::UrlNotFound && spec_extract_url(text@) is None,
        },
{
    let n = text.unicode_len();
    let i = match find_scheme_start(text) {
        Some(i) => i,
        None => {
            return Err(ParseError::UrlNotFound);
        },
    };
    proof {
        lemma_first_scheme_bounds(text@, 0);
    }
    let mut j: usize = i;
    while j < n && url_char(text.get_char(j))
        invariant
            n == text@.len(),
            i <= j <= n,
            url_end_from(text@, i as int) == url_end_from(text@, j as int),
        decreases n - j,
    {
        j += 1;
    }
    Ok(String::from_str(text.substring_char(i, j)))
}

// ------------------------------------------------------------------
// Embedded-state extraction: the two-anchor slice
// ------------------------------------------------------------------

/// The text strictly between an assignment to `anchor` (the variable
/// declaration, then optional whitespace, then `=`) and the first following
/// occurrence of `close`, trimmed.
pub open spec fn spec_extract_between(t: Seq<char>, anchor: Seq<char>, close: Seq<char>) -> Option<
    Seq<char>,
> {
    match find_from(t, anchor, 0) {
        Some(a) => {
            let p = trim_start_idx(t, a + anchor.len());
            if p < t.len() && t[p] == '=' {
                match find_from(t, close, p + 1) {
                    Some(c) => Some(spec_trim(t.subrange(p + 1, c))),
                    None => None,
                }
            } else {
                None
            }
        },
        None => None,
    }
}

/// The shared two-anchor slice: every strategy that reads state a page
/// embeds in a `<script>` assignment goes through this one primitive.
pub fn extract_json_from_html(html: &str, anchor: &str, close: &str) -> (r: Result<
    String,
    ParseError,
>)
    ensures
        match r {
            Ok(s) => spec_extract_between(html@, anchor@, close@) == Some(s@),
            Err(e) => e == ParseError::EmbeddedDataNotFound && spec_extract_between(
                html@,
                anchor@,
                close@,
            ) is None,
        },
{
    let n = html.unicode_len();
    let a = match find_substr(html, anchor) {
        Some(a) => a,
        None => {
            return Err(ParseError::EmbeddedDataNotFound);
        },
    };
    proof {
        lemma_find_from_some(html@, anchor@, 0);
    }
    let alen = anchor.unicode_len();
    let mut p: usize = a + alen;
    while p < n && space_char(html.get_char(p))
        invariant
            n == html@.len(),
            p <= n,
            trim_start_idx(html@, a + alen) == trim_start_idx(html@, p as int),
        decreases n - p,
    {
        p += 1;
    }
    if p >= n || html.get_char(p) != '=' {
        return Err(ParseError::EmbeddedDataNotFound);
    }
    let c = match find_substr_from(html, close, p + 1) {
        Some(c) => c,
        None => {
            return Err(ParseError::EmbeddedDataNotFound);
        },
    };
    proof {
        lemma_find_from_some(html@, close@, p + 1);
    }
    Ok(trim_str(html.substring_char(p + 1, c)))
}

// ------------------------------------------------------------------
// `undefined` sanitization
// ------------------------------------------------------------------

/// A bare `undefined` token begins at index `i`: it follows `:`/`,`/`[` and
/// ends at a word boundary.
pub open spec fn undef_token_at(t: Seq<char>, i: int) -> bool {
    &&& 0 <= i
    &&& i + 10 <= t.len()
    &&& (t[i] == ':' || t[i] == ',' || t[i] == '[')
    &&& t.subrange(i + 1, i + 10) == "undefined"@
    &&& (i + 10 == t.len() || !is_word_char(t[i + 10]))
}

pub open spec fn sanitize_from(t: Seq<char>, i: int) -> Seq<char>
    decreases t.len() - i,
{
    if !(0 <= i < t.len()) {
        Seq::empty()
    } else if undef_token_at(t, i) {
        seq![t[i]] + "null"@ + sanitize_from(t, i + 10)
    } else {
        seq![t[i]] + sanitize_from(t, i + 1)
    }
}

/// `t` with every bare `undefined` token replaced by `null`, the
/// surrounding punctuation kept; everything else unchanged.
pub open spec fn spec_sanitize_undefined(t: Seq<char>) -> Seq<char> {
    sanitize_from(t, 0)
}

pub fn sanitize_undefined(t: &str) -> (r: String)
    ensures
        r@ == spec_sanitize_undefined(t@),
{
    let n = t.unicode_len();
    let mut out = String::new();
    let mut i: usize = 0;
    while i < n
        invariant
            n == t@.len(),
            i <= n,
            out@ + sanitize_from(t@, i as int) == spec_sanitize_undefined(t@),
        decreases n - i,
    {
        proof {
            reveal_strlit("undefined");
        }
        let c = t.get_char(i);
        let is_token = (c == ':' || c == ',' || c == '[') && match_at(t, "undefined", i + 1) && (i
            + 10 == n || !word_char(t.get_char(i + 10)));
        if is_token {
            let punct = t.substring_char(i, i + 1);
            proof {
                assert(punct@ =~= seq![t@[i as int]]);
            }
            out.append(punct);
            out.append("null");
            i += 10;
        } else {
            let one = t.substring_char(i, i + 1);
            proof {
                assert(one@ =~= seq![t@[i as int]]);
            }
            out.append(one);
            i += 1;
        }
    }
    out
}

/// Sanitization touches nothing but `undefined` tokens: where the text holds
/// none, it comes back unchanged.
pub proof fn lemma_sanitize_without_undefined_is_identity(t: Seq<char>)
    requires
        !has_sub_undefined(t),
    ensures
        spec_sanitize_undefined(t) == t,
{
    lemma_sanitize_id_from(t, 0);
    assert(t.subrange(0, t.len() as int) =~= t);
}

pub open spec fn has_sub_undefined(t: Seq<char>) -> bool {
    find_from(t, "undefined"@, 0) is Some
}

proof fn lemma_sanitize_id_from(t: Seq<char>, i: int)
    requires
        0 <= i <= t.len(),
        !has_sub_undefined(t),
    ensures
        sanitize_from(t, i) == t.subrange(i, t.len() as int),
    decreases t.len() - i,
{
    reveal_strlit("undefined");
    if i < t.len() {
        if undef_token_at(t, i) {
            assert(matches_at(t, "undefined"@, i + 1));
            lemma_occurrence_is_found(t, "undefined"@, 0, i + 1);
            assert(false);
        } else {
            lemma_sanitize_id_from(t, i + 1);
            assert(seq![t[i]] + t.subrange(i + 1, t.len() as int) =~= t.subrange(
                i,
                t.len() as int,
            ));
        }
    } else {
        assert(sanitize_from(t, i) =~= t.subrange(i, t.len() as int));
    }
}

// ------------------------------------------------------------------
// Random identifiers
// ------------------------------------------------------------------

/// Relies on rand::rng and rand::RngExt::random_range: the draw is uniform
/// in `[0, n)`; nothing else holds of it.
#[verifier::external_body]
fn random_below(n: u32) -> (r: u32)
    requires
        n > 0,
    ensures
        r < n,
{
    rand::rng().random_range(0..n)
}

/// A fresh string of `length` random decimal digits.
pub fn generate_numeric_id(length: usize) -> (r: String)
    ensures
        r@.len() == length,
        all_digits(r@),
{
    let mut out = String::new();
    let mut k: usize = 0;
    while k < length
        invariant
            k <= length,
            out@.len() == k,
            all_digits(out@),
        decreases length - k,
    {
        let ghost pre = out@;
        let d = random_below(10) as u8;
        out.append(digit_str(d));
        proof {
            assert forall|m: int| 0 <= m < out@.len() implies is_digit(#[trigger] out@[m]) by {
                if m < pre.len() {
                    assert(out@[m] == pre[m]);
                }
            }
        }
        k += 1;
    }
    out
}

/// A fresh string of `length` random characters drawn from digits and
/// ASCII letters.
pub fn generate_random_string(length: usize) -> (r: String)
    ensures
        r@.len() == length,
        forall|m: int| 0 <= m < r@.len() ==> is_word_char(#[trigger] r@[m]) && r@[m] != '_',
{
    let charset = "0123456789abcdefghijklmnopqrstuvwxyzABCDEFGHIJKLMNOPQRSTUVWXYZ";
    proof {
        reveal_strlit("0123456789abcdefghijklmnopqrstuvwxyzABCDEFGHIJKLMNOPQRSTUVWXYZ");
    }
    let mut out = String::new();
    let mut k: usize = 0;
    while k < length
        invariant
            k <= length,
            out@.len() == k,
            charset@.len() == 62,
            forall|j: int|
                0 <= j < charset@.len() ==> is_word_char(#[trigger] charset@[j]) && charset@[j]
                    != '_',
            forall|m: int| 0 <= m < out@.len() ==> is_word_char(#[trigger] out@[m]) && out@[m]
                != '_',
        decreases length - k,
    {
        let ghost pre = out@;
        let idx = random_below(62) as usize;
        let piece = charset.substring_char(idx, idx + 1);
        proof {
            assert(piece@ =~= seq![charset@[idx as int]]);
        }
        out.append(piece);
        proof {
            assert forall|m: int|
                0 <= m < out@.len() implies is_word_char(#[trigger] out@[m]) && out@[m] != '_' by {
                if m < pre.len() {
                    assert(out@[m] == pre[m]);
                } else {
                    assert(out@[m] == charset@[idx as int]);
                }
            }
        }
        k += 1;
    }
    out
}

} // verus!
