use vstd::prelude::*;

verus! {

/// Relies on std's String::push: appends exactly the one character.
pub assume_specification[ String::push ](s: &mut String, ch: char)
    ensures
        final(s)@ == old(s)@ + seq![ch],
;

// ------------------------------------------------------------------
// Substring occurrence
// ------------------------------------------------------------------

/// The pattern `p` occurs in `t` starting at character index `i`.
pub open spec fn matches_at(t: Seq<char>, p: Seq<char>, i: int) -> bool {
    0 <= i && i + p.len() <= t.len() && t.subrange(i, i + p.len()) == p
}

/// Index of the first occurrence of `p` in `t` at or after `i`.
pub open spec fn find_from(t: Seq<char>, p: Seq<char>, i: int) -> Option<int>
    decreases t.len() - i + 1,
{
    if i < 0 || i + p.len() > t.len() {
        None
    } else if matches_at(t, p, i) {
        Some(i)
    } else {
        find_from(t, p, i + 1)
    }
}

/// `p` occurs somewhere in `t`.
pub open spec fn has_sub(t: Seq<char>, p: Seq<char>) -> bool {
    find_from(t, p, 0) is Some
}

/// A found index is a real occurrence at or after the start index.
pub proof fn lemma_find_from_some(t: Seq<char>, p: Seq<char>, i: int)
    requires
        find_from(t, p, i) is Some,
    ensures
        i <= find_from(t, p, i)->0,
        matches_at(t, p, find_from(t, p, i)->0),
    decreases t.len() - i + 1,
{
    if !(i < 0 || i + p.len() > t.len()) && !matches_at(t, p, i) {
        lemma_find_from_some(t, p, i + 1);
    }
}

/// An occurrence at `j` means the search from any earlier index succeeds.
pub proof fn lemma_occurrence_is_found(t: Seq<char>, p: Seq<char>, i: int, j: int)
    requires
        0 <= i <= j,
        matches_at(t, p, j),
    ensures
        find_from(t, p, i) is Some,
    decreases j - i,
{
    if i < j && !matches_at(t, p, i) {
        lemma_occurrence_is_found(t, p, i + 1, j);
    }
}

/// Does `p` occur in `t` at exactly index `i`?
pub fn match_at(t: &str, p: &str, i: usize) -> (r: bool)
    ensures
        r == matches_at(t@, p@, i as int),
{
    let tn = t.unicode_len();
    let pn = p.unicode_len();
    if i > tn || pn > tn - i {
        return false;
    }
    let mut j: usize = 0;
    while j < pn
        invariant
            i + pn <= tn,
            tn == t@.len(),
            pn == p@.len(),
            j <= pn,
            forall|k: int| 0 <= k < j ==> t@[i + k] == p@[k],
        decreases pn - j,
    {
        if t.get_char(i + j) != p.get_char(j) {
            proof {
                assert(t@.subrange(i as int, i + pn)[j as int] == t@[i + j]);
            }
            return false;
        }
        j += 1;
    }
    proof {
        assert(t@.subrange(i as int, i + pn) =~= p@);
    }
    true
}

/// First occurrence of `p` in `t` at or after `from`.
pub fn find_substr_from(t: &str, p: &str, from: usize) -> (r: Option<usize>)
    ensures
        match r {
            Some(i) => find_from(t@, p@, from as int) == Some(i as int) && from <= i,
            None => find_from(t@, p@, from as int) is None,
        },
{
    let tn = t.unicode_len();
    let pn = p.unicode_len();
    let mut i = from;
    loop
        invariant
            from <= i,
            tn == t@.len(),
            pn == p@.len(),
            find_from(t@, p@, from as int) == find_from(t@, p@, i as int),
        decreases tn + 1 - i,
    {
        if i > tn || pn > tn - i {
            return None;
        }
        if match_at(t, p, i) {
            return Some(i);
        }
        proof {
            if p@.len() == 0 {
                assert(t@.subrange(i as int, i as int) =~= p@);
            }
        }
        i += 1;
    }
}

/// First occurrence of `p` in `t`.
pub fn find_substr(t: &str, p: &str) -> (r: Option<usize>)
    ensures
        match r {
            Some(i) => find_from(t@, p@, 0) == Some(i as int),
            None => !has_sub(t@, p@),
        },
{
    find_substr_from(t, p, 0)
}

/// Does `p` occur anywhere in `t`?
pub fn contains_substr(t: &str, p: &str) -> (r: bool)
    ensures
        r == has_sub(t@, p@),
{
    match find_substr(t, p) {
        Some(_) => true,
        None => false,
    }
}

/// Character-for-character equality of two string slices.
pub fn str_eq(a: &str, b: &str) -> (r: bool)
    ensures
        r == (a@ == b@),
{
    let sa = String::from_str(a);
    let sb = String::from_str(b);
    sa == sb
}

// ------------------------------------------------------------------
// Character classes
// ------------------------------------------------------------------

pub open spec fn is_space(c: char) -> bool {
    c == ' ' || c == '\t' || c == '\n' || c == '\r'
}

pub fn space_char(c: char) -> (r: bool)
    ensures
        r == is_space(c),
{
    c == ' ' || c == '\t' || c == '\n' || c == '\r'
}

pub open spec fn is_digit(c: char) -> bool {
    48 <= c as u32 && c as u32 <= 57
}

pub open spec fn digit_val(c: char) -> int {
    c as u32 - 48
}

pub fn digit_char(c: char) -> (r: bool)
    ensures
        r == is_digit(c),
{
    let u = c as u32;
    48 <= u && u <= 57
}

/// Letters, digits and underscore: the characters that continue a bare
/// identifier token.
pub open spec fn is_word_char(c: char) -> bool {
    (65 <= c as u32 && c as u32 <= 90) || (97 <= c as u32 && c as u32 <= 122) || is_digit(c)
        || c == '_'
}

pub fn word_char(c: char) -> (r: bool)
    ensures
        r == is_word_char(c),
{
    let u = c as u32;
    (65 <= u && u <= 90) || (97 <= u && u <= 122) || (48 <= u && u <= 57) || c == '_'
}

// ------------------------------------------------------------------
// ASCII lowercasing
// ------------------------------------------------------------------

pub open spec fn lower_char(c: char) -> char {
    match c {
        'A' => 'a',
        'B' => 'b',
        'C' => 'c',
        'D' => 'd',
        'E' => 'e',
        'F' => 'f',
        'G' => 'g',
        'H' => 'h',
        'I' => 'i',
        'J' => 'j',
        'K' => 'k',
        'L' => 'l',
        'M' => 'm',
        'N' => 'n',
        'O' => 'o',
        'P' => 'p',
        'Q' => 'q',
        'R' => 'r',
        'S' => 's',
        'T' => 't',
        'U' => 'u',
        'V' => 'v',
        'W' => 'w',
        'X' => 'x',
        'Y' => 'y',
        'Z' => 'z',
        _ => c,
    }
}

/// `s` with its ASCII uppercase letters lowered, other characters untouched.
pub open spec fn lower_seq(s: Seq<char>) -> Seq<char> {
    s.map_values(|c: char| lower_char(c))
}

fn lower_char_ex(c: char) -> (r: char)
    ensures
        r == lower_char(c),
{
    match c {
        'A' => 'a',
        'B' => 'b',
        'C' => 'c',
        'D' => 'd',
        'E' => 'e',
        'F' => 'f',
        'G' => 'g',
        'H' => 'h',
        'I' => 'i',
        'J' => 'j',
        'K' => 'k',
        'L' => 'l',
        'M' => 'm',
        'N' => 'n',
        'O' => 'o',
        'P' => 'p',
        'Q' => 'q',
        'R' => 'r',
        'S' => 's',
        'T' => 't',
        'U' => 'u',
        'V' => 'v',
        'W' => 'w',
        'X' => 'x',
        'Y' => 'y',
        'Z' => 'z',
        _ => c,
    }
}

/// Case-insensitive (ASCII) comparison of `s` against an already-lowercase
/// pattern.
pub fn eq_lowered(s: &str, lit: &str) -> (r: bool)
    ensures
        r == (lower_seq(s@) == lit@),
{
    let n = s.unicode_len();
    let m = lit.unicode_len();
    if n != m {
        return false;
    }
    let mut i: usize = 0;
    while i < n
        invariant
            n == s@.len(),
            m == lit@.len(),
            n == m,
            i <= n,
            forall|k: int| 0 <= k < i ==> lower_char(s@[k]) == lit@[k],
        decreases n - i,
    {
        if lower_char_ex(s.get_char(i)) != lit.get_char(i) {
            proof {
                assert(lower_seq(s@)[i as int] == lower_char(s@[i as int]));
            }
            return false;
        }
        i += 1;
    }
    proof {
        assert(lower_seq(s@) =~= lit@);
    }
    true
}

// ------------------------------------------------------------------
// Trimming
// ------------------------------------------------------------------

pub open spec fn trim_start_idx(t: Seq<char>, i: int) -> int
    decreases t.len() - i,
{
    if 0 <= i < t.len() && is_space(t[i]) {
        trim_start_idx(t, i + 1)
    } else {
        i
    }
}

pub open spec fn trim_end_idx(t: Seq<char>, i: int) -> int
    decreases i,
{
    if 0 < i <= t.len() && is_space(t[i - 1]) {
        trim_end_idx(t, i - 1)
    } else {
        i
    }
}

/// `t` with leading and trailing whitespace removed.
pub open spec fn spec_trim(t: Seq<char>) -> Seq<char> {
    let a = trim_start_idx(t, 0);
    let b = trim_end_idx(t, t.len() as int);
    if a <= b {
        t.subrange(a, b)
    } else {
        Seq::empty()
    }
}

pub fn trim_str(t: &str) -> (r: String)
    ensures
        r@ == spec_trim(t@),
{
    let n = t.unicode_len();
    let mut a: usize = 0;
    while a < n && space_char(t.get_char(a))
        invariant
            a <= n,
            n == t@.len(),
            trim_start_idx(t@, 0) == trim_start_idx(t@, a as int),
        decreases n - a,
    {
        a += 1;
    }
    let mut b: usize = n;
    while b > 0 && space_char(t.get_char(b - 1))
        invariant
            b <= n,
            n == t@.len(),
            trim_end_idx(t@, n as int) == trim_end_idx(t@, b as int),
        decreases b,
    {
        b -= 1;
    }
    if a <= b {
        String::from_str(t.substring_char(a, b))
    } else {
        String::new()
    }
}

// ------------------------------------------------------------------
// Path segments
// ------------------------------------------------------------------

pub open spec fn skip_char_idx(t: Seq<char>, c: char, i: int) -> int
    decreases t.len() - i,
{
    if 0 <= i < t.len() && t[i] == c {
        skip_char_idx(t, c, i + 1)
    } else {
        i
    }
}

pub open spec fn rskip_char_idx(t: Seq<char>, c: char, i: int) -> int
    decreases i,
{
    if 0 < i <= t.len() && t[i - 1] == c {
        rskip_char_idx(t, c, i - 1)
    } else {
        i
    }
}

/// Start of the last `/`-separated segment ending at `e`, not scanning
/// below `a`.
pub open spec fn seg_back_start(t: Seq<char>, a: int, e: int) -> int
    decreases e,
{
    if a < e <= t.len() && 0 <= a && t[e - 1] != '/' {
        seg_back_start(t, a, e - 1)
    } else {
        e
    }
}

/// `t` with every leading and trailing occurrence of `c` removed.
pub open spec fn spec_trim_char(t: Seq<char>, c: char) -> Seq<char> {
    let a = skip_char_idx(t, c, 0);
    let b = rskip_char_idx(t, c, t.len() as int);
    if a < b {
        t.subrange(a, b)
    } else {
        Seq::empty()
    }
}

pub fn trim_char_str(t: &str, c: char) -> (r: String)
    ensures
        r@ == spec_trim_char(t@, c),
{
    let n = t.unicode_len();
    let mut a: usize = 0;
    while a < n && t.get_char(a) == c
        invariant
            a <= n,
            n == t@.len(),
            skip_char_idx(t@, c, 0) == skip_char_idx(t@, c, a as int),
        decreases n - a,
    {
        a += 1;
    }
    let mut b: usize = n;
    while b > 0 && t.get_char(b - 1) == c
        invariant
            b <= n,
            n == t@.len(),
            rskip_char_idx(t@, c, n as int) == rskip_char_idx(t@, c, b as int),
        decreases b,
    {
        b -= 1;
    }
    if a < b {
        String::from_str(t.substring_char(a, b))
    } else {
        String::new()
    }
}

/// The last `/`-separated segment of the path, with leading and trailing
/// slashes first trimmed away; empty where nothing remains.
pub open spec fn spec_last_segment(p: Seq<char>) -> Seq<char> {
    let a = skip_char_idx(p, '/', 0);
    let b = rskip_char_idx(p, '/', p.len() as int);
    if a < b {
        p.subrange(seg_back_start(p, a, b), b)
    } else {
        Seq::empty()
    }
}

pub fn last_path_segment(p: &str) -> (r: String)
    ensures
        r@ == spec_last_segment(p@),
{
    let n = p.unicode_len();
    let mut a: usize = 0;
    while a < n && p.get_char(a) == '/'
        invariant
            a <= n,
            n == p@.len(),
            skip_char_idx(p@, '/', 0) == skip_char_idx(p@, '/', a as int),
        decreases n - a,
    {
        a += 1;
    }
    let mut b: usize = n;
    while b > 0 && p.get_char(b - 1) == '/'
        invariant
            b <= n,
            n == p@.len(),
            rskip_char_idx(p@, '/', n as int) == rskip_char_idx(p@, '/', b as int),
        decreases b,
    {
        b -= 1;
    }
    if a >= b {
        return String::new();
    }
    let mut s: usize = b;
    while s > a && p.get_char(s - 1) != '/'
        invariant
            a <= s <= b <= n,
            n == p@.len(),
            seg_back_start(p@, a as int, b as int) == seg_back_start(p@, a as int, s as int),
        decreases s,
    {
        s -= 1;
    }
    String::from_str(p.substring_char(s, b))
}

// ------------------------------------------------------------------
// Replacement
// ------------------------------------------------------------------

/// `t` from index `i` on, with every (leftmost, non-overlapping) occurrence
/// of `from` replaced by `to`.
pub open spec fn replace_from(t: Seq<char>, from: Seq<char>, to: Seq<char>, i: int) -> Seq<char>
    decreases t.len() - i,
{
    if !(0 <= i < t.len()) {
        Seq::empty()
    } else if from.len() > 0 && matches_at(t, from, i) {
        to + replace_from(t, from, to, i + from.len())
    } else {
        seq![t[i]] + replace_from(t, from, to, i + 1)
    }
}

pub open spec fn spec_replace_all(t: Seq<char>, from: Seq<char>, to: Seq<char>) -> Seq<char> {
    replace_from(t, from, to, 0)
}

pub fn replace_all(t: &str, from: &str, to: &str) -> (r: String)
    requires
        from@.len() > 0,
    ensures
        r@ == spec_replace_all(t@, from@, to@),
{
    let n = t.unicode_len();
    let flen = from.unicode_len();
    let mut out = String::new();
    let mut i: usize = 0;
    while i < n
        invariant
            i <= n,
            n == t@.len(),
            flen == from@.len(),
            flen > 0,
            out@ + replace_from(t@, from@, to@, i as int) == spec_replace_all(t@, from@, to@),
        decreases n - i,
    {
        if match_at(t, from, i) {
            out.append(to);
            i += flen;
        } else {
            let c = t.substring_char(i, i + 1);
            proof {
                assert(c@ =~= seq![t@[i as int]]);
            }
            out.append(c);
            i += 1;
        }
    }
    out
}

// ------------------------------------------------------------------
// Decimal digits
// ------------------------------------------------------------------

pub open spec fn all_digits(s: Seq<char>) -> bool {
    forall|i: int| 0 <= i < s.len() ==> is_digit(#[trigger] s[i])
}

/// The value of a big-endian digit string.
pub open spec fn digits_val(s: Seq<char>) -> int
    decreases s.len(),
{
    if s.len() == 0 {
        0
    } else {
        digits_val(s.drop_last()) * 10 + digit_val(s.last())
    }
}

pub proof fn lemma_digits_val_nonneg(s: Seq<char>)
    requires
        all_digits(s),
    ensures
        digits_val(s) >= 0,
    decreases s.len(),
{
    if s.len() > 0 {
        assert(all_digits(s.drop_last()));
        lemma_digits_val_nonneg(s.drop_last());
    }
}

pub(crate) fn digit_str(d: u8) -> (r: &'static str)
    requires
        d < 10,
    ensures
        r@.len() == 1,
        is_digit(r@[0]),
        digit_val(r@[0]) == d as int,
{
    proof {
        reveal_strlit("0");
        reveal_strlit("1");
        reveal_strlit("2");
        reveal_strlit("3");
        reveal_strlit("4");
        reveal_strlit("5");
        reveal_strlit("6");
        reveal_strlit("7");
        reveal_strlit("8");
        reveal_strlit("9");
    }
    match d {
        0 => "0",
        1 => "1",
        2 => "2",
        3 => "3",
        4 => "4",
        5 => "5",
        6 => "6",
        7 => "7",
        8 => "8",
        _ => "9",
    }
}

/// The signed integer a text denotes: an optional sign, then decimal
/// digits; `None` where the shape is wrong or the value leaves `i64`'s
/// range.
pub open spec fn spec_parse_i64(s: Seq<char>) -> Option<i64> {
    let neg = s.len() > 0 && s[0] == '-';
    let signed = s.len() > 0 && (s[0] == '-' || s[0] == '+');
    let ds = if signed {
        s.skip(1)
    } else {
        s
    };
    if ds.len() == 0 || !all_digits(ds) {
        None
    } else {
        let v = if neg {
            -digits_val(ds)
        } else {
            digits_val(ds)
        };
        if i64::MIN <= v <= i64::MAX {
            Some(v as i64)
        } else {
            None
        }
    }
}

#[verifier::loop_isolation(false)]
pub fn parse_i64_str(s: &str) -> (r: Option<i64>)
    ensures
        r == spec_parse_i64(s@),
{
    let n = s.unicode_len();
    if n == 0 {
        return None;
    }
    let c0 = s.get_char(0);
    let neg = c0 == '-';
    let start: usize = if c0 == '-' || c0 == '+' {
        1
    } else {
        0
    };
    if start >= n {
        return None;
    }
    let ghost ds: Seq<char> = if start == 1 {
        s@.skip(1)
    } else {
        s@
    };
    let mut i = start;
    while i < n
        invariant
            start <= i <= n,
            start == 0 || start == 1,
            n == s@.len(),
            ds == (if start == 1 {
                s@.skip(1)
            } else {
                s@
            }),
            forall|k: int| 0 <= k < i - start ==> is_digit(#[trigger] ds[k]),
        decreases n - i,
    {
        proof {
            assert(ds[i - start] == s@[i as int]);
        }
        if !digit_char(s.get_char(i)) {
            proof {
                assert(!is_digit(ds[i - start]));
            }
            return None;
        }
        i += 1;
    }
    proof {
        assert(ds.len() == n - start);
        assert(all_digits(ds));
    }
    let mut acc: u64 = 0;
    let mut big = false;
    let mut j = start;
    while j < n
        invariant
            start <= j <= n,
            start == 0 || start == 1,
            n == s@.len(),
            ds == (if start == 1 {
                s@.skip(1)
            } else {
                s@
            }),
            all_digits(ds),
            ds.len() == n - start,
            !big ==> acc == digits_val(ds.take(j - start)),
            big ==> digits_val(ds.take(j - start)) > u64::MAX,
        decreases n - j,
    {
        let ghost pre = ds.take(j - start);
        proof {
            assert(ds.take(j - start + 1).drop_last() =~= pre);
            assert(ds.take(j - start + 1).last() == ds[j - start]);
            assert(ds[j - start] == s@[j as int]);
            assert forall|k: int| 0 <= k < pre.len() implies is_digit(#[trigger] pre[k]) by {
                assert(pre[k] == ds[k]);
            }
            lemma_digits_val_nonneg(pre);
        }
        let d = (s.get_char(j) as u32 - 48) as u64;
        if !big {
            if acc > (u64::MAX - d) / 10 {
                proof {
                    let m = u64::MAX - d;
                    assert(m == 10 * (m / 10) + m % 10);
                    assert(10 * (acc as int) >= 10 * ((m / 10) + 1));
                }
                big = true;
            } else {
                proof {
                    let m = u64::MAX - d;
                    assert(m == 10 * (m / 10) + m % 10);
                    assert(10 * (acc as int) <= 10 * (m / 10));
                }
                acc = acc * 10 + d;
            }
        }
        j += 1;
    }
    proof {
        assert(ds.take(n - start) =~= ds);
    }
    if big {
        return None;
    }
    if neg {
        if acc > 9223372036854775808u64 {
            None
        } else if acc == 9223372036854775808u64 {
            Some(i64::MIN)
        } else {
            Some(-(acc as i64))
        }
    } else {
        if acc > i64::MAX as u64 {
            None
        } else {
            Some(acc as i64)
        }
    }
}

/// Decimal rendering of an unsigned integer.
pub fn u64_to_string(x: u64) -> (r: String)
    ensures
        all_digits(r@),
        r@.len() >= 1,
        digits_val(r@) == x,
    decreases x,
{
    if x < 10 {
        let r0 = String::from_str(digit_str(x as u8));
        proof {
            assert(digits_val(r0@.drop_last()) == 0);
        }
        r0
    } else {
        let mut s = u64_to_string(x / 10);
        let ghost pre = s@;
        let d = digit_str((x % 10) as u8);
        s.append(d);
        proof {
            assert(s@.drop_last() =~= pre);
            assert(s@.last() == d@[0]);
            assert(x == ((x / 10) * 10 + x % 10)) by (nonlinear_arith);
            assert forall|i: int| 0 <= i < s@.len() implies is_digit(#[trigger] s@[i]) by {
                if i < pre.len() {
                    assert(s@[i] == pre[i]);
                }
            }
        }
        s
    }
}

/// Decimal rendering of a signed integer.
pub fn i64_to_string(x: i64) -> (r: String)
    ensures
        x >= 0 ==> r@.len() >= 1 && all_digits(r@) && digits_val(r@) == x,
        x < 0 ==> r@.len() >= 2 && r@[0] == '-' && all_digits(r@.skip(1)) && digits_val(r@.skip(1))
            == -x,
{
    if x >= 0 {
        u64_to_string(x as u64)
    } else {
        let mag_i128: i128 = -(x as i128);
        let mag: u64 = mag_i128 as u64;
        let digits = u64_to_string(mag);
        let mut s = String::from_str("-");
        proof {
            reveal_strlit("-");
        }
        s.append(digits.as_str());
        proof {
            assert(s@.skip(1) =~= digits@);
        }
        s
    }
}

} // verus!
