//! A verified parser for the small JSON subset the provider's wire format
//! uses: whitespace, unsigned integers, strings with simple escapes,
//! fixed literals, and `null`.
//!
//! Each executable parser mirrors a specification function over the
//! character sequence and is proved to return exactly its value.

use vstd::prelude::*;

use crate::text::push_char;
use vstd::string::StrSliceExecFns;

verus! {

/// The JSON whitespace characters.
pub open spec fn is_json_ws(c: char) -> bool {
    c == ' ' || c == '\t' || c == '\n' || c == '\r'
}

/// The index of the first non-whitespace character at or after `i`.
pub open spec fn spec_skip_ws(s: Seq<char>, i: int) -> int
    decreases s.len() - i,
{
    if i < s.len() && is_json_ws(s[i]) {
        spec_skip_ws(s, i + 1)
    } else {
        i
    }
}

/// Skipping whitespace never moves backwards and never passes the end.
pub proof fn lemma_skip_ws_bounds(s: Seq<char>, i: int)
    ensures
        i <= spec_skip_ws(s, i),
        i <= s.len() ==> spec_skip_ws(s, i) <= s.len(),
    decreases s.len() - i,
{
    if i < s.len() && is_json_ws(s[i]) {
        lemma_skip_ws_bounds(s, i + 1);
    }
}

/// A decimal digit.
pub open spec fn is_digit(c: char) -> bool {
    '0' <= c && c <= '9'
}

/// The value of a decimal digit.
pub open spec fn digit_val(c: char) -> u64 {
    ((c as int) - ('0' as int)) as u64
}

/// Accumulates decimal digits into `acc`; fails on `u64` overflow.
pub open spec fn spec_parse_u64_loop(s: Seq<char>, i: int, acc: u64) -> Option<(u64, int)>
    decreases s.len() - i,
{
    if i < s.len() && is_digit(s[i]) {
        let d = digit_val(s[i]);
        if acc > (u64::MAX - d) / 10 {
            None
        } else {
            spec_parse_u64_loop(s, i + 1, (acc * 10 + d) as u64)
        }
    } else {
        Some((acc, i))
    }
}

/// An unsigned decimal integer starting at `i`: at least one digit, and a
/// value that fits in `u64`.
pub open spec fn spec_parse_u64(s: Seq<char>, i: int) -> Option<(u64, int)> {
    if i < s.len() && is_digit(s[i]) {
        spec_parse_u64_loop(s, i, 0)
    } else {
        None
    }
}

/// A successful integer parse moves forward and stays within the text.
pub proof fn lemma_parse_u64_loop_bounds(s: Seq<char>, i: int, acc: u64)
    ensures
        spec_parse_u64_loop(s, i, acc) matches Some((v, j)) ==> i <= j,
        i <= s.len() ==> (spec_parse_u64_loop(s, i, acc) matches Some((v, j)) ==> j <= s.len()),
    decreases s.len() - i,
{
    if i < s.len() && is_digit(s[i]) {
        let d = digit_val(s[i]);
        if !(acc > (u64::MAX - d) / 10) {
            lemma_parse_u64_loop_bounds(s, i + 1, (acc * 10 + d) as u64);
        }
    }
}

/// The character an escape introducer stands for, if the escape is
/// recognized.
pub open spec fn spec_unescape(c: char) -> Option<char> {
    if c == '"' {
        Some('"')
    } else if c == '\\' {
        Some('\\')
    } else if c == '/' {
        Some('/')
    } else if c == 'n' {
        Some('\n')
    } else if c == 't' {
        Some('\t')
    } else if c == 'r' {
        Some('\r')
    } else {
        None
    }
}

/// The body of a JSON string after the opening quote: characters up to
/// the closing quote, with recognized escapes replaced.
pub open spec fn spec_parse_string_body(s: Seq<char>, i: int, acc: Seq<char>) -> Option<
    (Seq<char>, int),
>
    decreases s.len() - i,
{
    if i >= s.len() {
        None
    } else if s[i] == '"' {
        Some((acc, i + 1))
    } else if s[i] == '\\' {
        if i + 1 >= s.len() {
            None
        } else {
            match spec_unescape(s[i + 1]) {
                Some(u) => spec_parse_string_body(s, i + 2, acc.push(u)),
                None => None,
            }
        }
    } else {
        spec_parse_string_body(s, i + 1, acc.push(s[i]))
    }
}

/// A JSON string starting at `i` with its opening quote.
pub open spec fn spec_parse_string(s: Seq<char>, i: int) -> Option<(Seq<char>, int)> {
    if i < s.len() && s[i] == '"' {
        spec_parse_string_body(s, i + 1, Seq::<char>::empty())
    } else {
        None
    }
}

/// A successful string-body parse moves forward and stays within the text.
pub proof fn lemma_parse_string_body_bounds(s: Seq<char>, i: int, acc: Seq<char>)
    ensures
        spec_parse_string_body(s, i, acc) matches Some((v, j)) ==> i < j <= s.len(),
    decreases s.len() - i,
{
    if i >= s.len() {
    } else if s[i] == '"' {
    } else if s[i] == '\\' {
        if i + 1 < s.len() {
            match spec_unescape(s[i + 1]) {
                Some(u) => lemma_parse_string_body_bounds(s, i + 2, acc.push(u)),
                None => {},
            }
        }
    } else {
        lemma_parse_string_body_bounds(s, i + 1, acc.push(s[i]));
    }
}

/// A successful string parse moves forward and stays within the text.
pub proof fn lemma_parse_string_bounds(s: Seq<char>, i: int)
    ensures
        spec_parse_string(s, i) matches Some((v, j)) ==> i < j <= s.len(),
{
    if i < s.len() && s[i] == '"' {
        lemma_parse_string_body_bounds(s, i + 1, Seq::<char>::empty());
    }
}

/// True when `lit` occurs in `s` starting exactly at `i`.
pub open spec fn matches_at(s: Seq<char>, i: int, lit: Seq<char>) -> bool {
    0 <= i && i + lit.len() <= s.len() && s.subrange(i, i + lit.len()) == lit
}

/// After whitespace, a colon, and more whitespace: the index that follows.
pub open spec fn spec_colon(s: Seq<char>, i: int) -> Option<int> {
    let j = spec_skip_ws(s, i);
    if j < s.len() && s[j] == ':' {
        Some(spec_skip_ws(s, j + 1))
    } else {
        None
    }
}

/// A successful colon step moves forward and stays within the text.
pub proof fn lemma_colon_bounds(s: Seq<char>, i: int)
    ensures
        spec_colon(s, i) matches Some(j) ==> i <= j <= s.len(),
{
    lemma_skip_ws_bounds(s, i);
    let j = spec_skip_ws(s, i);
    if j < s.len() && s[j] == ':' {
        lemma_skip_ws_bounds(s, j + 1);
    }
}

/// After whitespace, a comma, and more whitespace: the index that follows.
pub open spec fn spec_comma(s: Seq<char>, i: int) -> Option<int> {
    let j = spec_skip_ws(s, i);
    if j < s.len() && s[j] == ',' {
        Some(spec_skip_ws(s, j + 1))
    } else {
        None
    }
}

/// A successful comma step moves forward and stays within the text.
pub proof fn lemma_comma_bounds(s: Seq<char>, i: int)
    ensures
        spec_comma(s, i) matches Some(j) ==> i <= j <= s.len(),
{
    lemma_skip_ws_bounds(s, i);
    let j = spec_skip_ws(s, i);
    if j < s.len() && s[j] == ',' {
        lemma_skip_ws_bounds(s, j + 1);
    }
}

/// A successful integer parse consumes at least one digit and stays
/// within the text.
pub proof fn lemma_parse_u64_bounds(s: Seq<char>, i: int)
    ensures
        spec_parse_u64(s, i) matches Some((v, j)) ==> i < j <= s.len(),
{
    if i < s.len() && is_digit(s[i]) {
        let d = digit_val(s[i]);
        if !(0u64 > (u64::MAX - d) / 10) {
            lemma_parse_u64_loop_bounds(s, i + 1, (0u64 * 10 + d) as u64);
        }
    }
}

/// Skips JSON whitespace starting at `i`.
pub fn skip_ws(s: &str, i: usize) -> (r: usize)
    requires
        i <= s@.len(),
    ensures
        r as int == spec_skip_ws(s@, i as int),
        i <= r <= s@.len(),
    decreases s@.len() - i,
{
    let n = s.unicode_len();
    if i < n {
        let c = s.get_char(i);
        if c == ' ' || c == '\t' || c == '\n' || c == '\r' {
            return skip_ws(s, i + 1);
        }
    }
    i
}

/// Parses decimal digits into `acc`, failing on `u64` overflow.
fn parse_u64_loop(s: &str, i: usize, acc: u64) -> (r: Option<(u64, usize)>)
    requires
        i <= s@.len(),
    ensures
        (match (r, spec_parse_u64_loop(s@, i as int, acc)) {
            (Some((v, j)), Some((sv, sj))) => v == sv && j as int == sj && i <= j <= s@.len(),
            (None, None) => true,
            _ => false,
        }),
    decreases s@.len() - i,
{
    let n = s.unicode_len();
    if i < n {
        let c = s.get_char(i);
        if '0' <= c && c <= '9' {
            let d = (c as u64) - ('0' as u64);
            if acc > (u64::MAX - d) / 10 {
                return None;
            }
            proof {
                assert(acc * 10 + d <= u64::MAX) by (nonlinear_arith)
                    requires
                        acc <= (u64::MAX - d) / 10,
                        d <= 9,
                ;
            }
            return parse_u64_loop(s, i + 1, acc * 10 + d);
        }
    }
    Some((acc, i))
}

/// Parses an unsigned decimal integer starting at `i`.
pub fn parse_u64_at(s: &str, i: usize) -> (r: Option<(u64, usize)>)
    requires
        i <= s@.len(),
    ensures
        (match (r, spec_parse_u64(s@, i as int)) {
            (Some((v, j)), Some((sv, sj))) => v == sv && j as int == sj && i <= j <= s@.len(),
            (None, None) => true,
            _ => false,
        }),
{
    let n = s.unicode_len();
    if i < n {
        let c = s.get_char(i);
        if '0' <= c && c <= '9' {
            return parse_u64_loop(s, i, 0);
        }
    }
    None
}

/// The character a recognized escape stands for.
fn unescape_char(c: char) -> (r: Option<char>)
    ensures
        r == spec_unescape(c),
{
    if c == '"' {
        Some('"')
    } else if c == '\\' {
        Some('\\')
    } else if c == '/' {
        Some('/')
    } else if c == 'n' {
        Some('\n')
    } else if c == 't' {
        Some('\t')
    } else if c == 'r' {
        Some('\r')
    } else {
        None
    }
}

/// Parses a string body after the opening quote, appending to `acc`.
fn parse_string_body(s: &str, i: usize, acc: String) -> (r: Option<(String, usize)>)
    requires
        i <= s@.len(),
    ensures
        (match (r, spec_parse_string_body(s@, i as int, acc@)) {
            (Some((v, j)), Some((sv, sj))) => v@ == sv && j as int == sj && i < j <= s@.len(),
            (None, None) => true,
            _ => false,
        }),
    decreases s@.len() - i,
{
    let n = s.unicode_len();
    if i >= n {
        return None;
    }
    let c = s.get_char(i);
    if c == '"' {
        return Some((acc, i + 1));
    }
    if c == '\\' {
        if i + 1 >= n {
            return None;
        }
        let e = s.get_char(i + 1);
        match unescape_char(e) {
            Some(u) => {
                let mut acc2 = acc;
                push_char(&mut acc2, u);
                parse_string_body(s, i + 2, acc2)
            },
            None => None,
        }
    } else {
        let mut acc2 = acc;
        push_char(&mut acc2, c);
        parse_string_body(s, i + 1, acc2)
    }
}

/// Parses a JSON string starting at `i` with its opening quote.
pub fn parse_string_at(s: &str, i: usize) -> (r: Option<(String, usize)>)
    requires
        i <= s@.len(),
    ensures
        (match (r, spec_parse_string(s@, i as int)) {
            (Some((v, j)), Some((sv, sj))) => v@ == sv && j as int == sj && i < j <= s@.len(),
            (None, None) => true,
            _ => false,
        }),
{
    let n = s.unicode_len();
    if i < n {
        let c = s.get_char(i);
        if c == '"' {
            return parse_string_body(s, i + 1, String::new());
        }
    }
    None
}

/// True when `lit` occurs in `s` starting exactly at `i`.
pub fn match_lit(s: &str, i: usize, lit: &str) -> (r: bool)
    requires
        i <= s@.len(),
    ensures
        r == matches_at(s@, i as int, lit@),
{
    let n = s.unicode_len();
    let m = lit.unicode_len();
    if m > n - i {
        return false;
    }
    let mut k: usize = 0;
    while k < m
        invariant
            k <= m,
            m == lit@.len(),
            n == s@.len(),
            i + m <= n,
            forall|t: int| 0 <= t < k ==> s@[i + t] == lit@[t],
        decreases m - k,
    {
        if s.get_char(i + k) != lit.get_char(k) {
            proof {
                if matches_at(s@, i as int, lit@) {
                    assert(s@.subrange(i as int, i + lit@.len())[k as int] == lit@[k as int]);
                }
            }
            return false;
        }
        k = k + 1;
    }
    proof {
        assert(s@.subrange(i as int, i + lit@.len()) =~= lit@);
    }
    true
}

/// True when the two strings hold the same characters.
pub fn str_eq(s: &str, t: &str) -> (r: bool)
    ensures
        r == (s@ == t@),
{
    let n = s.unicode_len();
    let m = t.unicode_len();
    if n != m {
        proof {
            if s@ == t@ {
                assert(s@.len() == t@.len());
            }
        }
        return false;
    }
    let r = match_lit(s, 0, t);
    proof {
        assert(s@.subrange(0, n as int) =~= s@);
        if s@ == t@ {
            assert(matches_at(s@, 0, t@));
        }
    }
    r
}

/// Skips whitespace, a colon, and more whitespace.
pub fn expect_colon(s: &str, i: usize) -> (r: Option<usize>)
    requires
        i <= s@.len(),
    ensures
        (match (r, spec_colon(s@, i as int)) {
            (Some(j), Some(sj)) => j as int == sj && i <= j <= s@.len(),
            (None, None) => true,
            _ => false,
        }),
{
    let j = skip_ws(s, i);
    let n = s.unicode_len();
    if j < n {
        let c = s.get_char(j);
        if c == ':' {
            return Some(skip_ws(s, j + 1));
        }
    }
    None
}

/// Skips whitespace, a comma, and more whitespace.
pub fn expect_comma(s: &str, i: usize) -> (r: Option<usize>)
    requires
        i <= s@.len(),
    ensures
        (match (r, spec_comma(s@, i as int)) {
            (Some(j), Some(sj)) => j as int == sj && i <= j <= s@.len(),
            (None, None) => true,
            _ => false,
        }),
{
    let j = skip_ws(s, i);
    let n = s.unicode_len();
    if j < n {
        let c = s.get_char(j);
        if c == ',' {
            return Some(skip_ws(s, j + 1));
        }
    }
    None
}

} // verus!
