//! Character-level text utilities: whitespace splitting in the manner of
//! `str::split_whitespace`, line splitting in the manner of `str::lines`,
//! splitting on a `//` separator, and decimal / floating-point tokens.
//!
//! All executable functions here are verified against recursive spec
//! functions over `Seq<char>`.

use vstd::prelude::*;

verus! {

/// The Unicode `White_Space` characters, the set that `char::is_whitespace`
/// documents.
pub open spec fn is_space_char(c: char) -> bool {
    let u = c as u32;
    u == 0x20 || (0x09 <= u && u <= 0x0d) || u == 0x85 || u == 0xa0 || u == 0x1680 || (0x2000
        <= u && u <= 0x200a) || u == 0x2028 || u == 0x2029 || u == 0x202f || u == 0x205f || u
        == 0x3000
}

/// An ASCII decimal digit.
pub open spec fn is_digit_char(c: char) -> bool {
    0x30 <= c as u32 && c as u32 <= 0x39
}

/// The numeric value of an ASCII decimal digit.
pub open spec fn digit_val(c: char) -> int {
    c as u32 - 0x30
}

pub fn space_char(c: char) -> (r: bool)
    ensures
        r == is_space_char(c),
{
    let u = c as u32;
    u == 0x20 || (0x09 <= u && u <= 0x0d) || u == 0x85 || u == 0xa0 || u == 0x1680 || (0x2000
        <= u && u <= 0x200a) || u == 0x2028 || u == 0x2029 || u == 0x202f || u == 0x205f || u
        == 0x3000
}

pub fn digit_char(c: char) -> (r: bool)
    ensures
        r == is_digit_char(c),
{
    let u = c as u32;
    0x30 <= u && u <= 0x39
}

/// First position at or after `i` holding a whitespace character, or the
/// length of `s` if there is none.
pub open spec fn tok_end(s: Seq<char>, i: int) -> int
    decreases s.len() - i,
{
    if i < 0 || i >= s.len() {
        s.len() as int
    } else if is_space_char(s[i]) {
        i
    } else {
        tok_end(s, i + 1)
    }
}

/// First position at or after `i` holding a non-whitespace character, or the
/// length of `s` if there is none.
pub open spec fn ws_end(s: Seq<char>, i: int) -> int
    decreases s.len() - i,
{
    if i < 0 || i >= s.len() {
        s.len() as int
    } else if !is_space_char(s[i]) {
        i
    } else {
        ws_end(s, i + 1)
    }
}

pub proof fn lemma_tok_end_bounds(s: Seq<char>, i: int)
    requires
        0 <= i <= s.len(),
    ensures
        i <= tok_end(s, i) <= s.len(),
    decreases s.len() - i,
{
    if i < s.len() && !is_space_char(s[i]) {
        lemma_tok_end_bounds(s, i + 1);
    }
}

/// The whitespace-separated tokens of `s` from position `i` on, in order:
/// the semantics of `str::split_whitespace`.
pub open spec fn split_ws_at(s: Seq<char>, i: int) -> Seq<Seq<char>>
    decreases s.len() - i,
    via split_ws_at_decreases
{
    if i < 0 || i >= s.len() {
        seq![]
    } else if is_space_char(s[i]) {
        split_ws_at(s, i + 1)
    } else {
        seq![s.subrange(i, tok_end(s, i))] + split_ws_at(s, tok_end(s, i))
    }
}

#[via_fn]
proof fn split_ws_at_decreases(s: Seq<char>, i: int) {
    if 0 <= i < s.len() && !is_space_char(s[i]) {
        lemma_tok_end_bounds(s, i + 1);
        assert(tok_end(s, i) == tok_end(s, i + 1));
    }
}

/// Number of characters of `s`, as a `usize`; the length is within `usize`
/// because the characters sit in memory.
pub fn str_len(s: &str) -> (n: usize)
    ensures
        n == s@.len(),
{
    s.unicode_len()
}

/// Scans from `i` to the end of the current token.
pub fn scan_tok_end(s: &str, n: usize, i: usize) -> (j: usize)
    requires
        n == s@.len(),
        i <= n,
    ensures
        i <= j <= n,
        j == tok_end(s@, i as int),
        forall|k: int| i <= k < j ==> !is_space_char(s@[k]),
{
    let mut j = i;
    while j < n && !space_char(s.get_char(j))
        invariant
            n == s@.len(),
            i <= j <= n,
            tok_end(s@, i as int) == tok_end(s@, j as int),
            forall|k: int| i <= k < j ==> !is_space_char(s@[k]),
        decreases n - j,
    {
        j = j + 1;
    }
    j
}

/// Scans from `i` past any whitespace.
pub fn scan_ws_end(s: &str, n: usize, i: usize) -> (j: usize)
    requires
        n == s@.len(),
        i <= n,
    ensures
        i <= j <= n,
        j == ws_end(s@, i as int),
        split_ws_at(s@, i as int) == split_ws_at(s@, j as int),
        j == n || !is_space_char(s@[j as int]),
{
    let mut j = i;
    while j < n && space_char(s.get_char(j))
        invariant
            n == s@.len(),
            i <= j <= n,
            ws_end(s@, i as int) == ws_end(s@, j as int),
            split_ws_at(s@, i as int) == split_ws_at(s@, j as int),
        decreases n - j,
    {
        j = j + 1;
    }
    j
}

/// The whitespace-separated tokens of `s`, each copied out as a `String`.
pub fn split_ws_tokens(s: &str) -> (toks: Vec<String>)
    ensures
        toks.deep_view() == split_ws_at(s@, 0),
{
    let n = str_len(s);
    let mut toks: Vec<String> = Vec::new();
    let mut i = scan_ws_end(s, n, 0);
    while i < n
        invariant
            n == s@.len(),
            i <= n,
            i == n || !is_space_char(s@[i as int]),
            split_ws_at(s@, 0) == toks.deep_view() + split_ws_at(s@, i as int),
        decreases n - i,
    {
        let j = scan_tok_end(s, n, i);
        proof {
            lemma_tok_end_bounds(s@, i as int);
        }
        assert(j > i);
        let tok = s.substring_char(i, j).to_owned();
        let ghost old_toks = toks.deep_view();
        toks.push(tok);
        proof {
            assert(toks.deep_view() =~= old_toks + seq![s@.subrange(i as int, j as int)]);
        }
        i = scan_ws_end(s, n, j);
        proof {
            assert(split_ws_at(s@, 0) =~= toks.deep_view() + split_ws_at(s@, i as int));
        }
    }
    toks
}

/// First position at or after `i` holding a line feed, or the length of `s`.
pub open spec fn nl_end(s: Seq<char>, i: int) -> int
    decreases s.len() - i,
{
    if i < 0 || i >= s.len() {
        s.len() as int
    } else if s[i] == '\n' {
        i
    } else {
        nl_end(s, i + 1)
    }
}

pub proof fn lemma_nl_end_bounds(s: Seq<char>, i: int)
    requires
        0 <= i <= s.len(),
    ensures
        i <= nl_end(s, i) <= s.len(),
    decreases s.len() - i,
{
    if i < s.len() && s[i] != '\n' {
        lemma_nl_end_bounds(s, i + 1);
    }
}

/// A line with a trailing carriage return loses it, as under `str::lines`.
pub open spec fn strip_cr(l: Seq<char>) -> Seq<char> {
    if l.len() > 0 && l[l.len() - 1] == '\r' {
        l.drop_last()
    } else {
        l
    }
}

/// The lines of `s` from position `i` on: the semantics of `str::lines`.
/// Lines are separated by line feeds; a final line feed ends the last line
/// rather than opening an empty one.
pub open spec fn lines_at(s: Seq<char>, i: int) -> Seq<Seq<char>>
    decreases s.len() - i,
    via lines_at_decreases
{
    if i < 0 || i >= s.len() {
        seq![]
    } else {
        let e = nl_end(s, i);
        if e >= s.len() {
            seq![strip_cr(s.subrange(i, s.len() as int))]
        } else {
            seq![strip_cr(s.subrange(i, e))] + lines_at(s, e + 1)
        }
    }
}

#[via_fn]
proof fn lines_at_decreases(s: Seq<char>, i: int) {
    if 0 <= i < s.len() {
        lemma_nl_end_bounds(s, i);
    }
}

/// Scans from `i` to the next line feed.
pub fn scan_nl_end(s: &str, n: usize, i: usize) -> (j: usize)
    requires
        n == s@.len(),
        i <= n,
    ensures
        i <= j <= n,
        j == nl_end(s@, i as int),
{
    let mut j = i;
    while j < n && s.get_char(j) != '\n'
        invariant
            n == s@.len(),
            i <= j <= n,
            nl_end(s@, i as int) == nl_end(s@, j as int),
        decreases n - j,
    {
        j = j + 1;
    }
    j
}

/// The lines of `s`, each copied out as a `String`.
pub fn split_lines(s: &str) -> (lines: Vec<String>)
    ensures
        lines.deep_view() == lines_at(s@, 0),
{
    let n = str_len(s);
    let mut lines: Vec<String> = Vec::new();
    let mut i: usize = 0;
    while i < n
        invariant
            n == s@.len(),
            i <= n + 1,
            lines_at(s@, 0) == lines.deep_view() + lines_at(s@, i as int),
        decreases n - i,
    {
        let e = scan_nl_end(s, n, i);
        let line_end = if e > i && s.get_char(e - 1) == '\r' {
            e - 1
        } else {
            e
        };
        let line = s.substring_char(i, line_end).to_owned();
        proof {
            assert(line@ =~= strip_cr(s@.subrange(i as int, nl_end(s@, i as int))));
        }
        let ghost old_lines = lines.deep_view();
        lines.push(line);
        proof {
            assert(lines.deep_view() =~= old_lines + seq![line@]);
        }
        if e == n {
            i = n;
        } else {
            i = e + 1;
        }
    }
    lines
}

/// First position at or after `i` where the two-character separator `//`
/// begins, or the length of `s`.
pub open spec fn sep_start(s: Seq<char>, i: int) -> int
    decreases s.len() - i,
{
    if i < 0 || i >= s.len() {
        s.len() as int
    } else if s[i] == '/' && i + 1 < s.len() && s[i + 1] == '/' {
        i
    } else {
        sep_start(s, i + 1)
    }
}

pub proof fn lemma_sep_start_bounds(s: Seq<char>, i: int)
    requires
        0 <= i <= s.len(),
    ensures
        i <= sep_start(s, i) <= s.len(),
        sep_start(s, i) < s.len() ==> sep_start(s, i) + 2 <= s.len(),
    decreases s.len() - i,
{
    if i < s.len() && !(s[i] == '/' && i + 1 < s.len() && s[i + 1] == '/') {
        lemma_sep_start_bounds(s, i + 1);
    }
}

/// The pieces of `s` from position `i` on, split on the leftmost occurrences
/// of `//`: the semantics of `str::split` with a `//` pattern. There is
/// always at least one piece; a trailing separator opens a final empty one.
pub open spec fn split_sep_at(s: Seq<char>, i: int) -> Seq<Seq<char>>
    decreases s.len() - i,
    via split_sep_at_decreases
{
    if i < 0 || i > s.len() {
        seq![]
    } else {
        let e = sep_start(s, i);
        if e >= s.len() {
            seq![s.subrange(i, s.len() as int)]
        } else {
            seq![s.subrange(i, e)] + split_sep_at(s, e + 2)
        }
    }
}

#[via_fn]
proof fn split_sep_at_decreases(s: Seq<char>, i: int) {
    if 0 <= i <= s.len() {
        lemma_sep_start_bounds(s, i);
    }
}

/// Scans from `i` to the start of the next `//` separator.
pub fn scan_sep_start(s: &str, n: usize, i: usize) -> (j: usize)
    requires
        n == s@.len(),
        i <= n,
    ensures
        i <= j <= n,
        j == sep_start(s@, i as int),
        j < n ==> j + 2 <= n,
{
    let mut j = i;
    loop
        invariant
            n == s@.len(),
            i <= j <= n,
            sep_start(s@, i as int) == sep_start(s@, j as int),
        decreases n - j,
    {
        if j >= n {
            return j;
        }
        if s.get_char(j) == '/' && j + 1 < n && s.get_char(j + 1) == '/' {
            return j;
        }
        j = j + 1;
    }
}

/// The pieces of `s` split on `//`, each copied out as a `String`.
pub fn split_sep_parts(s: &str) -> (parts: Vec<String>)
    ensures
        parts.deep_view() == split_sep_at(s@, 0),
{
    let n = str_len(s);
    let mut parts: Vec<String> = Vec::new();
    let mut i: usize = 0;
    loop
        invariant
            n == s@.len(),
            i <= n,
            split_sep_at(s@, 0) == parts.deep_view() + split_sep_at(s@, i as int),
        decreases n - i,
    {
        let e = scan_sep_start(s, n, i);
        let piece = s.substring_char(i, e).to_owned();
        let ghost old_parts = parts.deep_view();
        parts.push(piece);
        proof {
            assert(parts.deep_view() =~= old_parts + seq![piece@]);
        }
        if e >= n {
            proof {
                assert(split_sep_at(s@, 0) =~= parts.deep_view());
            }
            return parts;
        }
        i = e + 2;
        proof {
            assert(split_sep_at(s@, 0) =~= parts.deep_view() + split_sep_at(s@, i as int));
        }
    }
}

/// Value of a string of decimal digits, most significant first.
pub open spec fn dec_val(s: Seq<char>) -> int
    decreases s.len(),
{
    if s.len() == 0 {
        0
    } else {
        10 * dec_val(s.drop_last()) + digit_val(s.last())
    }
}

pub open spec fn all_digits(s: Seq<char>) -> bool {
    forall|k: int| 0 <= k < s.len() ==> is_digit_char(#[trigger] s[k])
}

/// Appending digits never shrinks the value.
pub proof fn lemma_dec_val_prefix(s: Seq<char>, k: int)
    requires
        0 <= k <= s.len(),
        all_digits(s),
    ensures
        0 <= dec_val(s.take(k)) <= dec_val(s),
    decreases s.len(),
{
    if s.len() == 0 {
    } else {
        lemma_dec_val_prefix(s.drop_last(), if k < s.len() {
            k
        } else {
            k - 1
        });
        if k < s.len() {
            assert(s.drop_last().take(k) =~= s.take(k));
        } else {
            assert(s.take(k) =~= s);
        }
    }
}

/// The value a token denotes as an unsigned 16-bit decimal number, if it
/// does: an optional leading plus sign, then at least one digit, with the
/// value at most 65535. This is the documented acceptance of `u16::from_str`.
pub open spec fn u16_token(s: Seq<char>) -> Option<u16> {
    let t = if s.len() > 0 && s[0] == '+' {
        s.subrange(1, s.len() as int)
    } else {
        s
    };
    if t.len() > 0 && all_digits(t) && dec_val(t) <= 0xffff {
        Some(dec_val(t) as u16)
    } else {
        None
    }
}

/// Parses a whole token as an unsigned 16-bit decimal number.
pub fn parse_u16_token(s: &str) -> (r: Option<u16>)
    ensures
        r == u16_token(s@),
{
    let n = str_len(s);
    let start: usize = if n > 0 && s.get_char(0) == '+' {
        1
    } else {
        0
    };
    let ghost t = if s@.len() > 0 && s@[0] == '+' {
        s@.subrange(1, s@.len() as int)
    } else {
        s@
    };
    assert(t =~= s@.subrange(start as int, n as int));
    if start == n {
        return None;
    }
    let mut acc: u32 = 0;
    let mut j = start;
    while j < n
        invariant
            n == s@.len(),
            start <= j <= n,
            t == s@.subrange(start as int, n as int),
            t == (if s@.len() > 0 && s@[0] == '+' {
                s@.subrange(1, s@.len() as int)
            } else {
                s@
            }),
            acc == dec_val(t.take(j - start)),
            acc <= 0xffff,
            all_digits(t.take(j - start)),
        decreases n - j,
    {
        let c = s.get_char(j);
        if !digit_char(c) {
            proof {
                assert(t[j - start] == s@[j as int]);
                assert(!all_digits(t));
            }
            return None;
        }
        let d = c as u32 - 0x30;
        acc = acc * 10 + d;
        proof {
            assert(t.take(j - start + 1).drop_last() =~= t.take(j - start));
            assert(t.take(j - start + 1).last() == c);
        }
        j = j + 1;
        if acc > 0xffff {
            proof {
                if all_digits(t) {
                    lemma_dec_val_prefix(t, j - start);
                }
            }
            return None;
        }
    }
    proof {
        assert(t.take(n - start) =~= t);
    }
    Some(acc as u16)
}

pub open spec fn is_sign_char(c: char) -> bool {
    c == '+' || c == '-'
}

/// First position at or after `i` holding a non-digit, or the length of `s`.
pub open spec fn digits_end(s: Seq<char>, i: int) -> int
    decreases s.len() - i,
{
    if i < 0 || i >= s.len() {
        s.len() as int
    } else if !is_digit_char(s[i]) {
        i
    } else {
        digits_end(s, i + 1)
    }
}

/// Scans from `i` to the end of a digit run.
pub fn scan_digits_end(s: &str, n: usize, i: usize) -> (j: usize)
    requires
        n == s@.len(),
        i <= n,
    ensures
        i <= j <= n,
        j == digits_end(s@, i as int),
{
    let mut j = i;
    while j < n && digit_char(s.get_char(j))
        invariant
            n == s@.len(),
            i <= j <= n,
            digits_end(s@, i as int) == digits_end(s@, j as int),
        decreases n - j,
    {
        j = j + 1;
    }
    j
}

/// Whether `c` is the letter `l` up to ASCII case; `l` is a lowercase letter.
pub open spec fn eq_ci(c: char, l: char) -> bool {
    c == l || c as u32 == l as u32 - 0x20
}

/// The words `inf`, `infinity` and `nan`, in any case.
pub open spec fn is_special_word(t: Seq<char>) -> bool {
    (t.len() == 3 && eq_ci(t[0], 'i') && eq_ci(t[1], 'n') && eq_ci(t[2], 'f')) || (t.len() == 8
        && eq_ci(t[0], 'i') && eq_ci(t[1], 'n') && eq_ci(t[2], 'f') && eq_ci(t[3], 'i') && eq_ci(
        t[4],
        'n',
    ) && eq_ci(t[5], 'i') && eq_ci(t[6], 't') && eq_ci(t[7], 'y')) || (t.len() == 3 && eq_ci(
        t[0],
        'n',
    ) && eq_ci(t[1], 'a') && eq_ci(t[2], 'n'))
}

/// A well-formed exponent suffix starting at `i`, or nothing at all.
pub open spec fn exp_ok(t: Seq<char>, i: int) -> bool {
    if i == t.len() {
        true
    } else if 0 <= i < t.len() && (t[i] == 'e' || t[i] == 'E') {
        let j = if i + 1 < t.len() && is_sign_char(t[i + 1]) {
            i + 2
        } else {
            i + 1
        };
        j < t.len() && digits_end(t, j) == t.len()
    } else {
        false
    }
}

/// A decimal number: digits, an optional point, an optional exponent. This
/// is the `Number` production that `f32::from_str` documents.
pub open spec fn is_number(t: Seq<char>) -> bool {
    let d1 = digits_end(t, 0);
    if d1 > 0 {
        if d1 < t.len() && t[d1] == '.' {
            exp_ok(t, digits_end(t, d1 + 1))
        } else {
            exp_ok(t, d1)
        }
    } else {
        t.len() > 0 && t[0] == '.' && {
            let d2 = digits_end(t, 1);
            d2 > 1 && exp_ok(t, d2)
        }
    }
}

/// A token that `f32::from_str` documents as acceptable: an optional sign,
/// then `inf`, `infinity`, `nan` (in any case) or a decimal number.
pub open spec fn is_float_token(s: Seq<char>) -> bool {
    let t = if s.len() > 0 && is_sign_char(s[0]) {
        s.subrange(1, s.len() as int)
    } else {
        s
    };
    is_special_word(t) || is_number(t)
}

fn char_eq_ci(c: char, lower: char, upper: char) -> (r: bool)
    requires
        lower as u32 >= 0x20,
        upper as u32 == lower as u32 - 0x20,
    ensures
        r == eq_ci(c, lower),
{
    c == lower || c == upper
}

fn special_word(t: &str, n: usize) -> (r: bool)
    requires
        n == t@.len(),
    ensures
        r == is_special_word(t@),
{
    if n == 3 {
        let c0 = t.get_char(0);
        let c1 = t.get_char(1);
        let c2 = t.get_char(2);
        (char_eq_ci(c0, 'i', 'I') && char_eq_ci(c1, 'n', 'N') && char_eq_ci(c2, 'f', 'F'))
            || (char_eq_ci(c0, 'n', 'N') && char_eq_ci(c1, 'a', 'A') && char_eq_ci(c2, 'n', 'N'))
    } else if n == 8 {
        char_eq_ci(t.get_char(0), 'i', 'I') && char_eq_ci(t.get_char(1), 'n', 'N') && char_eq_ci(
            t.get_char(2),
            'f',
            'F',
        ) && char_eq_ci(t.get_char(3), 'i', 'I') && char_eq_ci(t.get_char(4), 'n', 'N')
            && char_eq_ci(t.get_char(5), 'i', 'I') && char_eq_ci(t.get_char(6), 't', 'T')
            && char_eq_ci(t.get_char(7), 'y', 'Y')
    } else {
        false
    }
}

fn exp_check(t: &str, n: usize, i: usize) -> (r: bool)
    requires
        n == t@.len(),
        i <= n,
    ensures
        r == exp_ok(t@, i as int),
{
    if i == n {
        return true;
    }
    let c = t.get_char(i);
    if c != 'e' && c != 'E' {
        return false;
    }
    let j = if i + 1 < n {
        let c1 = t.get_char(i + 1);
        if c1 == '+' || c1 == '-' {
            i + 2
        } else {
            i + 1
        }
    } else {
        i + 1
    };
    if j >= n {
        return false;
    }
    let de = scan_digits_end(t, n, j);
    de == n
}

/// Recognises a whole token as a floating-point number, by the grammar that
/// `f32::from_str` documents.
pub fn float_token(s: &str) -> (r: bool)
    ensures
        r == is_float_token(s@),
{
    let n = str_len(s);
    let (t, tn) = if n > 0 {
        let c0 = s.get_char(0);
        if c0 == '+' || c0 == '-' {
            (s.substring_char(1, n), n - 1)
        } else {
            (s, n)
        }
    } else {
        (s, n)
    };
    assert(t@ =~= if s@.len() > 0 && is_sign_char(s@[0]) {
        s@.subrange(1, s@.len() as int)
    } else {
        s@
    });
    if special_word(t, tn) {
        return true;
    }
    let d1 = scan_digits_end(t, tn, 0);
    if d1 > 0 {
        if d1 < tn && t.get_char(d1) == '.' {
            let d2 = scan_digits_end(t, tn, d1 + 1);
            exp_check(t, tn, d2)
        } else {
            exp_check(t, tn, d1)
        }
    } else {
        if tn > 0 && t.get_char(0) == '.' {
            let d2 = scan_digits_end(t, tn, 1);
            d2 > 1 && exp_check(t, tn, d2)
        } else {
            false
        }
    }
}

} // verus!
