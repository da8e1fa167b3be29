//! Character-sequence primitives: conversion between `&str`/`String` and
//! character vectors, substring search, whitespace trimming and decimal
//! rendering, each specified over `Seq<char>`.

use vstd::prelude::*;

verus! {

/// Appends one character to a string.
/// Calls `String::push`; claims the new contents are the old ones followed by `c`.
#[verifier::external_body]
pub(crate) fn push_char(s: &mut String, c: char)
    ensures
        final(s)@ == old(s)@.push(c),
{
    s.push(c);
}

/// The characters of `s`, in order.
pub fn chars_of(s: &str) -> (v: Vec<char>)
    ensures
        v@ == s@,
{
    let mut v: Vec<char> = Vec::new();
    for c in it: s.chars()
        invariant
            v@ == it.seq().take(it.index() as int),
            it.seq() == s@,
    {
        v.push(c);
    }
    v
}

/// A string holding exactly the characters of `v`.
pub fn string_of(v: &[char]) -> (s: String)
    ensures
        s@ == v@,
{
    let mut s = String::new();
    let mut i: usize = 0;
    while i < v.len()
        invariant
            i <= v.len(),
            s@ == v@.take(i as int),
        decreases v.len() - i,
    {
        push_char(&mut s, v[i]);
        assert(v@.take(i as int).push(v@[i as int]) =~= v@.take(i + 1));
        i += 1;
    }
    assert(v@.take(v.len() as int) =~= v@);
    s
}


/// Whether `n` occurs in `h` starting at position `i`.
pub open spec fn occurs_at<T>(h: Seq<T>, n: Seq<T>, i: int) -> bool {
    0 <= i && i + n.len() <= h.len() && h.subrange(i, i + n.len()) == n
}

/// The first position at or after `from` where `n` occurs in `h`, if any.
pub open spec fn find_from<T>(h: Seq<T>, n: Seq<T>, from: int) -> Option<int>
    decreases h.len() + 1 - from,
{
    if from < 0 || from + n.len() > h.len() {
        None
    } else if occurs_at(h, n, from) {
        Some(from)
    } else {
        find_from(h, n, from + 1)
    }
}

/// The first position where `n` occurs in `h`, if any.
pub open spec fn find<T>(h: Seq<T>, n: Seq<T>) -> Option<int> {
    find_from(h, n, 0)
}

/// Whether `n` occurs anywhere in `h`.
pub open spec fn contains<T>(h: Seq<T>, n: Seq<T>) -> bool {
    find(h, n) is Some
}

/// `find_from` yields the least matching position at or after `from`.
pub proof fn lemma_find_from<T>(h: Seq<T>, n: Seq<T>, from: int)
    requires
        0 <= from,
    ensures
        match find_from(h, n, from) {
            Some(p) => from <= p && occurs_at(h, n, p) && forall|j: int|
                from <= j < p ==> !occurs_at(h, n, j),
            None => forall|j: int| from <= j ==> !occurs_at(h, n, j),
        },
    decreases h.len() + 1 - from,
{
    if from + n.len() > h.len() {
    } else if occurs_at(h, n, from) {
    } else {
        lemma_find_from(h, n, from + 1);
    }
}

/// Whether `n` occurs in `h` at position `i`.
pub fn matches_at(h: &[char], n: &[char], i: usize) -> (b: bool)
    ensures
        b == occurs_at(h@, n@, i as int),
{
    if n.len() > h.len() || i > h.len() - n.len() {
        return false;
    }
    let mut k: usize = 0;
    while k < n.len()
        invariant
            k <= n.len(),
            i + n.len() <= h.len(),
            forall|j: int| 0 <= j < k ==> h@[i + j] == n@[j],
        decreases n.len() - k,
    {
        if h[i + k] != n[k] {
            assert(h@.subrange(i as int, i + n.len())[k as int] != n@[k as int]);
            return false;
        }
        k += 1;
    }
    assert(h@.subrange(i as int, i + n.len()) =~= n@);
    true
}


/// The first position at or after `from` where `n` occurs in `h`.
pub fn find_from_exec(h: &[char], n: &[char], from: usize) -> (r: Option<usize>)
    ensures
        match r {
            Some(p) => find_from(h@, n@, from as int) == Some(p as int),
            None => find_from(h@, n@, from as int) is None,
        },
{
    let mut i = from;
    if n.len() > h.len() {
        proof { lemma_find_from(h@, n@, from as int); }
        assert(find_from(h@, n@, from as int) is None);
        return None;
    }
    while i <= h.len() - n.len()
        invariant
            from <= i,
            n.len() <= h.len(),
            find_from(h@, n@, from as int) == find_from(h@, n@, i as int),
        decreases h.len() + 1 - i,
    {
        if matches_at(h, n, i) {
            return Some(i);
        }
        if i == h.len() - n.len() {
            assert(find_from(h@, n@, i + 1) is None);
            return None;
        }
        i += 1;
    }
    None
}

/// The first position where `n` occurs in `h`.
pub fn find_exec(h: &[char], n: &[char]) -> (r: Option<usize>)
    ensures
        match r {
            Some(p) => find(h@, n@) == Some(p as int),
            None => find(h@, n@) is None,
        },
{
    find_from_exec(h, n, 0)
}

/// Whether `n` occurs in `h`.
pub fn contains_exec(h: &[char], n: &[char]) -> (b: bool)
    ensures
        b == contains(h@, n@),
{
    find_exec(h, n).is_some()
}

/// Whether the text `s` contains the text `pat`.
pub fn str_contains(s: &str, pat: &str) -> (b: bool)
    ensures
        b == contains(s@, pat@),
{
    let h = chars_of(s);
    let n = chars_of(pat);
    contains_exec(h.as_slice(), n.as_slice())
}

/// Whether two texts hold the same characters.
pub fn str_eq(a: &str, b: &str) -> (r: bool)
    ensures
        r == (a@ == b@),
{
    let x = chars_of(a);
    let y = chars_of(b);
    if x.len() != y.len() {
        return false;
    }
    let r = matches_at(x.as_slice(), y.as_slice(), 0);
    proof {
        if r {
            assert(x@.subrange(0, y@.len() as int) =~= x@);
        } else {
            assert(x@.subrange(0, y@.len() as int) =~= x@);
        }
    }
    r
}

/// The Unicode `White_Space` property, as `char::is_whitespace` documents it.
pub open spec fn is_white_space(c: char) -> bool {
    let u = c as u32;
    (0x09 <= u <= 0x0D) || u == 0x20 || u == 0x85 || u == 0xA0 || u == 0x1680 || (0x2000 <= u
        <= 0x200A) || u == 0x2028 || u == 0x2029 || u == 0x202F || u == 0x205F || u == 0x3000
}

/// Whether `c` has the Unicode `White_Space` property.
pub fn is_white_space_exec(c: char) -> (b: bool)
    ensures
        b == is_white_space(c),
{
    let u = c as u32;
    (0x09 <= u && u <= 0x0D) || u == 0x20 || u == 0x85 || u == 0xA0 || u == 0x1680 || (0x2000 <= u
        && u <= 0x200A) || u == 0x2028 || u == 0x2029 || u == 0x202F || u == 0x205F || u == 0x3000
}

/// The first index at or after `i` that holds no white space (or the length).
pub open spec fn skip_white_space(s: Seq<char>, i: int) -> int
    decreases s.len() - i,
{
    if 0 <= i < s.len() && is_white_space(s[i]) {
        skip_white_space(s, i + 1)
    } else {
        i
    }
}

/// The end of `s.take(j)` once trailing white space is dropped.
pub open spec fn trailing_end(s: Seq<char>, j: int) -> int
    decreases j,
{
    if 0 < j <= s.len() && is_white_space(s[j - 1]) {
        trailing_end(s, j - 1)
    } else {
        j
    }
}

/// `s` without leading and trailing white space, as `str::trim` gives it.
pub open spec fn trim(s: Seq<char>) -> Seq<char> {
    let a = skip_white_space(s, 0);
    let b = trailing_end(s, s.len() as int);
    if a >= b {
        Seq::empty()
    } else {
        s.subrange(a, b)
    }
}

proof fn lemma_skip_white_space(s: Seq<char>, i: int)
    requires
        0 <= i <= s.len(),
    ensures
        i <= skip_white_space(s, i) <= s.len(),
        forall|k: int| i <= k < skip_white_space(s, i) ==> is_white_space(#[trigger] s[k]),
        skip_white_space(s, i) < s.len() ==> !is_white_space(s[skip_white_space(s, i)]),
    decreases s.len() - i,
{
    if i < s.len() && is_white_space(s[i]) {
        lemma_skip_white_space(s, i + 1);
    }
}

proof fn lemma_trailing_end(s: Seq<char>, j: int)
    requires
        0 <= j <= s.len(),
    ensures
        0 <= trailing_end(s, j) <= j,
        forall|k: int| trailing_end(s, j) <= k < j ==> is_white_space(#[trigger] s[k]),
        trailing_end(s, j) > 0 ==> !is_white_space(s[trailing_end(s, j) - 1]),
    decreases j,
{
    if 0 < j && is_white_space(s[j - 1]) {
        lemma_trailing_end(s, j - 1);
    }
}

/// The bounds `(a, b)` of the trimmed part of `s`: `trim(s@)` is `s@[a..b]` when `a < b`.
pub fn trim_bounds(s: &[char]) -> (r: (usize, usize))
    ensures
        r.0 == skip_white_space(s@, 0),
        r.1 == trailing_end(s@, s@.len() as int),
        r.0 <= s@.len(),
        r.1 <= s@.len(),
{
    proof {
        lemma_skip_white_space(s@, 0);
        lemma_trailing_end(s@, s@.len() as int);
    }
    let mut a: usize = 0;
    while a < s.len() && is_white_space_exec(s[a])
        invariant
            a <= s.len(),
            skip_white_space(s@, 0) == skip_white_space(s@, a as int),
        decreases s.len() - a,
    {
        a += 1;
    }
    let mut b: usize = s.len();
    while b > 0 && is_white_space_exec(s[b - 1])
        invariant
            b <= s.len(),
            trailing_end(s@, s@.len() as int) == trailing_end(s@, b as int),
        decreases b,
    {
        b -= 1;
    }
    (a, b)
}

/// The characters of `s` without leading and trailing white space.
pub fn trim_chars(s: &[char]) -> (r: Vec<char>)
    ensures
        r@ == trim(s@),
{
    let (a, b) = trim_bounds(s);
    let mut r: Vec<char> = Vec::new();
    if a >= b {
        return r;
    }
    let mut i = a;
    while i < b
        invariant
            a <= i <= b <= s.len(),
            r@ == s@.subrange(a as int, i as int),
        decreases b - i,
    {
        r.push(s[i]);
        assert(s@.subrange(a as int, i as int).push(s@[i as int]) =~= s@.subrange(a as int, i + 1));
        i += 1;
    }
    r
}

/// `s` without leading and trailing white space.
pub fn trim_str(s: &str) -> (r: String)
    ensures
        r@ == trim(s@),
{
    let v = chars_of(s);
    let t = trim_chars(v.as_slice());
    string_of(t.as_slice())
}

/// Whether `s` holds only white space (or nothing), as `s.trim().is_empty()` tells.
pub fn is_blank(s: &str) -> (b: bool)
    ensures
        b == (trim(s@).len() == 0),
{
    let v = chars_of(s);
    let (a, b) = trim_bounds(v.as_slice());
    proof {
        if a < b {
            assert(trim(s@).len() == b - a);
        }
    }
    a >= b
}


/// Whether `c` is one of `'0'..='9'`.
pub open spec fn is_digit(c: char) -> bool {
    48 <= (c as u32) <= 57
}

/// Whether `c` is one of `'0'..='9'`.
pub fn is_digit_exec(c: char) -> (b: bool)
    ensures
        b == is_digit(c),
{
    let u = c as u32;
    48 <= u && u <= 57
}

/// The numeric value of the digit character `c`.
pub open spec fn digit_value(c: char) -> int {
    (c as u32) - 48
}

/// The character for the decimal digit `d`.
pub open spec fn digit_char(d: u8) -> char {
    ((48 + d) as u8) as char
}

/// Whether every character of `s` is a decimal digit.
pub open spec fn all_digits(s: Seq<char>) -> bool {
    forall|i: int| 0 <= i < s.len() ==> is_digit(#[trigger] s[i])
}

/// The number that the decimal digits `s` spell.
pub open spec fn digits_value(s: Seq<char>) -> nat
    decreases s.len(),
{
    if s.len() == 0 {
        0
    } else {
        (digits_value(s.drop_last()) * 10 + digit_value(s.last())) as nat
    }
}

/// What `u64::from_str`-style parsing gives for an unsigned text bounded by `max`:
/// an optional `'+'`, then at least one digit, with a value no greater than `max`.
pub open spec fn parse_unsigned(s: Seq<char>, max: int) -> Option<int> {
    let body = if s.len() > 0 && s[0] == '+' {
        s.drop_first()
    } else {
        s
    };
    if body.len() > 0 && all_digits(body) && digits_value(body) <= max {
        Some(digits_value(body) as int)
    } else {
        None
    }
}

/// What `i32::from_str`-style parsing gives for a signed text within `min..=max`.
pub open spec fn parse_signed(s: Seq<char>, min: int, max: int) -> Option<int> {
    if s.len() > 0 && s[0] == '-' {
        let body = s.drop_first();
        if body.len() > 0 && all_digits(body) && -(digits_value(body) as int) >= min {
            Some(-(digits_value(body) as int))
        } else {
            None
        }
    } else {
        parse_unsigned(s, max)
    }
}

/// The value of the digits `s[start..]` when they are all digits and the value
/// is at most `max`; `None` otherwise.
fn digits_bounded(s: &[char], start: usize, max: u64) -> (r: Option<u64>)
    requires
        start <= s.len(),
    ensures
        match r {
            Some(v) => all_digits(s@.skip(start as int)) && digits_value(s@.skip(start as int))
                <= max && v == digits_value(s@.skip(start as int)),
            None => !(all_digits(s@.skip(start as int)) && digits_value(s@.skip(start as int))
                <= max),
        },
{
    let ghost t = s@.skip(start as int);
    let mut i = start;
    let mut acc: u64 = 0;
    let mut over = false;
    while i < s.len()
        invariant
            start <= i <= s.len(),
            t == s@.skip(start as int),
            all_digits(t.take(i - start)),
            !over ==> acc == digits_value(t.take(i - start)) && acc <= max,
            over ==> digits_value(t.take(i - start)) > max,
        decreases s.len() - i,
    {
        let c = s[i];
        if !is_digit_exec(c) {
            assert(t[i - start] == c);
            return None;
        }
        let d = (c as u32 - 48) as u64;
        proof {
            let k = i - start;
            assert(t.take(k + 1).drop_last() =~= t.take(k));
            assert(t.take(k + 1).last() == c);
            assert(all_digits(t.take(k + 1)));
        }
        if !over {
            let next: u128 = (acc as u128) * 10 + (d as u128);
            if next > max as u128 {
                over = true;
            } else {
                acc = next as u64;
            }
        }
        i += 1;
    }
    assert(t.take(s.len() - start) =~= t);
    if over {
        None
    } else {
        Some(acc)
    }
}

/// Parses an unsigned decimal text bounded by `max` (`u64::from_str` rules).
pub fn parse_unsigned_exec(s: &[char], max: u64) -> (r: Option<u64>)
    ensures
        match r {
            Some(v) => parse_unsigned(s@, max as int) == Some(v as int),
            None => parse_unsigned(s@, max as int) is None,
        },
{
    let start: usize = if s.len() > 0 && s[0] == '+' {
        1
    } else {
        0
    };
    assert(start == 1 ==> s@.skip(1) =~= s@.drop_first());
    assert(s@.skip(0) =~= s@);
    if start >= s.len() {
        return None;
    }
    digits_bounded(s, start, max)
}

/// Parses a signed decimal text within `-min_mag..=max` (`i32::from_str` rules
/// for `min_mag = 2^31`, `max = 2^31 - 1`).
pub fn parse_signed_exec(s: &[char], min_mag: u64, max: u64) -> (r: Option<(bool, u64)>)
    ensures
        match r {
            Some((neg, m)) => parse_signed(s@, -(min_mag as int), max as int) == Some(
                if neg {
                    -(m as int)
                } else {
                    m as int
                },
            ),
            None => parse_signed(s@, -(min_mag as int), max as int) is None,
        },
{
    if s.len() > 0 && s[0] == '-' {
        assert(s@.skip(1) =~= s@.drop_first());
        if s.len() == 1 {
            return None;
        }
        match digits_bounded(s, 1, min_mag) {
            Some(m) => Some((true, m)),
            None => None,
        }
    } else {
        match parse_unsigned_exec(s, max) {
            Some(v) => Some((false, v)),
            None => None,
        }
    }
}

/// The decimal rendering of `n`, most significant digit first, without padding.
pub open spec fn decimal(n: nat) -> Seq<char>
    decreases n,
{
    if n < 10 {
        seq![digit_char(n as u8)]
    } else {
        decimal(n / 10).push(digit_char((n % 10) as u8))
    }
}

fn push_decimal(n: u64, out: &mut Vec<char>)
    ensures
        final(out)@ == old(out)@ + decimal(n as nat),
    decreases n,
{
    if n >= 10 {
        push_decimal(n / 10, out);
    }
    let d = (n % 10) as u8;
    let c = (48 + d) as char;
    assert(c == digit_char(d));
    out.push(c);
    proof {
        if n >= 10 {
            assert(decimal(n as nat) == decimal((n / 10) as nat).push(digit_char(d)));
        }
    }
    assert(final(out)@ =~= old(out)@ + decimal(n as nat));
}

/// Appends the decimal rendering of `n` to `s`, as `s.push_str(&n.to_string())` does.
pub fn push_u64(s: &mut String, n: u64)
    ensures
        final(s)@ == old(s)@ + decimal(n as nat),
{
    let mut v: Vec<char> = Vec::new();
    push_decimal(n, &mut v);
    assert(v@ =~= decimal(n as nat));
    let mut i: usize = 0;
    let ghost s0 = s@;
    while i < v.len()
        invariant
            i <= v.len(),
            s@ == s0 + v@.take(i as int),
        decreases v.len() - i,
    {
        push_char(s, v[i]);
        assert(v@.take(i as int).push(v@[i as int]) =~= v@.take(i + 1));
        assert(s0 + v@.take(i as int).push(v@[i as int]) =~= (s0 + v@.take(i as int)).push(v@[i as int]));
        i += 1;
    }
    assert(v@.take(v.len() as int) =~= v@);
}

} // verus!
