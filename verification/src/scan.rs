//! Lenient key lookups in flat JSON or TOML text: the first `"key":` (or
//! `key = `) is located and the value after it is read as a quoted string,
//! a number token or a boolean word.

use vstd::prelude::*;
use crate::text::{
    all_digits, chars_of, digits_value, find, find_exec, find_from, find_from_exec, is_digit,
    is_digit_exec, parse_signed_exec, parse_unsigned_exec,
    is_white_space, is_white_space_exec, lemma_find_from, occurs_at, parse_signed, parse_unsigned,
    skip_white_space, string_of,
};

verus! {

/// The JSON form of a key: `"key":`.
pub open spec fn json_key_pattern(key: Seq<char>) -> Seq<char> {
    seq!['"'] + key + seq!['"', ':']
}

/// The TOML form of a key: `key = `.
pub open spec fn toml_key_pattern(key: Seq<char>) -> Seq<char> {
    key + seq![' ', '=', ' ']
}

/// The characters a value token may hold.
#[derive(Clone, Copy, PartialEq, Eq, Debug)]
pub enum TokenClass {
    /// ASCII digits.
    Unsigned,
    /// ASCII digits and signs.
    Signed,
    /// ASCII digits, signs and `.`.
    Decimal,
    /// ASCII letters.
    Alphabetic,
}

/// Whether `c` is an ASCII letter.
pub open spec fn is_ascii_alphabetic(c: char) -> bool {
    (65 <= (c as u32) <= 90) || (97 <= (c as u32) <= 122)
}

/// Whether `c` may stand in a token of class `class`.
pub open spec fn in_class(c: char, class: TokenClass) -> bool {
    match class {
        TokenClass::Unsigned => is_digit(c),
        TokenClass::Signed => is_digit(c) || c == '-' || c == '+',
        TokenClass::Decimal => is_digit(c) || c == '-' || c == '+' || c == '.',
        TokenClass::Alphabetic => is_ascii_alphabetic(c),
    }
}

fn in_class_exec(c: char, class: TokenClass) -> (b: bool)
    ensures
        b == in_class(c, class),
{
    let u = c as u32;
    match class {
        TokenClass::Unsigned => is_digit_exec(c),
        TokenClass::Signed => is_digit_exec(c) || c == '-' || c == '+',
        TokenClass::Decimal => is_digit_exec(c) || c == '-' || c == '+' || c == '.',
        TokenClass::Alphabetic => (65 <= u && u <= 90) || (97 <= u && u <= 122),
    }
}

/// The first index at or after `i` whose character is outside `class` (or the length).
pub open spec fn token_end(s: Seq<char>, i: int, class: TokenClass) -> int
    decreases s.len() - i,
{
    if 0 <= i < s.len() && in_class(s[i], class) {
        token_end(s, i + 1, class)
    } else {
        i
    }
}

/// The token of class `class` that starts after the white space at `pos`.
pub open spec fn token_at(s: Seq<char>, pos: int, class: TokenClass) -> Seq<char> {
    let a = skip_white_space(s, pos);
    s.subrange(a, token_end(s, a, class))
}

/// The token of class `class` after the first occurrence of `pattern`, if it occurs.
pub open spec fn scan_token(s: Seq<char>, pattern: Seq<char>, class: TokenClass) -> Option<
    Seq<char>,
> {
    match find(s, pattern) {
        Some(p) => Some(token_at(s, p + pattern.len(), class)),
        None => None,
    }
}

/// The lookup shared by the number and boolean extractors: the token after the
/// JSON form of the key is read with `read`; when the JSON form is absent the
/// answer is `None`; when its token does not read, the TOML form is tried.
pub open spec fn lookup_token<V>(
    raw: Seq<char>,
    key: Seq<char>,
    class: TokenClass,
    read: spec_fn(Seq<char>) -> Option<V>,
) -> Option<V> {
    match scan_token(raw, json_key_pattern(key), class) {
        None => None,
        Some(t) => match read(t) {
            Some(v) => Some(v),
            None => match scan_token(raw, toml_key_pattern(key), class) {
                None => None,
                Some(t2) => read(t2),
            },
        },
    }
}

/// The text between the first two double quotes at or after `pos`.
pub open spec fn quoted_from(s: Seq<char>, pos: int) -> Option<Seq<char>> {
    match find_from(s, seq!['"'], pos) {
        None => None,
        Some(q) => match find_from(s, seq!['"'], q + 1) {
            None => None,
            Some(e) => Some(s.subrange(q + 1, e)),
        },
    }
}

/// The string value of `key`: the quoted text after `"key":`, or after
/// `key = ` when the JSON form is absent.
pub open spec fn spec_extract_string(raw: Seq<char>, key: Seq<char>) -> Option<Seq<char>> {
    let jp = json_key_pattern(key);
    let tp = toml_key_pattern(key);
    match find(raw, jp) {
        Some(p) => quoted_from(raw, p + jp.len()),
        None => match find(raw, tp) {
            Some(p) => quoted_from(raw, p + tp.len()),
            None => None,
        },
    }
}

/// Reads `true` or `false`.
pub open spec fn read_bool(t: Seq<char>) -> Option<bool> {
    if t == seq!['t', 'r', 'u', 'e'] {
        Some(true)
    } else if t == seq!['f', 'a', 'l', 's', 'e'] {
        Some(false)
    } else {
        None
    }
}

/// The boolean value of `key`.
pub open spec fn spec_extract_bool(raw: Seq<char>, key: Seq<char>) -> Option<bool> {
    lookup_token(raw, key, TokenClass::Alphabetic, |t: Seq<char>| read_bool(t))
}

/// The `u64` value of `key`.
pub open spec fn spec_extract_u64(raw: Seq<char>, key: Seq<char>) -> Option<int> {
    lookup_token(raw, key, TokenClass::Unsigned, |t: Seq<char>| parse_unsigned(t, u64::MAX as int))
}

/// The `u32` value of `key`.
pub open spec fn spec_extract_u32(raw: Seq<char>, key: Seq<char>) -> Option<int> {
    lookup_token(raw, key, TokenClass::Unsigned, |t: Seq<char>| parse_unsigned(t, u32::MAX as int))
}

/// The `i32` value of `key`.
pub open spec fn spec_extract_i32(raw: Seq<char>, key: Seq<char>) -> Option<int> {
    lookup_token(
        raw,
        key,
        TokenClass::Signed,
        |t: Seq<char>| parse_signed(t, i32::MIN as int, i32::MAX as int),
    )
}

/// The characters of `"key":`.
pub fn json_key_pattern_exec(key: &[char]) -> (p: Vec<char>)
    ensures
        p@ == json_key_pattern(key@),
{
    let mut p: Vec<char> = Vec::new();
    p.push('"');
    let mut i: usize = 0;
    while i < key.len()
        invariant
            i <= key.len(),
            p@ == seq!['"'] + key@.take(i as int),
        decreases key.len() - i,
    {
        p.push(key[i]);
        assert(key@.take(i + 1) =~= key@.take(i as int).push(key@[i as int]));
        assert(seq!['"'] + key@.take(i + 1) =~= (seq!['"'] + key@.take(i as int)).push(key@[i as int]));
        i += 1;
    }
    assert(key@.take(key.len() as int) =~= key@);
    p.push('"');
    p.push(':');
    assert(p@ =~= json_key_pattern(key@));
    p
}

/// The characters of `key = `.
pub fn toml_key_pattern_exec(key: &[char]) -> (p: Vec<char>)
    ensures
        p@ == toml_key_pattern(key@),
{
    let mut p: Vec<char> = Vec::new();
    let mut i: usize = 0;
    while i < key.len()
        invariant
            i <= key.len(),
            p@ == key@.take(i as int),
        decreases key.len() - i,
    {
        p.push(key[i]);
        assert(key@.take(i + 1) =~= key@.take(i as int).push(key@[i as int]));
        i += 1;
    }
    assert(key@.take(key.len() as int) =~= key@);
    p.push(' ');
    p.push('=');
    p.push(' ');
    assert(p@ =~= toml_key_pattern(key@));
    p
}

/// The characters `s[a..b]`.
pub fn copy_range(s: &[char], a: usize, b: usize) -> (r: Vec<char>)
    requires
        a <= b <= s.len(),
    ensures
        r@ == s@.subrange(a as int, b as int),
{
    let mut r: Vec<char> = Vec::new();
    let mut i = a;
    while i < b
        invariant
            a <= i <= b <= s.len(),
            r@ == s@.subrange(a as int, i as int),
        decreases b - i,
    {
        r.push(s[i]);
        assert(s@.subrange(a as int, i as int).push(s@[i as int]) =~= s@.subrange(a as int, i + 1));
        i += 1;
    }
    r
}

proof fn lemma_token_end(s: Seq<char>, i: int, class: TokenClass)
    requires
        0 <= i <= s.len(),
    ensures
        i <= token_end(s, i, class) <= s.len(),
    decreases s.len() - i,
{
    if i < s.len() && in_class(s[i], class) {
        lemma_token_end(s, i + 1, class);
    }
}

proof fn lemma_skip_white_space_bound(s: Seq<char>, i: int)
    requires
        0 <= i <= s.len(),
    ensures
        i <= skip_white_space(s, i) <= s.len(),
    decreases s.len() - i,
{
    if i < s.len() && is_white_space(s[i]) {
        lemma_skip_white_space_bound(s, i + 1);
    }
}

/// The token of class `class` after the white space at `pos`.
pub fn token_at_exec(s: &[char], pos: usize, class: TokenClass) -> (t: Vec<char>)
    requires
        pos <= s.len(),
    ensures
        t@ == token_at(s@, pos as int, class),
{
    proof {
        lemma_skip_white_space_bound(s@, pos as int);
    }
    let mut a = pos;
    while a < s.len() && is_white_space_exec(s[a])
        invariant
            pos <= a <= s.len(),
            skip_white_space(s@, pos as int) == skip_white_space(s@, a as int),
        decreases s.len() - a,
    {
        a += 1;
    }
    proof {
        lemma_token_end(s@, a as int, class);
    }
    let mut b = a;
    while b < s.len() && in_class_exec(s[b], class)
        invariant
            a <= b <= s.len(),
            token_end(s@, a as int, class) == token_end(s@, b as int, class),
        decreases s.len() - b,
    {
        b += 1;
    }
    copy_range(s, a, b)
}

/// The token after the first occurrence of `pattern`, if any.
pub fn scan_token_exec(s: &[char], pattern: &[char], class: TokenClass) -> (r: Option<Vec<char>>)
    ensures
        match r {
            Some(t) => scan_token(s@, pattern@, class) == Some(t@),
            None => scan_token(s@, pattern@, class) is None,
        },
{
    match find_exec(s, pattern) {
        None => None,
        Some(p) => {
            proof {
                lemma_find_from(s@, pattern@, 0);
                assert(find_from(s@, pattern@, 0) == Some(p as int));
                assert(occurs_at(s@, pattern@, p as int));
                assert(p + pattern@.len() <= s@.len());
            }
            let plen = pattern.len();
            let slen = s.len();
            assert(slen == s@.len());
            let end: usize = p + plen;
            Some(token_at_exec(s, end, class))
        },
    }
}

/// The token after `"key":` in `raw` (`None` when that form is absent), as the
/// first step of every number lookup; the second step, after `key = `, is
/// `toml_value_token`.
pub fn json_value_token(raw: &str, key: &str, class: TokenClass) -> (r: Option<String>)
    ensures
        match r {
            Some(t) => scan_token(raw@, json_key_pattern(key@), class) == Some(t@),
            None => scan_token(raw@, json_key_pattern(key@), class) is None,
        },
{
    let s = chars_of(raw);
    let k = chars_of(key);
    let p = json_key_pattern_exec(k.as_slice());
    match scan_token_exec(s.as_slice(), p.as_slice(), class) {
        Some(t) => Some(string_of(t.as_slice())),
        None => None,
    }
}

/// The token after `key = ` in `raw`, if that form occurs.
pub fn toml_value_token(raw: &str, key: &str, class: TokenClass) -> (r: Option<String>)
    ensures
        match r {
            Some(t) => scan_token(raw@, toml_key_pattern(key@), class) == Some(t@),
            None => scan_token(raw@, toml_key_pattern(key@), class) is None,
        },
{
    let s = chars_of(raw);
    let k = chars_of(key);
    let p = toml_key_pattern_exec(k.as_slice());
    match scan_token_exec(s.as_slice(), p.as_slice(), class) {
        Some(t) => Some(string_of(t.as_slice())),
        None => None,
    }
}


fn json_then_toml_tokens(raw: &str, key: &str, class: TokenClass) -> (r: (
    Option<Vec<char>>,
    Option<Vec<char>>,
))
    ensures
        match r.0 {
            Some(t) => scan_token(raw@, json_key_pattern(key@), class) == Some(t@),
            None => scan_token(raw@, json_key_pattern(key@), class) is None,
        },
        match r.1 {
            Some(t) => scan_token(raw@, toml_key_pattern(key@), class) == Some(t@),
            None => scan_token(raw@, toml_key_pattern(key@), class) is None,
        },
{
    let s = chars_of(raw);
    let k = chars_of(key);
    let jp = json_key_pattern_exec(k.as_slice());
    let tp = toml_key_pattern_exec(k.as_slice());
    (scan_token_exec(s.as_slice(), jp.as_slice(), class), scan_token_exec(s.as_slice(), tp.as_slice(), class))
}

/// The unsigned 64-bit value of `key` in `raw`.
pub fn extract_u64_value(raw: &str, key: &str) -> (r: Option<u64>)
    ensures
        match r {
            Some(v) => spec_extract_u64(raw@, key@) == Some(v as int),
            None => spec_extract_u64(raw@, key@) is None,
        },
{
    let (json_tok, toml_tok) = json_then_toml_tokens(raw, key, TokenClass::Unsigned);
    match json_tok {
        None => None,
        Some(t) => match parse_unsigned_exec(t.as_slice(), u64::MAX) {
            Some(v) => Some(v),
            None => match toml_tok {
                None => None,
                Some(t2) => parse_unsigned_exec(t2.as_slice(), u64::MAX),
            },
        },
    }
}

/// The unsigned 32-bit value of `key` in `raw`.
pub fn extract_u32_value(raw: &str, key: &str) -> (r: Option<u32>)
    ensures
        match r {
            Some(v) => spec_extract_u32(raw@, key@) == Some(v as int),
            None => spec_extract_u32(raw@, key@) is None,
        },
{
    let (json_tok, toml_tok) = json_then_toml_tokens(raw, key, TokenClass::Unsigned);
    let parsed = match json_tok {
        None => None,
        Some(t) => match parse_unsigned_exec(t.as_slice(), u32::MAX as u64) {
            Some(v) => Some(v),
            None => match toml_tok {
                None => None,
                Some(t2) => parse_unsigned_exec(t2.as_slice(), u32::MAX as u64),
            },
        },
    };
    match parsed {
        Some(v) => Some(v as u32),
        None => None,
    }
}

fn signed_to_i32(p: Option<(bool, u64)>) -> (r: Option<i32>)
    requires
        match p {
            Some((neg, m)) => if neg {
                m <= 0x8000_0000
            } else {
                m <= 0x7fff_ffff
            },
            None => true,
        },
    ensures
        match p {
            Some((neg, m)) => r == Some(
                (if neg {
                    -(m as int)
                } else {
                    m as int
                }) as i32,
            ),
            None => r is None,
        },
{
    match p {
        Some((neg, m)) => {
            if neg {
                Some((0i64 - m as i64) as i32)
            } else {
                Some(m as i32)
            }
        },
        None => None,
    }
}

/// The signed 32-bit value of `key` in `raw`.
pub fn extract_i32_value(raw: &str, key: &str) -> (r: Option<i32>)
    ensures
        match r {
            Some(v) => spec_extract_i32(raw@, key@) == Some(v as int),
            None => spec_extract_i32(raw@, key@) is None,
        },
{
    let (json_tok, toml_tok) = json_then_toml_tokens(raw, key, TokenClass::Signed);
    match json_tok {
        None => None,
        Some(t) => match parse_signed_exec(t.as_slice(), 0x8000_0000, 0x7fff_ffff) {
            Some(p) => signed_to_i32(Some(p)),
            None => match toml_tok {
                None => None,
                Some(t2) => signed_to_i32(parse_signed_exec(t2.as_slice(), 0x8000_0000, 0x7fff_ffff)),
            },
        },
    }
}

fn read_bool_exec(t: &[char]) -> (r: Option<bool>)
    ensures
        r == read_bool(t@),
{
    let tr = ['t', 'r', 'u', 'e'];
    let fa = ['f', 'a', 'l', 's', 'e'];
    if t.len() == 4 && t[0] == 't' && t[1] == 'r' && t[2] == 'u' && t[3] == 'e' {
        assert(t@ =~= seq!['t', 'r', 'u', 'e']);
        Some(true)
    } else if t.len() == 5 && t[0] == 'f' && t[1] == 'a' && t[2] == 'l' && t[3] == 's' && t[4]
        == 'e' {
        assert(t@ =~= seq!['f', 'a', 'l', 's', 'e']);
        Some(false)
    } else {
        proof {
            if t@ == seq!['t', 'r', 'u', 'e'] {
                assert(t@[0] == 't' && t@[1] == 'r' && t@[2] == 'u' && t@[3] == 'e');
            }
            if t@ == seq!['f', 'a', 'l', 's', 'e'] {
                assert(t@[0] == 'f' && t@[1] == 'a' && t@[2] == 'l' && t@[3] == 's' && t@[4] == 'e');
            }
        }
        None
    }
}

/// The boolean value (`true` / `false`) of `key` in `raw`.
pub fn extract_bool_value(raw: &str, key: &str) -> (r: Option<bool>)
    ensures
        r == spec_extract_bool(raw@, key@),
{
    let (json_tok, toml_tok) = json_then_toml_tokens(raw, key, TokenClass::Alphabetic);
    match json_tok {
        None => None,
        Some(t) => match read_bool_exec(t.as_slice()) {
            Some(v) => Some(v),
            None => match toml_tok {
                None => None,
                Some(t2) => read_bool_exec(t2.as_slice()),
            },
        },
    }
}

/// The first position of `c` at or after `from`.
pub fn find_char_from(s: &[char], c: char, from: usize) -> (r: Option<usize>)
    ensures
        match r {
            Some(p) => find_from(s@, seq![c], from as int) == Some(p as int),
            None => find_from(s@, seq![c], from as int) is None,
        },
{
    let mut pat: Vec<char> = Vec::new();
    pat.push(c);
    assert(pat@ =~= seq![c]);
    find_from_exec(s, pat.as_slice(), from)
}

/// The text between the first two double quotes at or after `pos`.
pub fn quoted_from_exec(s: &[char], pos: usize) -> (r: Option<Vec<char>>)
    ensures
        match r {
            Some(t) => quoted_from(s@, pos as int) == Some(t@),
            None => quoted_from(s@, pos as int) is None,
        },
{
    match find_char_from(s, '"', pos) {
        None => None,
        Some(q) => {
            proof {
                lemma_find_from(s@, seq!['"'], pos as int);
            }
            let slen = s.len();
            assert(q < slen);
            match find_char_from(s, '"', q + 1) {
                None => None,
                Some(e) => {
                    proof {
                        lemma_find_from(s@, seq!['"'], q + 1);
                    }
                    assert(e < slen);
                    Some(copy_range(s, q + 1, e))
                },
            }
        },
    }
}

/// The position just past the first occurrence of `pattern`, if any.
fn after_first(s: &[char], pattern: &[char]) -> (r: Option<usize>)
    ensures
        match r {
            Some(e) => find(s@, pattern@) is Some && e == find(s@, pattern@)->0 + pattern@.len()
                && e <= s@.len(),
            None => find(s@, pattern@) is None,
        },
{
    match find_exec(s, pattern) {
        None => None,
        Some(p) => {
            proof {
                lemma_find_from(s@, pattern@, 0);
                assert(find_from(s@, pattern@, 0) == Some(p as int));
            }
            let slen = s.len();
            assert(p + pattern@.len() <= slen);
            Some(p + pattern.len())
        },
    }
}

/// The string value of `key` in `raw`: the quoted text after `"key":`, or
/// after `key = ` when the JSON form is absent.
pub fn extract_string_value(raw: &str, key: &str) -> (r: Option<String>)
    ensures
        match r {
            Some(v) => spec_extract_string(raw@, key@) == Some(v@),
            None => spec_extract_string(raw@, key@) is None,
        },
{
    let s = chars_of(raw);
    let k = chars_of(key);
    let jp = json_key_pattern_exec(k.as_slice());
    let found = match after_first(s.as_slice(), jp.as_slice()) {
        Some(e) => quoted_from_exec(s.as_slice(), e),
        None => {
            let tp = toml_key_pattern_exec(k.as_slice());
            match after_first(s.as_slice(), tp.as_slice()) {
                Some(e) => quoted_from_exec(s.as_slice(), e),
                None => None,
            }
        },
    };
    match found {
        Some(t) => Some(string_of(t.as_slice())),
        None => None,
    }
}

} // verus!
