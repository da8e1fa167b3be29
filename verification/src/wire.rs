//! Text building blocks of the realtime services' wire format: JSON string
//! escaping, URL percent-encoding, lenient JSON field lookup and PCM16 frame
//! decoding.

use vstd::prelude::*;
use vstd::string::StringSliceAdditionalSpecFns;
use crate::scan::{copy_range, find_char_from, json_key_pattern, json_key_pattern_exec, quoted_from, quoted_from_exec};
use crate::text::{chars_of, find_from, find_from_exec, lemma_find_from, push_char, string_of};

verus! {

/// The escape of one character in a JSON string body. With `control`, other
/// characters below U+0020 become `\u00XX` escapes (lower-case hex).
pub open spec fn escape_char(c: char, control: bool) -> Seq<char> {
    if c == '\\' {
        seq!['\\', '\\']
    } else if c == '"' {
        seq!['\\', '"']
    } else if c == '\n' {
        seq!['\\', 'n']
    } else if c == '\r' {
        seq!['\\', 'r']
    } else if c == '\t' {
        seq!['\\', 't']
    } else if control && (c as u32) < 0x20 {
        seq!['\\', 'u', '0', '0', hex_digit(((c as u32) / 16) as u8, false), hex_digit(((c as u32) % 16) as u8, false)]
    } else {
        seq![c]
    }
}

/// The hexadecimal digit for `d < 16`, upper- or lower-case.
pub open spec fn hex_digit(d: u8, upper: bool) -> char {
    if d < 10 {
        ((48 + d) as u8) as char
    } else if upper {
        ((55 + d) as u8) as char
    } else {
        ((87 + d) as u8) as char
    }
}

fn hex_digit_exec(d: u8, upper: bool) -> (c: char)
    requires
        d < 16,
    ensures
        c == hex_digit(d, upper),
{
    if d < 10 {
        (48 + d) as char
    } else if upper {
        (55 + d) as char
    } else {
        (87 + d) as char
    }
}

/// The JSON string body of `s`.
pub open spec fn json_escaped(s: Seq<char>, control: bool) -> Seq<char>
    decreases s.len(),
{
    if s.len() == 0 {
        Seq::empty()
    } else {
        json_escaped(s.drop_last(), control) + escape_char(s.last(), control)
    }
}

/// Appends every character of `v` to `s`.
pub fn push_seq(s: &mut String, v: &[char])
    ensures
        final(s)@ == old(s)@ + v@,
{
    let ghost s0 = s@;
    let mut i: usize = 0;
    while i < v.len()
        invariant
            i <= v.len(),
            s@ == s0 + v@.take(i as int),
        decreases v.len() - i,
    {
        push_char(s, v[i]);
        assert(s0 + v@.take(i + 1) =~= (s0 + v@.take(i as int)).push(v@[i as int]));
        i += 1;
    }
    assert(v@.take(v.len() as int) =~= v@);
}

fn push_escaped_char(out: &mut String, c: char, control: bool)
    ensures
        final(out)@ == old(out)@ + escape_char(c, control),
{
    let ghost o = out@;
    if c == '\\' {
        push_char(out, '\\');
        push_char(out, '\\');
    } else if c == '"' {
        push_char(out, '\\');
        push_char(out, '"');
    } else if c == '\n' {
        push_char(out, '\\');
        push_char(out, 'n');
    } else if c == '\r' {
        push_char(out, '\\');
        push_char(out, 'r');
    } else if c == '\t' {
        push_char(out, '\\');
        push_char(out, 't');
    } else if control && (c as u32) < 0x20 {
        let u = c as u32;
        push_char(out, '\\');
        push_char(out, 'u');
        push_char(out, '0');
        push_char(out, '0');
        push_char(out, hex_digit_exec((u / 16) as u8, false));
        push_char(out, hex_digit_exec((u % 16) as u8, false));
    } else {
        push_char(out, c);
    }
    assert(out@ =~= o + escape_char(c, control));
}

/// Appends the JSON string body of `value` to `out`.
pub fn push_json_escaped(out: &mut String, value: &str, control: bool)
    ensures
        final(out)@ == old(out)@ + json_escaped(value@, control),
{
    let v = chars_of(value);
    let ghost o = out@;
    let mut i: usize = 0;
    assert(v@.take(0) =~= Seq::<char>::empty());
    while i < v.len()
        invariant
            i <= v.len(),
            v@ == value@,
            out@ == o + json_escaped(v@.take(i as int), control),
        decreases v.len() - i,
    {
        push_escaped_char(out, v[i], control);
        assert(v@.take(i + 1).drop_last() =~= v@.take(i as int));
        assert(o + json_escaped(v@.take(i + 1), control) =~= o + json_escaped(v@.take(i as int), control)
            + escape_char(v@[i as int], control));
        i += 1;
    }
    assert(v@.take(v.len() as int) =~= v@);
}

/// The JSON string body of `value` (backslash, quote, newline, carriage return
/// and tab escaped).
pub fn json_escape(value: &str) -> (r: String)
    ensures
        r@ == json_escaped(value@, false),
{
    let mut out = String::new();
    push_json_escaped(&mut out, value, false);
    out
}

/// The JSON string body of `value`, with other control characters written as
/// `\u00XX` escapes.
pub fn escape_json(input: &str) -> (r: String)
    ensures
        r@ == json_escaped(input@, true),
{
    let mut out = String::new();
    push_json_escaped(&mut out, input, true);
    out
}

/// Whether a byte stays as it is in a URL query value.
pub open spec fn is_unreserved(b: u8) -> bool {
    (65 <= b <= 90) || (97 <= b <= 122) || (48 <= b <= 57) || b == 45 || b == 95 || b == 46 || b
        == 126
}

/// The percent-encoding of one byte.
pub open spec fn percent_byte(b: u8) -> Seq<char> {
    if is_unreserved(b) {
        seq![b as char]
    } else {
        seq!['%', hex_digit(b / 16, true), hex_digit(b % 16, true)]
    }
}

/// The percent-encoding of `bytes`.
pub open spec fn percent_encoding(bytes: Seq<u8>) -> Seq<char>
    decreases bytes.len(),
{
    if bytes.len() == 0 {
        Seq::empty()
    } else {
        percent_encoding(bytes.drop_last()) + percent_byte(bytes.last())
    }
}

/// Percent-encodes the UTF-8 bytes of `value`, keeping `A-Z a-z 0-9 - _ . ~`.
pub fn percent_encode(value: &str) -> (r: String)
    ensures
        r@ == percent_encoding(value.spec_bytes()),
{
    let bytes = value.as_bytes();
    let mut out = String::new();
    let mut i: usize = 0;
    assert(bytes@.take(0) =~= Seq::<u8>::empty());
    while i < bytes.len()
        invariant
            i <= bytes@.len(),
            bytes@ == value.spec_bytes(),
            out@ == percent_encoding(bytes@.take(i as int)),
        decreases bytes.len() - i,
    {
        let b = bytes[i];
        let ghost o = out@;
        if (65 <= b && b <= 90) || (97 <= b && b <= 122) || (48 <= b && b <= 57) || b == 45 || b == 95
            || b == 46 || b == 126 {
            push_char(&mut out, b as char);
        } else {
            push_char(&mut out, '%');
            push_char(&mut out, hex_digit_exec(b / 16, true));
            push_char(&mut out, hex_digit_exec(b % 16, true));
        }
        assert(out@ =~= o + percent_byte(b));
        assert(bytes@.take(i + 1).drop_last() =~= bytes@.take(i as int));
        i += 1;
    }
    assert(bytes@.take(bytes@.len() as int) =~= bytes@);
    out
}

/// `s` without its trailing `/` characters.
pub open spec fn trim_end_slashes(s: Seq<char>) -> Seq<char>
    decreases s.len(),
{
    if s.len() > 0 && s.last() == '/' {
        trim_end_slashes(s.drop_last())
    } else {
        s
    }
}

/// Appends `s` without its trailing `/` characters to `out`.
pub fn push_trim_end_slashes(out: &mut String, s: &str)
    ensures
        final(out)@ == old(out)@ + trim_end_slashes(s@),
{
    let v = chars_of(s);
    let mut n = v.len();
    assert(v@.take(n as int) =~= v@);
    while n > 0 && v[n - 1] == '/'
        invariant
            n <= v.len(),
            v@ == s@,
            trim_end_slashes(s@) == trim_end_slashes(v@.take(n as int)),
        decreases n,
    {
        assert(v@.take(n as int).drop_last() =~= v@.take(n - 1));
        n -= 1;
    }
    assert(v@.take(v.len() as int) =~= v@);
    let t = copy_range(v.as_slice(), 0, n);
    assert(v@.subrange(0, n as int) =~= v@.take(n as int));
    push_seq(out, t.as_slice());
}

/// The quoted value after the first `"key":` at or after `from`.
pub open spec fn json_string_from(raw: Seq<char>, key: Seq<char>, from: int) -> Option<Seq<char>> {
    let jp = json_key_pattern(key);
    match find_from(raw, jp, from) {
        Some(p) => quoted_from(raw, p + jp.len()),
        None => None,
    }
}

/// The quoted value after the first `"key":`.
pub open spec fn json_string(raw: Seq<char>, key: Seq<char>) -> Option<Seq<char>> {
    json_string_from(raw, key, 0)
}

/// The quoted value of `key` inside the first object that follows `"parent":`.
pub open spec fn nested_json_string(raw: Seq<char>, parent: Seq<char>, key: Seq<char>) -> Option<
    Seq<char>,
> {
    let pp = json_key_pattern(parent);
    match find_from(raw, pp, 0) {
        None => None,
        Some(p) => match find_from(raw, seq!['{'], p + pp.len()) {
            None => None,
            Some(o) => json_string_from(raw, key, o),
        },
    }
}

fn json_string_from_exec(raw: &[char], key: &str, from: usize) -> (r: Option<String>)
    requires
        from <= raw@.len(),
    ensures
        match r {
            Some(v) => json_string_from(raw@, key@, from as int) == Some(v@),
            None => json_string_from(raw@, key@, from as int) is None,
        },
{
    let k = chars_of(key);
    let jp = json_key_pattern_exec(k.as_slice());
    match find_from_exec(raw, jp.as_slice(), from) {
        None => None,
        Some(p) => {
            proof {
                lemma_find_from(raw@, jp@, from as int);
            }
            let rlen = raw.len();
            assert(p + jp@.len() <= rlen);
            match quoted_from_exec(raw, p + jp.len()) {
                Some(t) => Some(string_of(t.as_slice())),
                None => None,
            }
        },
    }
}

/// The quoted value after the first `"key":` in `raw`.
pub fn extract_json_string(raw: &str, key: &str) -> (r: Option<String>)
    ensures
        match r {
            Some(v) => json_string(raw@, key@) == Some(v@),
            None => json_string(raw@, key@) is None,
        },
{
    let s = chars_of(raw);
    json_string_from_exec(s.as_slice(), key, 0)
}

/// The quoted value of `key` inside the object that follows `"parent":`.
pub fn extract_nested_json_string(raw: &str, parent: &str, key: &str) -> (r: Option<String>)
    ensures
        match r {
            Some(v) => nested_json_string(raw@, parent@, key@) == Some(v@),
            None => nested_json_string(raw@, parent@, key@) is None,
        },
{
    let s = chars_of(raw);
    let pk = chars_of(parent);
    let pp = json_key_pattern_exec(pk.as_slice());
    match find_from_exec(s.as_slice(), pp.as_slice(), 0) {
        None => None,
        Some(p) => {
            proof {
                lemma_find_from(s@, pp@, 0);
            }
            let slen = s.len();
            assert(p + pp@.len() <= slen);
            match find_char_from(s.as_slice(), '{', p + pp.len()) {
                None => None,
                Some(o) => {
                    proof {
                        lemma_find_from(s@, seq!['{'], p + pp@.len());
                    }
                    json_string_from_exec(s.as_slice(), key, o)
                },
            }
        },
    }
}

/// The signed 16-bit samples that little-endian byte pairs of `bytes` encode;
/// a trailing odd byte is ignored.
pub open spec fn pcm16le_samples(bytes: Seq<u8>) -> Seq<i16> {
    Seq::new(bytes.len() / 2, |i: int| ((bytes[2 * i] as u16) | ((bytes[2 * i + 1] as u16) << 8)) as i16)
}

/// Decodes little-endian 16-bit samples, ignoring a trailing odd byte.
pub fn pcm16le_bytes_to_i16(bytes: &[u8]) -> (r: Vec<i16>)
    ensures
        r@ == pcm16le_samples(bytes@),
{
    let blen = bytes.len();
    let n = blen / 2;
    let mut out: Vec<i16> = Vec::new();
    let mut i: usize = 0;
    while i < n
        invariant
            i <= n,
            blen == bytes@.len(),
            n == bytes@.len() / 2,
            out@ == pcm16le_samples(bytes@).take(i as int),
        decreases n - i,
    {
        assert(2 * i + 1 < bytes@.len());
        let lo = bytes[2 * i];
        let hi = bytes[2 * i + 1];
        let v = ((lo as u16) | ((hi as u16) << 8)) as i16;
        out.push(v);
        assert(pcm16le_samples(bytes@).take(i + 1) =~= pcm16le_samples(bytes@).take(i as int).push(v));
        i += 1;
    }
    assert(pcm16le_samples(bytes@).take(n as int) =~= pcm16le_samples(bytes@));
    out
}

/// The little-endian bytes of 16-bit samples.
pub open spec fn pcm16le_bytes(samples: Seq<i16>) -> Seq<u8> {
    Seq::new(
        samples.len() * 2,
        |j: int|
            if j % 2 == 0 {
                (samples[j / 2] as u16) as u8
            } else {
                ((samples[j / 2] as u16) >> 8) as u8
            },
    )
}

/// Encodes 16-bit samples as little-endian bytes.
pub fn pcm16_to_le_bytes(samples: &[i16]) -> (r: Vec<u8>)
    requires
        samples@.len() * 2 <= usize::MAX,
    ensures
        r@ == pcm16le_bytes(samples@),
{
    let mut out: Vec<u8> = Vec::new();
    let mut i: usize = 0;
    while i < samples.len()
        invariant
            i <= samples@.len(),
            samples@.len() * 2 <= usize::MAX,
            out@ == pcm16le_bytes(samples@).take(2 * i as int),
        decreases samples.len() - i,
    {
        let u = samples[i] as u16;
        out.push(u as u8);
        out.push((u >> 8) as u8);
        assert(pcm16le_bytes(samples@).take(2 * i as int + 2) =~= pcm16le_bytes(samples@).take(2 * i as int).push(
            u as u8,
        ).push((u >> 8) as u8));
        i += 1;
    }
    assert(pcm16le_bytes(samples@).take((2 * samples@.len()) as int) =~= pcm16le_bytes(samples@));
    out
}

/// Decoding the little-endian bytes of samples gives the samples back.
pub proof fn lemma_pcm16_round_trip(samples: Seq<i16>)
    ensures
        pcm16le_samples(pcm16le_bytes(samples)) == samples,
{
    let b = pcm16le_bytes(samples);
    assert forall|i: int| 0 <= i < samples.len() implies #[trigger] pcm16le_samples(b)[i]
        == samples[i] by {
        let s = samples[i];
        assert(b[2 * i] == (s as u16) as u8);
        assert(b[2 * i + 1] == ((s as u16) >> 8) as u8);
        assert((((s as u16) as u8) as u16 | ((((s as u16) >> 8) as u8) as u16) << 8) as i16 == s)
            by (bit_vector);
    }
    assert(pcm16le_samples(b) =~= samples);
}


/// A quoted value found in `raw` is no longer than `raw`.
pub proof fn lemma_json_string_len(raw: Seq<char>, key: Seq<char>)
    ensures
        json_string(raw, key) matches Some(d) ==> d.len() <= raw.len(),
{
    let jp = json_key_pattern(key);
    lemma_find_from(raw, jp, 0);
    if let Some(p) = find_from(raw, jp, 0) {
        let pos = p + jp.len();
        lemma_find_from(raw, seq!['"'], pos);
        if let Some(q) = find_from(raw, seq!['"'], pos) {
            lemma_find_from(raw, seq!['"'], q + 1);
        }
    }
}

} // verus!
