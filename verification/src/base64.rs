//! Standard Base64 (RFC 4648 alphabet, `=` padding) for the audio payloads
//! exchanged with realtime translation services.

use vstd::prelude::*;
use crate::config::EngineError;
use crate::text::{chars_of, push_char};

verus! {

/// The Base64 character for the six-bit value `v`.
pub open spec fn b64_char(v: u8) -> char {
    if v < 26 {
        ((65 + v) as u8) as char
    } else if v < 52 {
        ((97 + (v - 26)) as u8) as char
    } else if v < 62 {
        ((48 + (v - 52)) as u8) as char
    } else if v == 62 {
        '+'
    } else {
        '/'
    }
}

/// The value of a Base64 character; `=` stands for 64.
pub open spec fn b64_value(c: char) -> Option<u8> {
    let u = c as u32;
    if 65 <= u <= 90 {
        Some((u - 65) as u8)
    } else if 97 <= u <= 122 {
        Some((u - 97 + 26) as u8)
    } else if 48 <= u <= 57 {
        Some((u - 48 + 52) as u8)
    } else if c == '+' {
        Some(62u8)
    } else if c == '/' {
        Some(63u8)
    } else if c == '=' {
        Some(64u8)
    } else {
        None
    }
}

/// The four characters that encode the bytes `g` (one to three of them).
pub open spec fn encode_group(g: Seq<u8>) -> Seq<char> {
    let b0 = g[0];
    let b1: u8 = if g.len() > 1 {
        g[1]
    } else {
        0
    };
    let b2: u8 = if g.len() > 2 {
        g[2]
    } else {
        0
    };
    seq![
        b64_char(b0 >> 2),
        b64_char(((b0 & 0x03) << 4) | (b1 >> 4)),
        if g.len() > 1 {
            b64_char(((b1 & 0x0F) << 2) | (b2 >> 6))
        } else {
            '='
        },
        if g.len() > 2 {
            b64_char(b2 & 0x3F)
        } else {
            '='
        },
    ]
}

/// The Base64 encoding of `bytes`.
pub open spec fn base64_encoding(bytes: Seq<u8>) -> Seq<char>
    decreases bytes.len(),
{
    if bytes.len() == 0 {
        Seq::empty()
    } else if bytes.len() <= 3 {
        encode_group(bytes)
    } else {
        encode_group(bytes.take(3)) + base64_encoding(bytes.skip(3))
    }
}

/// The bytes that the four Base64 values `v0..v3` stand for; a 64 (padding)
/// in the third or fourth place drops the byte it would complete.
pub open spec fn decode_group(v0: u8, v1: u8, v2: u8, v3: u8) -> Seq<u8> {
    let first = seq![((v0 << 2) | (v1 >> 4)) as u8];
    let second = if v2 != 64 {
        first.push(((v1 << 4) | (v2 >> 2)) as u8)
    } else {
        first
    };
    if v3 != 64 {
        second.push(((v2 << 6) | v3) as u8)
    } else {
        second
    }
}

/// Characters that decoding passes over.
pub open spec fn is_b64_skip(c: char) -> bool {
    c == '\r' || c == '\n' || c == ' '
}

/// The values of the characters of `s` that are not passed over.
pub open spec fn b64_values(s: Seq<char>) -> Seq<u8>
    decreases s.len(),
{
    if s.len() == 0 {
        Seq::empty()
    } else if is_b64_skip(s.last()) {
        b64_values(s.drop_last())
    } else {
        b64_values(s.drop_last()).push(
            match b64_value(s.last()) {
                Some(v) => v,
                None => 0,
            },
        )
    }
}

/// The bytes that complete groups of four values stand for.
pub open spec fn decode_values(v: Seq<u8>) -> Seq<u8>
    decreases v.len(),
{
    if v.len() < 4 {
        Seq::empty()
    } else {
        decode_group(v[0], v[1], v[2], v[3]) + decode_values(v.skip(4))
    }
}

/// Whether every character of `s` is passed over or is a Base64 character.
pub open spec fn all_b64(s: Seq<char>) -> bool {
    forall|i: int| 0 <= i < s.len() && !is_b64_skip(s[i]) ==> (#[trigger] b64_value(s[i])) is Some
}

/// Why a Base64 text does not decode.
pub enum Base64Failure {
    InvalidCharacter,
    InvalidLength,
}

/// Decoding `s`: a character outside the alphabet (after passing over CR, LF
/// and space) is refused; otherwise a count of values that is not a multiple
/// of four is refused; otherwise the groups are decoded in order.
pub open spec fn spec_base64_decode(s: Seq<char>) -> Result<Seq<u8>, Base64Failure> {
    if !all_b64(s) {
        Err(Base64Failure::InvalidCharacter)
    } else if b64_values(s).len() % 4 != 0 {
        Err(Base64Failure::InvalidLength)
    } else {
        Ok(decode_values(b64_values(s)))
    }
}

/// The error text of each decoding failure.
pub open spec fn base64_failure_message(f: Base64Failure) -> Seq<char> {
    match f {
        Base64Failure::InvalidCharacter => "invalid base64 character"@,
        Base64Failure::InvalidLength => "invalid base64 payload length"@,
    }
}

fn b64_char_exec(v: u8) -> (c: char)
    requires
        v < 64,
    ensures
        c == b64_char(v),
{
    if v < 26 {
        (65 + v) as char
    } else if v < 52 {
        (97 + (v - 26)) as char
    } else if v < 62 {
        (48 + (v - 52)) as char
    } else if v == 62 {
        '+'
    } else {
        '/'
    }
}

proof fn lemma_encode_snoc(b: Seq<u8>, i: int)
    requires
        0 <= i < b.len(),
        i % 3 == 0,
    ensures
        base64_encoding(b.take(if i + 3 < b.len() { i + 3 } else { b.len() as int }))
            == base64_encoding(b.take(i)) + encode_group(
            b.subrange(i, if i + 3 < b.len() { i + 3 } else { b.len() as int }),
        ),
    decreases i,
{
    let e = if i + 3 < b.len() {
        i + 3
    } else {
        b.len() as int
    };
    if i == 0 {
        assert(b.take(0) =~= Seq::<u8>::empty());
        assert(b.take(e) =~= b.subrange(0, e));
        assert(base64_encoding(b.take(0)) =~= Seq::<char>::empty());
        assert(Seq::<char>::empty() + encode_group(b.subrange(0, e)) =~= encode_group(
            b.subrange(0, e),
        ));
    } else {
        let t = b.skip(3);
        lemma_encode_snoc(t, i - 3);
        let e2 = if i - 3 + 3 < t.len() {
            i
        } else {
            t.len() as int
        };
        assert(e2 == e - 3);
        assert(t.take(e2) =~= b.take(e).skip(3));
        assert(t.take(i - 3) =~= b.take(i).skip(3));
        assert(t.subrange(i - 3, e2) =~= b.subrange(i, e));
        assert(b.take(e).take(3) =~= b.take(3));
        assert(b.take(i).take(3) =~= b.take(3));
        assert(base64_encoding(b.take(e)) == encode_group(b.take(3)) + base64_encoding(
            b.take(e).skip(3),
        ));
        if i == 3 {
            assert(b.take(i).len() == 3);
            assert(base64_encoding(b.take(i)) == encode_group(b.take(3)));
            assert(t.take(0) =~= Seq::<u8>::empty());
            assert(base64_encoding(t.take(0)) =~= Seq::<char>::empty());
        } else {
            assert(base64_encoding(b.take(i)) == encode_group(b.take(3)) + base64_encoding(
                b.take(i).skip(3),
            ));
        }
        assert((encode_group(b.take(3)) + base64_encoding(t.take(i - 3))) + encode_group(
            b.subrange(i, e),
        ) =~= encode_group(b.take(3)) + (base64_encoding(t.take(i - 3)) + encode_group(
            b.subrange(i, e),
        )));
    }
}

/// The Base64 encoding of `bytes`.
pub fn base64_encode(bytes: &[u8]) -> (r: String)
    ensures
        r@ == base64_encoding(bytes@),
{
    let mut encoded = String::new();
    let mut index: usize = 0;
    let n = bytes.len();
    assert(bytes@.take(0) =~= Seq::<u8>::empty());
    while index < n
        invariant
            n == bytes@.len(),
            index % 3 == 0,
            index <= n + 2,
            index < n ==> encoded@ == base64_encoding(bytes@.take(index as int)),
            index >= n ==> encoded@ == base64_encoding(bytes@),
        decreases n + 3 - index,
    {
        let b0 = bytes[index];
        let b1 = if index + 1 < n {
            bytes[index + 1]
        } else {
            0
        };
        let b2 = if index + 2 < n {
            bytes[index + 2]
        } else {
            0
        };
        let ghost e = if index + 3 < n {
            index + 3
        } else {
            n as int
        };
        let ghost g = bytes@.subrange(index as int, e);
        proof {
            lemma_encode_snoc(bytes@, index as int);
        }
        let ghost before = encoded@;
        assert(b0 >> 2 < 64) by (bit_vector);
        assert(((b0 & 0x03) << 4) | (b1 >> 4) < 64) by (bit_vector);
        assert(((b1 & 0x0F) << 2) | (b2 >> 6) < 64) by (bit_vector);
        assert(b2 & 0x3F < 64) by (bit_vector);
        push_char(&mut encoded, b64_char_exec(b0 >> 2));
        push_char(&mut encoded, b64_char_exec(((b0 & 0x03) << 4) | (b1 >> 4)));
        if index + 1 < n {
            push_char(&mut encoded, b64_char_exec(((b1 & 0x0F) << 2) | (b2 >> 6)));
        } else {
            push_char(&mut encoded, '=');
        }
        if index + 2 < n {
            push_char(&mut encoded, b64_char_exec(b2 & 0x3F));
        } else {
            push_char(&mut encoded, '=');
        }
        assert(g[0] == b0);
        assert(g.len() > 1 ==> g[1] == b1);
        assert(g.len() > 2 ==> g[2] == b2);
        assert(encoded@ =~= before + encode_group(g));
        assert(bytes@.take(e) =~= bytes@ || e < n);
        index += 3;
    }
    encoded
}

proof fn lemma_value_of_char(v: u8)
    requires
        v < 64,
    ensures
        b64_value(b64_char(v)) == Some(v),
        !is_b64_skip(b64_char(v)),
{
}

proof fn lemma_group_round_trip(g: Seq<u8>)
    requires
        1 <= g.len() <= 3,
    ensures
        ({
            let e = encode_group(g);
            let v0 = b64_value(e[0])->0;
            let v1 = b64_value(e[1])->0;
            let v2 = b64_value(e[2])->0;
            let v3 = b64_value(e[3])->0;
            &&& forall|k: int| 0 <= k < 4 ==> b64_value(#[trigger] e[k]) is Some && !is_b64_skip(e[k])
            &&& decode_group(v0, v1, v2, v3) == g
        }),
{
    let b0 = g[0];
    let b1: u8 = if g.len() > 1 {
        g[1]
    } else {
        0
    };
    let b2: u8 = if g.len() > 2 {
        g[2]
    } else {
        0
    };
    let c0: u8 = b0 >> 2;
    let c1: u8 = ((b0 & 0x03) << 4) | (b1 >> 4);
    let c2: u8 = ((b1 & 0x0F) << 2) | (b2 >> 6);
    let c3: u8 = b2 & 0x3F;
    assert(c0 < 64 && c1 < 64 && c2 < 64 && c3 < 64) by (bit_vector)
        requires
            c0 == b0 >> 2,
            c1 == ((b0 & 0x03) << 4) | (b1 >> 4),
            c2 == ((b1 & 0x0F) << 2) | (b2 >> 6),
            c3 == b2 & 0x3F,
    ;
    lemma_value_of_char(c0);
    lemma_value_of_char(c1);
    lemma_value_of_char(c2);
    lemma_value_of_char(c3);
    assert(((c0 << 2) | (c1 >> 4)) as u8 == b0) by (bit_vector)
        requires
            c0 == b0 >> 2,
            c1 == ((b0 & 0x03) << 4) | (b1 >> 4),
    ;
    assert(((c1 << 4) | (c2 >> 2)) as u8 == b1) by (bit_vector)
        requires
            c1 == ((b0 & 0x03) << 4) | (b1 >> 4),
            c2 == ((b1 & 0x0F) << 2) | (b2 >> 6),
    ;
    assert(((c2 << 6) | c3) as u8 == b2) by (bit_vector)
        requires
            c2 == ((b1 & 0x0F) << 2) | (b2 >> 6),
            c3 == b2 & 0x3F,
    ;
    let e = encode_group(g);
    assert(b64_value('=') == Some(64u8));
    if g.len() == 1 {
        assert(decode_group(c0, c1, 64, 64) =~= g);
    } else if g.len() == 2 {
        assert(decode_group(c0, c1, c2, 64) =~= g);
    } else {
        assert(decode_group(c0, c1, c2, c3) =~= g);
    }
}

proof fn lemma_values_no_skip(s: Seq<char>)
    requires
        forall|i: int| 0 <= i < s.len() ==> !is_b64_skip(#[trigger] s[i]) && b64_value(s[i]) is Some,
    ensures
        b64_values(s) == Seq::new(s.len(), |i: int| b64_value(s[i])->0),
    decreases s.len(),
{
    if s.len() > 0 {
        lemma_values_no_skip(s.drop_last());
        assert(b64_values(s) =~= Seq::new(s.len(), |i: int| b64_value(s[i])->0));
    }
}

proof fn lemma_encoding_shape(b: Seq<u8>)
    ensures
        base64_encoding(b).len() % 4 == 0,
        forall|i: int|
            0 <= i < base64_encoding(b).len() ==> !is_b64_skip(#[trigger] base64_encoding(b)[i])
                && b64_value(base64_encoding(b)[i]) is Some,
        decode_values(Seq::new(base64_encoding(b).len(), |i: int| b64_value(base64_encoding(b)[i])->0))
            == b,
    decreases b.len(),
{
    let e = base64_encoding(b);
    let vals = Seq::new(e.len(), |i: int| b64_value(e[i])->0);
    if b.len() == 0 {
        assert(decode_values(vals) =~= b);
    } else if b.len() <= 3 {
        lemma_group_round_trip(b);
        assert(e.len() == 4);
        assert(vals.skip(4) =~= Seq::<u8>::empty());
        assert(decode_values(vals.skip(4)) =~= Seq::<u8>::empty());
        assert(decode_values(vals) == decode_group(vals[0], vals[1], vals[2], vals[3])
            + decode_values(vals.skip(4)));
        assert(decode_values(vals) =~= b);
    } else {
        let g = b.take(3);
        let rest = b.skip(3);
        lemma_group_round_trip(g);
        lemma_encoding_shape(rest);
        let er = base64_encoding(rest);
        assert(e == encode_group(g) + er);
        assert forall|i: int| 0 <= i < e.len() implies !is_b64_skip(#[trigger] e[i]) && b64_value(
            e[i],
        ) is Some by {
            if i >= 4 {
                assert(e[i] == er[i - 4]);
            }
        }
        let vr = Seq::new(er.len(), |i: int| b64_value(er[i])->0);
        assert(vals.skip(4) =~= vr);
        assert(decode_values(vals) == decode_group(vals[0], vals[1], vals[2], vals[3])
            + decode_values(vals.skip(4)));
        assert(g + rest =~= b);
    }
}

/// Decoding the encoding of any bytes gives those bytes back.
pub proof fn lemma_base64_round_trip(bytes: Seq<u8>)
    ensures
        spec_base64_decode(base64_encoding(bytes)) == Ok::<Seq<u8>, Base64Failure>(bytes),
{
    let e = base64_encoding(bytes);
    lemma_encoding_shape(bytes);
    lemma_values_no_skip(e);
    assert(all_b64(e));
}


/// A character of the Base64 alphabet proper: `A-Z`, `a-z`, `0-9`, `+`, `/`.
pub open spec fn is_b64_alphabet(c: char) -> bool {
    b64_value(c) is Some && c != '='
}

proof fn lemma_group_alphabet(g: Seq<u8>)
    requires
        1 <= g.len() <= 3,
    ensures
        encode_group(g).len() == 4,
        is_b64_alphabet(encode_group(g)[0]),
        is_b64_alphabet(encode_group(g)[1]),
        g.len() > 1 ==> is_b64_alphabet(encode_group(g)[2]),
        g.len() <= 1 ==> encode_group(g)[2] == '=',
        g.len() > 2 ==> is_b64_alphabet(encode_group(g)[3]),
        g.len() <= 2 ==> encode_group(g)[3] == '=',
{
    let b0 = g[0];
    let b1: u8 = if g.len() > 1 { g[1] } else { 0 };
    let b2: u8 = if g.len() > 2 { g[2] } else { 0 };
    let v0 = b0 >> 2;
    let v1 = ((b0 & 0x03) << 4) | (b1 >> 4);
    let v2 = ((b1 & 0x0F) << 2) | (b2 >> 6);
    let v3 = b2 & 0x3F;
    assert(v0 < 64 && v1 < 64 && v2 < 64 && v3 < 64) by (bit_vector)
        requires
            v0 == b0 >> 2,
            v1 == ((b0 & 0x03) << 4) | (b1 >> 4),
            v2 == ((b1 & 0x0F) << 2) | (b2 >> 6),
            v3 == b2 & 0x3F,
    ;
    lemma_value_of_char(v0);
    lemma_value_of_char(v1);
    lemma_value_of_char(v2);
    lemma_value_of_char(v3);
}

/// The shape of an encoding: four characters for every started group of
/// three bytes, all from the Base64 alphabet but for `=` padding, which
/// only fills the last two places (the last one first).
pub proof fn lemma_base64_shape(bytes: Seq<u8>)
    ensures
        base64_encoding(bytes).len() == 4 * ((bytes.len() + 2) / 3),
        forall|i: int|
            0 <= i < base64_encoding(bytes).len() ==> is_b64_alphabet(
                #[trigger] base64_encoding(bytes)[i],
            ) || (base64_encoding(bytes)[i] == '=' && i >= base64_encoding(bytes).len() - 2),
        base64_encoding(bytes).len() >= 2 && base64_encoding(bytes)[base64_encoding(bytes).len() - 2]
            == '=' ==> base64_encoding(bytes)[base64_encoding(bytes).len() - 1] == '=',
    decreases bytes.len(),
{
    let e = base64_encoding(bytes);
    if bytes.len() == 0 {
    } else if bytes.len() <= 3 {
        lemma_group_alphabet(bytes);
    } else {
        let g = bytes.take(3);
        let rest = bytes.skip(3);
        lemma_group_alphabet(g);
        lemma_base64_shape(rest);
        let er = base64_encoding(rest);
        assert(e == encode_group(g) + er);
        assert(er.len() >= 4);
        assert forall|i: int| 0 <= i < e.len() implies is_b64_alphabet(#[trigger] e[i]) || (e[i] == '='
            && i >= e.len() - 2) by {
            if i >= 4 {
                assert(e[i] == er[i - 4]);
            }
        }
        assert(e[e.len() - 2] == er[er.len() - 2]);
        assert(e[e.len() - 1] == er[er.len() - 1]);
    }
}

proof fn lemma_decode_values_snoc(x: Seq<u8>, g: Seq<u8>)
    requires
        x.len() % 4 == 0,
        g.len() == 4,
    ensures
        decode_values(x + g) == decode_values(x) + decode_group(g[0], g[1], g[2], g[3]),
    decreases x.len(),
{
    if x.len() == 0 {
        assert(x + g =~= g);
        assert(g.skip(4) =~= Seq::<u8>::empty());
        assert(decode_values(g.skip(4)) =~= Seq::<u8>::empty());
        assert(decode_values(x) =~= Seq::<u8>::empty());
        assert(decode_values(g) == decode_group(g[0], g[1], g[2], g[3]) + decode_values(g.skip(4)));
        assert(decode_values(x + g) =~= decode_values(x) + decode_group(g[0], g[1], g[2], g[3]));
    } else {
        lemma_decode_values_snoc(x.skip(4), g);
        assert((x + g).skip(4) =~= x.skip(4) + g);
        assert((x + g)[0] == x[0] && (x + g)[1] == x[1] && (x + g)[2] == x[2] && (x + g)[3] == x[3]);
        assert(decode_values(x + g) =~= decode_values(x) + decode_group(g[0], g[1], g[2], g[3]));
    }
}

/// The value of a Base64 character (`=` gives 64).
pub fn decode_base64_char(c: char) -> (r: Result<u8, EngineError>)
    ensures
        match r {
            Ok(v) => b64_value(c) == Some(v),
            Err(e) => b64_value(c) is None && e.spec_message() == base64_failure_message(
                Base64Failure::InvalidCharacter,
            ),
        },
{
    let u = c as u32;
    if 65 <= u && u <= 90 {
        Ok((u - 65) as u8)
    } else if 97 <= u && u <= 122 {
        Ok((u - 97 + 26) as u8)
    } else if 48 <= u && u <= 57 {
        Ok((u - 48 + 52) as u8)
    } else if c == '+' {
        Ok(62)
    } else if c == '/' {
        Ok(63)
    } else if c == '=' {
        Ok(64)
    } else {
        Err(EngineError::from_text("invalid base64 character"))
    }
}

/// Decodes Base64 text, passing over CR, LF and space.
pub fn base64_decode(value: &str) -> (r: Result<Vec<u8>, EngineError>)
    ensures
        match r {
            Ok(b) => spec_base64_decode(value@) == Ok::<Seq<u8>, Base64Failure>(b@),
            Err(e) => spec_base64_decode(value@) is Err && e.spec_message()
                == base64_failure_message(spec_base64_decode(value@)->Err_0),
        },
{
    let s = chars_of(value);
    let mut output: Vec<u8> = Vec::new();
    let mut c0: u8 = 0;
    let mut c1: u8 = 0;
    let mut c2: u8 = 0;
    let mut chunk_len: usize = 0;
    let mut i: usize = 0;
    assert(s@.take(0) =~= Seq::<char>::empty());
    while i < s.len()
        invariant
            i <= s.len(),
            s@ == value@,
            all_b64(s@.take(i as int)),
            chunk_len < 4,
            chunk_len == b64_values(s@.take(i as int)).len() % 4,
            seq![c0, c1, c2].take(chunk_len as int) == b64_values(s@.take(i as int)).skip(
                b64_values(s@.take(i as int)).len() - chunk_len,
            ),
            output@ == decode_values(
                b64_values(s@.take(i as int)).take(
                    b64_values(s@.take(i as int)).len() - chunk_len,
                ),
            ),
        decreases s.len() - i,
    {
        let ch = s[i];
        let ghost p = s@.take(i as int);
        let ghost q = s@.take(i + 1);
        assert(q.drop_last() =~= p);
        assert(q.last() == ch);
        let ghost vp = b64_values(p);
        if ch == '\r' || ch == '\n' || ch == ' ' {
            assert(b64_values(q) == vp);
            assert forall|k: int| 0 <= k < q.len() && !is_b64_skip(q[k]) implies (#[trigger] b64_value(
                q[k],
            )) is Some by {
                if k < i {
                    assert(q[k] == p[k]);
                }
            }
            i += 1;
            continue;
        }
        let v = match decode_base64_char(ch) {
            Ok(v) => v,
            Err(e) => {
                assert(s@[i as int] == ch);
                assert(!all_b64(value@));
                return Err(e);
            },
        };
        let ghost vq = b64_values(q);
        assert(vq == vp.push(v));
        assert forall|k: int| 0 <= k < q.len() && !is_b64_skip(q[k]) implies (#[trigger] b64_value(
            q[k],
        )) is Some by {
            if k < i {
                assert(q[k] == p[k]);
            }
        }
        if chunk_len == 3 {
            let ghost x = vp.take(vp.len() - 3);
            let ghost g = seq![c0, c1, c2, v];
            assert(vq =~= x + g) by {
                assert(seq![c0, c1, c2] =~= vp.skip(vp.len() - 3));
                assert(vp =~= x + vp.skip(vp.len() - 3));
            }
            proof {
                lemma_decode_values_snoc(x, g);
            }
            output.push((c0 << 2) | (c1 >> 4));
            if c2 != 64 {
                output.push((c1 << 4) | (c2 >> 2));
            }
            if v != 64 {
                output.push((c2 << 6) | v);
            }
            assert(vq.take(vq.len() as int) =~= vq);
            assert(vq.skip(vq.len() as int) =~= Seq::<u8>::empty());
            assert(seq![c0, c1, c2].take(0) =~= Seq::<u8>::empty());
            assert(output@ =~= decode_values(x) + decode_group(c0, c1, c2, v));
            chunk_len = 0;
        } else {
            assert(vq.take(vq.len() - (chunk_len + 1)) =~= vp.take(vp.len() - chunk_len));
            let ghost old_chunk = seq![c0, c1, c2].take(chunk_len as int);
            let ghost cl = chunk_len as int;
            assert(vq.skip(vq.len() - (cl + 1)) =~= vp.skip(vp.len() - cl).push(v));
            if chunk_len == 0 {
                c0 = v;
            } else if chunk_len == 1 {
                c1 = v;
            } else {
                c2 = v;
            }
            chunk_len += 1;
            assert(seq![c0, c1, c2].take(chunk_len as int) =~= old_chunk.push(v));
        }
        i += 1;
    }
    assert(s@.take(s.len() as int) =~= s@);
    if chunk_len != 0 {
        return Err(EngineError::from_text("invalid base64 payload length"));
    }
    assert(b64_values(s@).take(b64_values(s@).len() as int) =~= b64_values(s@));
    Ok(output)
}


proof fn lemma_values_len(s: Seq<char>)
    ensures
        b64_values(s).len() <= s.len(),
    decreases s.len(),
{
    if s.len() > 0 {
        lemma_values_len(s.drop_last());
    }
}

proof fn lemma_decode_values_len(v: Seq<u8>)
    ensures
        decode_values(v).len() <= v.len(),
    decreases v.len(),
{
    if v.len() >= 4 {
        lemma_decode_values_len(v.skip(4));
    }
}

/// Decoding never yields more bytes than the text has characters.
pub proof fn lemma_decoded_len(s: Seq<char>)
    ensures
        spec_base64_decode(s) matches Ok(b) ==> b.len() <= s.len(),
{
    lemma_values_len(s);
    lemma_decode_values_len(b64_values(s));
}

} // verus!
