//! The signature codec: raw signature bytes to and from a URL-safe,
//! unpadded textual encoding.
//!
//! Encoding is total. Decoding rejects characters outside the alphabet,
//! lengths that no byte sequence encodes to, and set bits in the unused
//! positions of a final partial group. Decoding an encoded buffer gives
//! the buffer back; see [`lemma_codec_round_trip`].

use vstd::prelude::*;

use crate::error::TextError;

verus! {

/// The alphabet: value 0..64 to its ASCII byte. Values 0..26 map to
/// 'A'..'Z', 26..52 to 'a'..'z', 52..62 to '0'..'9', 62 to '-', 63 to '_'.
pub open spec fn b64_char(v: u8) -> u8 {
    if v < 26 {
        (v + 65) as u8
    } else if v < 52 {
        (v + 71) as u8
    } else if v < 62 {
        (v - 4) as u8
    } else if v == 62 {
        45u8
    } else {
        95u8
    }
}

/// The alphabet, inverted: an ASCII byte to its value. 64 marks a byte
/// outside the alphabet.
pub open spec fn b64_val(c: u8) -> u8 {
    if 65 <= c <= 90 {
        (c - 65) as u8
    } else if 97 <= c <= 122 {
        (c - 71) as u8
    } else if 48 <= c <= 57 {
        (c + 4) as u8
    } else if c == 45 {
        62u8
    } else if c == 95 {
        63u8
    } else {
        64u8
    }
}

/// The inversion that decoding rests on: every alphabet value comes back
/// from its character.
pub proof fn lemma_char_val(v: u8)
    requires
        v < 64,
    ensures
        b64_val(b64_char(v)) == v,
{
}

/// Four characters for a full group of three bytes.
pub open spec fn enc3(a: u8, b: u8, c: u8) -> Seq<u8> {
    seq![
        b64_char(a >> 2),
        b64_char((a & 3) << 4 | b >> 4),
        b64_char((b & 15) << 2 | c >> 6),
        b64_char(c & 63),
    ]
}

/// Three characters for a final group of two bytes.
pub open spec fn enc2(a: u8, b: u8) -> Seq<u8> {
    seq![b64_char(a >> 2), b64_char((a & 3) << 4 | b >> 4), b64_char((b & 15) << 2)]
}

/// Two characters for a final group of one byte.
pub open spec fn enc1(a: u8) -> Seq<u8> {
    seq![b64_char(a >> 2), b64_char((a & 3) << 4)]
}

/// The encoding of a whole byte sequence: full groups of three, then a
/// partial group if one or two bytes remain.
pub open spec fn encode_spec(s: Seq<u8>) -> Seq<u8>
    decreases s.len(),
{
    if s.len() >= 3 {
        enc3(s[0], s[1], s[2]) + encode_spec(s.skip(3))
    } else if s.len() == 2 {
        enc2(s[0], s[1])
    } else if s.len() == 1 {
        enc1(s[0])
    } else {
        Seq::<u8>::empty()
    }
}

/// Whether all four characters of a group are in the alphabet.
pub open spec fn valid4(c0: u8, c1: u8, c2: u8, c3: u8) -> bool {
    b64_val(c0) < 64 && b64_val(c1) < 64 && b64_val(c2) < 64 && b64_val(c3) < 64
}

/// The three bytes of a full group of four characters.
pub open spec fn dec4(c0: u8, c1: u8, c2: u8, c3: u8) -> Seq<u8> {
    seq![
        b64_val(c0) << 2 | b64_val(c1) >> 4,
        (b64_val(c1) & 15) << 4 | b64_val(c2) >> 2,
        (b64_val(c2) & 3) << 6 | b64_val(c3),
    ]
}

/// The decoding of a whole character sequence: `None` on a character
/// outside the alphabet, a length that leaves one character over, or a
/// set bit in the unused positions of a final partial group.
pub open spec fn decode_spec(s: Seq<u8>) -> Option<Seq<u8>>
    decreases s.len(),
{
    if s.len() >= 4 {
        if valid4(s[0], s[1], s[2], s[3]) {
            match decode_spec(s.skip(4)) {
                Option::Some(rest) => Option::Some(dec4(s[0], s[1], s[2], s[3]) + rest),
                Option::None => Option::None,
            }
        } else {
            Option::None
        }
    } else if s.len() == 3 {
        if b64_val(s[0]) < 64 && b64_val(s[1]) < 64 && b64_val(s[2]) < 64 && b64_val(s[2]) & 3
            == 0 {
            Option::Some(
                seq![
                    b64_val(s[0]) << 2 | b64_val(s[1]) >> 4,
                    (b64_val(s[1]) & 15) << 4 | b64_val(s[2]) >> 2,
                ],
            )
        } else {
            Option::None
        }
    } else if s.len() == 2 {
        if b64_val(s[0]) < 64 && b64_val(s[1]) < 64 && b64_val(s[1]) & 15 == 0 {
            Option::Some(seq![b64_val(s[0]) << 2 | b64_val(s[1]) >> 4])
        } else {
            Option::None
        }
    } else if s.len() == 1 {
        Option::None
    } else {
        Option::Some(Seq::<u8>::empty())
    }
}

/// Codec idempotence: decoding an encoded buffer gives the buffer back,
/// for every byte sequence.
pub proof fn lemma_codec_round_trip(s: Seq<u8>)
    ensures
        decode_spec(encode_spec(s)) == Option::Some(s),
    decreases s.len(),
{
    if s.len() >= 3 {
        let a = s[0];
        let b = s[1];
        let c = s[2];
        assert(a >> 2 < 64 && ((a & 3) << 4 | b >> 4) < 64 && ((b & 15) << 2 | c >> 6) < 64 && (c
            & 63) < 64 && ((a >> 2) << 2 | ((a & 3) << 4 | b >> 4) >> 4) == a && ((((a & 3) << 4
            | b >> 4) & 15) << 4 | ((b & 15) << 2 | c >> 6) >> 2) == b && ((((b & 15) << 2 | c
            >> 6) & 3) << 6 | (c & 63)) == c) by (bit_vector);
        lemma_char_val(a >> 2);
        lemma_char_val((a & 3) << 4 | b >> 4);
        lemma_char_val((b & 15) << 2 | c >> 6);
        lemma_char_val(c & 63);
        lemma_codec_round_trip(s.skip(3));
        let e = encode_spec(s);
        assert(e.skip(4) =~= encode_spec(s.skip(3)));
        assert(dec4(e[0], e[1], e[2], e[3]) + s.skip(3) =~= s);
    } else if s.len() == 2 {
        let a = s[0];
        let b = s[1];
        assert(a >> 2 < 64 && ((a & 3) << 4 | b >> 4) < 64 && ((b & 15) << 2) < 64 && ((b & 15)
            << 2) & 3 == 0 && ((a >> 2) << 2 | ((a & 3) << 4 | b >> 4) >> 4) == a && ((((a & 3)
            << 4 | b >> 4) & 15) << 4 | ((b & 15) << 2) >> 2) == b) by (bit_vector);
        lemma_char_val(a >> 2);
        lemma_char_val((a & 3) << 4 | b >> 4);
        lemma_char_val((b & 15) << 2);
        assert(decode_spec(encode_spec(s)).unwrap() =~= s);
    } else if s.len() == 1 {
        let a = s[0];
        assert(a >> 2 < 64 && ((a & 3) << 4) < 64 && ((a & 3) << 4) & 15 == 0 && ((a >> 2) << 2
            | ((a & 3) << 4) >> 4) == a) by (bit_vector);
        lemma_char_val(a >> 2);
        lemma_char_val((a & 3) << 4);
        assert(decode_spec(encode_spec(s)).unwrap() =~= s);
    } else {
        assert(decode_spec(encode_spec(s)).unwrap() =~= s);
    }
}

/// ASCII whitespace, as it may surround an encoded string read from a
/// byte source.
pub open spec fn is_ascii_ws(c: u8) -> bool {
    c == 32 || c == 9 || c == 10 || c == 13
}

/// A sequence without its leading whitespace.
pub open spec fn trim_front_spec(s: Seq<u8>) -> Seq<u8>
    decreases s.len(),
{
    if s.len() > 0 && is_ascii_ws(s[0]) {
        trim_front_spec(s.skip(1))
    } else {
        s
    }
}

/// A sequence without its trailing whitespace.
pub open spec fn trim_back_spec(s: Seq<u8>) -> Seq<u8>
    decreases s.len(),
{
    if s.len() > 0 && is_ascii_ws(s[s.len() - 1]) {
        trim_back_spec(s.take(s.len() - 1))
    } else {
        s
    }
}

/// A sequence without its surrounding whitespace.
pub open spec fn trim_spec(s: Seq<u8>) -> Seq<u8> {
    trim_back_spec(trim_front_spec(s))
}

/// Strip the whitespace surrounding encoded text, ahead of decoding.
pub fn trim(input: &[u8]) -> (r: Vec<u8>)
    ensures
        r@ == trim_spec(input@),
{
    let mut start: usize = 0;
    proof {
        assert(input@.skip(0) =~= input@);
    }
    while start < input.len() && (input[start] == 32 || input[start] == 9 || input[start] == 10
        || input[start] == 13)
        invariant
            start <= input@.len(),
            trim_front_spec(input@) == trim_front_spec(input@.skip(start as int)),
        decreases input@.len() - start,
    {
        proof {
            let rest = input@.skip(start as int);
            assert(rest[0] == input@[start as int]);
            assert(rest.skip(1) =~= input@.skip(start + 1));
        }
        start = start + 1;
    }
    let mut out: Vec<u8> = Vec::new();
    let mut j: usize = start;
    while j < input.len()
        invariant
            start <= j <= input@.len(),
            out@ =~= input@.subrange(start as int, j as int),
        decreases input@.len() - j,
    {
        out.push(input[j]);
        j = j + 1;
    }
    proof {
        assert(out@ =~= input@.skip(start as int));
        if start < input@.len() {
            assert(!is_ascii_ws(input@.skip(start as int)[0]));
        }
        assert(trim_front_spec(input@) == out@);
    }
    let mut end: usize = out.len();
    let ghost front = out@;
    proof {
        assert(front.take(end as int) =~= front);
    }
    while end > 0 && (out[end - 1] == 32 || out[end - 1] == 9 || out[end - 1] == 10 || out[end - 1]
        == 13)
        invariant
            end <= front.len(),
            out@ == front,
            trim_back_spec(front) == trim_back_spec(front.take(end as int)),
        decreases end,
    {
        proof {
            let h = front.take(end as int);
            assert(h[h.len() - 1] == front[end - 1]);
            assert(h.take(h.len() - 1) =~= front.take(end - 1));
        }
        end = end - 1;
    }
    proof {
        let h = front.take(end as int);
        if end > 0 {
            assert(h[h.len() - 1] == front[end - 1]);
        }
        assert(trim_back_spec(h) == h);
    }
    out.truncate(end);
    proof {
        assert(out@ =~= front.take(end as int));
    }
    out
}

/// No character of the alphabet is whitespace, so encoded text survives
/// the trim untouched.
pub proof fn lemma_encode_no_ws(s: Seq<u8>)
    ensures
        forall|i: int|
            0 <= i < encode_spec(s).len() ==> !is_ascii_ws(#[trigger] encode_spec(s)[i]),
    decreases s.len(),
{
    assert(forall|v: u8| !is_ascii_ws(#[trigger] b64_char(v)));
    if s.len() >= 3 {
        lemma_encode_no_ws(s.skip(3));
        let e = encode_spec(s);
        let g = enc3(s[0], s[1], s[2]);
        let rest = encode_spec(s.skip(3));
        assert forall|i: int| 0 <= i < e.len() implies !is_ascii_ws(#[trigger] e[i]) by {
            if i < 4 {
                assert(e[i] == g[i]);
            } else {
                assert(e[i] == rest[i - 4]);
            }
        }
    }
}

/// Trimming leaves a sequence without surrounding whitespace untouched.
pub proof fn lemma_trim_no_ws(s: Seq<u8>)
    requires
        forall|i: int| 0 <= i < s.len() ==> !is_ascii_ws(#[trigger] s[i]),
    ensures
        trim_spec(s) == s,
{
}

/// Encoded text passes through the trim untouched.
pub proof fn lemma_trim_encode(s: Seq<u8>)
    ensures
        trim_spec(encode_spec(s)) == encode_spec(s),
{
    lemma_encode_no_ws(s);
    lemma_trim_no_ws(encode_spec(s));
}

/// The character for an alphabet value.
fn b64_char_of(v: u8) -> (c: u8)
    requires
        v < 64,
    ensures
        c == b64_char(v),
{
    if v < 26 {
        v + 65
    } else if v < 52 {
        v + 71
    } else if v < 62 {
        v - 4
    } else if v == 62 {
        45
    } else {
        95
    }
}

/// The alphabet value of a character; 64 for one outside the alphabet.
fn b64_val_of(c: u8) -> (v: u8)
    ensures
        v == b64_val(c),
{
    if 65 <= c && c <= 90 {
        c - 65
    } else if 97 <= c && c <= 122 {
        c - 71
    } else if 48 <= c && c <= 57 {
        c + 4
    } else if c == 45 {
        62
    } else if c == 95 {
        63
    } else {
        64
    }
}

/// Encode raw bytes as URL-safe, unpadded text. Total: never fails.
pub fn encode(input: &[u8]) -> (r: Vec<u8>)
    ensures
        r@ == encode_spec(input@),
{
    let mut out: Vec<u8> = Vec::new();
    let mut i: usize = 0;
    proof {
        assert(input@.skip(0) =~= input@);
    }
    while input.len() - i >= 3
        invariant
            i <= input@.len(),
            encode_spec(input@) == out@ + encode_spec(input@.skip(i as int)),
        decreases input@.len() - i,
    {
        let a = input[i];
        let b = input[i + 1];
        let c = input[i + 2];
        let ghost out0 = out@;
        proof {
            assert(a >> 2 < 64 && ((a & 3) << 4 | b >> 4) < 64 && ((b & 15) << 2 | c >> 6) < 64
                && (c & 63) < 64) by (bit_vector);
        }
        out.push(b64_char_of(a >> 2));
        out.push(b64_char_of((a & 3) << 4 | b >> 4));
        out.push(b64_char_of((b & 15) << 2 | c >> 6));
        out.push(b64_char_of(c & 63));
        proof {
            let rest = input@.skip(i as int);
            assert(rest[0] == a && rest[1] == b && rest[2] == c);
            assert(rest.skip(3) =~= input@.skip(i + 3));
            assert(out@ =~= out0 + enc3(a, b, c));
            assert(out0 + (enc3(a, b, c) + encode_spec(input@.skip(i + 3))) =~= out@
                + encode_spec(input@.skip(i + 3)));
        }
        i = i + 3;
    }
    let ghost out0 = out@;
    let ghost rest = input@.skip(i as int);
    if input.len() - i == 2 {
        let a = input[i];
        let b = input[i + 1];
        proof {
            assert(a >> 2 < 64 && ((a & 3) << 4 | b >> 4) < 64 && ((b & 15) << 2) < 64)
                by (bit_vector);
            assert(rest.len() == 2 && rest[0] == a && rest[1] == b);
        }
        out.push(b64_char_of(a >> 2));
        out.push(b64_char_of((a & 3) << 4 | b >> 4));
        out.push(b64_char_of((b & 15) << 2));
        proof {
            assert(out@ =~= out0 + enc2(a, b));
        }
    } else if input.len() - i == 1 {
        let a = input[i];
        proof {
            assert(a >> 2 < 64 && ((a & 3) << 4) < 64) by (bit_vector);
            assert(rest.len() == 1 && rest[0] == a);
        }
        out.push(b64_char_of(a >> 2));
        out.push(b64_char_of((a & 3) << 4));
        proof {
            assert(out@ =~= out0 + enc1(a));
        }
    } else {
        proof {
            assert(rest.len() == 0);
            assert(out0 + encode_spec(rest) =~= out0);
        }
    }
    out
}

/// Decode URL-safe, unpadded text back to raw bytes. Fails with
/// `InvalidEncoding` exactly where [`decode_spec`] gives `None`.
pub fn decode(input: &[u8]) -> (r: Result<Vec<u8>, TextError>)
    ensures
        match r {
            Result::Ok(out) => decode_spec(input@) == Option::Some(out@),
            Result::Err(e) => decode_spec(input@) is None && e == TextError::InvalidEncoding,
        },
{
    let mut out: Vec<u8> = Vec::new();
    let mut i: usize = 0;
    proof {
        assert(input@.skip(0) =~= input@);
    }
    while input.len() - i >= 4
        invariant
            i <= input@.len(),
            match decode_spec(input@.skip(i as int)) {
                Option::Some(t) => decode_spec(input@) == Option::Some(out@ + t),
                Option::None => decode_spec(input@) is None,
            },
        decreases input@.len() - i,
    {
        let v0 = b64_val_of(input[i]);
        let v1 = b64_val_of(input[i + 1]);
        let v2 = b64_val_of(input[i + 2]);
        let v3 = b64_val_of(input[i + 3]);
        let ghost rest = input@.skip(i as int);
        proof {
            assert(rest[0] == input@[i as int] && rest[1] == input@[i + 1] && rest[2] == input@[i
                + 2] && rest[3] == input@[i + 3]);
            assert(rest.skip(4) =~= input@.skip(i + 4));
        }
        if v0 == 64 || v1 == 64 || v2 == 64 || v3 == 64 {
            proof {
                assert(decode_spec(rest) is None);
            }
            return Result::Err(TextError::InvalidEncoding);
        }
        let ghost out0 = out@;
        out.push(v0 << 2 | v1 >> 4);
        out.push((v1 & 15) << 4 | v2 >> 2);
        out.push((v2 & 3) << 6 | v3);
        proof {
            assert(out@ =~= out0 + dec4(rest[0], rest[1], rest[2], rest[3]));
            match decode_spec(input@.skip(i + 4)) {
                Option::Some(t) => {
                    assert(decode_spec(rest) == Option::Some(
                        dec4(rest[0], rest[1], rest[2], rest[3]) + t,
                    ));
                    assert(out0 + (dec4(rest[0], rest[1], rest[2], rest[3]) + t) =~= out@ + t);
                },
                Option::None => {
                    assert(decode_spec(rest) is None);
                },
            }
        }
        i = i + 4;
    }
    let ghost rest = input@.skip(i as int);
    if input.len() - i == 3 {
        let v0 = b64_val_of(input[i]);
        let v1 = b64_val_of(input[i + 1]);
        let v2 = b64_val_of(input[i + 2]);
        proof {
            assert(rest.len() == 3 && rest[0] == input@[i as int] && rest[1] == input@[i + 1]
                && rest[2] == input@[i + 2]);
        }
        if v0 == 64 || v1 == 64 || v2 == 64 || (v2 & 3) != 0 {
            return Result::Err(TextError::InvalidEncoding);
        }
        let ghost out0 = out@;
        out.push(v0 << 2 | v1 >> 4);
        out.push((v1 & 15) << 4 | v2 >> 2);
        proof {
            assert(out@ =~= out0 + decode_spec(rest).unwrap());
        }
        Result::Ok(out)
    } else if input.len() - i == 2 {
        let v0 = b64_val_of(input[i]);
        let v1 = b64_val_of(input[i + 1]);
        proof {
            assert(rest.len() == 2 && rest[0] == input@[i as int] && rest[1] == input@[i + 1]);
        }
        if v0 == 64 || v1 == 64 || (v1 & 15) != 0 {
            return Result::Err(TextError::InvalidEncoding);
        }
        let ghost out0 = out@;
        out.push(v0 << 2 | v1 >> 4);
        proof {
            assert(out@ =~= out0 + decode_spec(rest).unwrap());
        }
        Result::Ok(out)
    } else if input.len() - i == 1 {
        proof {
            assert(rest.len() == 1);
        }
        Result::Err(TextError::InvalidEncoding)
    } else {
        proof {
            assert(rest.len() == 0);
            assert(out@ + Seq::<u8>::empty() =~= out@);
        }
        Result::Ok(out)
    }
}

} // verus!
