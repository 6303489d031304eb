//! Fingerprint encodings: base64url without padding, and uppercase hex
//! thumbprints, with lossless conversion between the two.
//!
//! Both codecs are total functions on their mathematical models
//! ([`b64_encode_seq`], [`hex_encode_seq`] and the matching decoders), and
//! the round-trip laws relating them are proved below
//! ([`lemma_base64url_round_trip`], [`lemma_hex_round_trip`],
//! [`lemma_cross_encoding_round_trip`]).

use vstd::prelude::*;

verus! {

/// Error for malformed base64url or hex input during fingerprint
/// conversion.
#[derive(Clone, Copy, Debug, PartialEq, Eq, Structural)]
pub enum EncodingError {
    /// Input is not canonical unpadded base64url: a character outside the
    /// alphabet, a length of 1 mod 4, or nonzero trailing bits.
    InvalidBase64UrlData,
    /// Input (after stripping `:` and spaces) has odd length or holds a
    /// character that is not a hex digit.
    InvalidHexData,
}

// ---------------------------------------------------------------------------
// base64url: character-level model
// ---------------------------------------------------------------------------

/// The base64url alphabet: the character standing for a 6-bit value.
pub open spec fn b64_char_of(v: int) -> char {
    if 0 <= v < 26 {
        ((65 + v) as u32) as char  // 'A'..'Z'
    } else if 26 <= v < 52 {
        ((71 + v) as u32) as char  // 'a'..'z'
    } else if 52 <= v < 62 {
        ((v - 4) as u32) as char  // '0'..'9'
    } else if v == 62 {
        '-'
    } else {
        '_'
    }
}

/// The 6-bit value of a base64url character, or -1 if the character is
/// outside the alphabet.
pub open spec fn b64_val(c: char) -> int {
    let u = c as u32;
    if 65 <= u <= 90 {
        u - 65  // 'A'..'Z'
    } else if 97 <= u <= 122 {
        u - 71  // 'a'..'z'
    } else if 48 <= u <= 57 {
        u + 4  // '0'..'9'
    } else if u == 45 {
        62  // '-'
    } else if u == 95 {
        63  // '_'
    } else {
        -1
    }
}

/// `b64_val` inverts `b64_char_of` on every 6-bit value.
pub proof fn lemma_b64_char_val(v: int)
    requires
        0 <= v < 64,
    ensures
        b64_val(b64_char_of(v)) == v,
{
}

/// `b64_char_of` inverts `b64_val` on every alphabet character.
pub proof fn lemma_b64_val_char(c: char)
    requires
        b64_val(c) >= 0,
    ensures
        0 <= b64_val(c) < 64,
        b64_char_of(b64_val(c)) == c,
{
}

// ---------------------------------------------------------------------------
// base64url: sequence-level model
// ---------------------------------------------------------------------------

/// Unpadded base64url encoding of a byte sequence: groups of three bytes
/// become four characters; a final group of one or two bytes becomes two
/// or three characters whose trailing bits are zero.
pub open spec fn b64_encode_seq(bytes: Seq<u8>) -> Seq<char>
    decreases bytes.len(),
{
    if bytes.len() == 0 {
        Seq::empty()
    } else if bytes.len() == 1 {
        let b0 = bytes[0] as int;
        seq![b64_char_of(b0 / 4), b64_char_of((b0 % 4) * 16)]
    } else if bytes.len() == 2 {
        let b0 = bytes[0] as int;
        let b1 = bytes[1] as int;
        seq![
            b64_char_of(b0 / 4),
            b64_char_of((b0 % 4) * 16 + b1 / 16),
            b64_char_of((b1 % 16) * 4),
        ]
    } else {
        let b0 = bytes[0] as int;
        let b1 = bytes[1] as int;
        let b2 = bytes[2] as int;
        seq![
            b64_char_of(b0 / 4),
            b64_char_of((b0 % 4) * 16 + b1 / 16),
            b64_char_of((b1 % 16) * 4 + b2 / 64),
            b64_char_of(b2 % 64),
        ] + b64_encode_seq(bytes.skip(3))
    }
}

/// Unpadded base64url decoding of a character sequence. `None` on a
/// character outside the alphabet, on a length of 1 mod 4, and on nonzero
/// trailing bits (the canonicity check the reference codec also makes).
pub open spec fn b64_decode_seq(s: Seq<char>) -> Option<Seq<u8>>
    decreases s.len(),
{
    if s.len() == 0 {
        Some(Seq::empty())
    } else if s.len() == 1 {
        None
    } else if s.len() == 2 {
        let v0 = b64_val(s[0]);
        let v1 = b64_val(s[1]);
        if v0 >= 0 && v1 >= 0 && v1 % 16 == 0 {
            Some(seq![(v0 * 4 + v1 / 16) as u8])
        } else {
            None
        }
    } else if s.len() == 3 {
        let v0 = b64_val(s[0]);
        let v1 = b64_val(s[1]);
        let v2 = b64_val(s[2]);
        if v0 >= 0 && v1 >= 0 && v2 >= 0 && v2 % 4 == 0 {
            Some(seq![(v0 * 4 + v1 / 16) as u8, ((v1 % 16) * 16 + v2 / 4) as u8])
        } else {
            None
        }
    } else {
        let v0 = b64_val(s[0]);
        let v1 = b64_val(s[1]);
        let v2 = b64_val(s[2]);
        let v3 = b64_val(s[3]);
        if v0 >= 0 && v1 >= 0 && v2 >= 0 && v3 >= 0 {
            match b64_decode_seq(s.skip(4)) {
                Some(rest) => Some(
                    seq![
                        (v0 * 4 + v1 / 16) as u8,
                        ((v1 % 16) * 16 + v2 / 4) as u8,
                        ((v2 % 4) * 64 + v3) as u8,
                    ] + rest,
                ),
                None => None,
            }
        } else {
            None
        }
    }
}

// ---------------------------------------------------------------------------
// base64url: round-trip laws
// ---------------------------------------------------------------------------

/// Law: decoding inverts encoding — every byte sequence survives a
/// base64url encode/decode round trip unchanged.
pub proof fn lemma_base64url_round_trip(bytes: Seq<u8>)
    ensures
        b64_decode_seq(b64_encode_seq(bytes)) == Some(bytes),
    decreases bytes.len(),
{
    if bytes.len() == 0 {
        assert(b64_encode_seq(bytes).len() == 0);
        assert(b64_decode_seq(b64_encode_seq(bytes)) == Some(Seq::<u8>::empty()));
        assert(bytes =~= Seq::<u8>::empty());
    } else if bytes.len() == 1 {
        let b0 = bytes[0] as int;
        lemma_b64_char_val(b0 / 4);
        lemma_b64_char_val((b0 % 4) * 16);
        let s = b64_encode_seq(bytes);
        assert(s.len() == 2);
        assert(b64_val(s[0]) == b0 / 4);
        assert(b64_val(s[1]) == (b0 % 4) * 16);
        assert(((b0 % 4) * 16) % 16 == 0);
        assert((b0 / 4) * 4 + ((b0 % 4) * 16) / 16 == b0);
        assert(b64_decode_seq(s) == Some(seq![bytes[0]]));
        assert(seq![bytes[0]] =~= bytes);
    } else if bytes.len() == 2 {
        let b0 = bytes[0] as int;
        let b1 = bytes[1] as int;
        lemma_b64_char_val(b0 / 4);
        lemma_b64_char_val((b0 % 4) * 16 + b1 / 16);
        lemma_b64_char_val((b1 % 16) * 4);
        let s = b64_encode_seq(bytes);
        assert(s.len() == 3);
        let v0 = b64_val(s[0]);
        let v1 = b64_val(s[1]);
        let v2 = b64_val(s[2]);
        assert(v2 % 4 == 0);
        assert(v0 * 4 + v1 / 16 == b0);
        assert((v1 % 16) * 16 + v2 / 4 == b1);
        assert(b64_decode_seq(s) == Some(seq![bytes[0], bytes[1]]));
        assert(seq![bytes[0], bytes[1]] =~= bytes);
    } else {
        let b0 = bytes[0] as int;
        let b1 = bytes[1] as int;
        let b2 = bytes[2] as int;
        lemma_b64_char_val(b0 / 4);
        lemma_b64_char_val((b0 % 4) * 16 + b1 / 16);
        lemma_b64_char_val((b1 % 16) * 4 + b2 / 64);
        lemma_b64_char_val(b2 % 64);
        lemma_base64url_round_trip(bytes.skip(3));
        let tail = b64_encode_seq(bytes.skip(3));
        let s = b64_encode_seq(bytes);
        assert(s.len() == 4 + tail.len());
        assert(s.skip(4) =~= tail);
        let v0 = b64_val(s[0]);
        let v1 = b64_val(s[1]);
        let v2 = b64_val(s[2]);
        let v3 = b64_val(s[3]);
        assert(v0 * 4 + v1 / 16 == b0);
        assert((v1 % 16) * 16 + v2 / 4 == b1);
        assert((v2 % 4) * 64 + v3 == b2);
        if tail.len() == 0 {
            assert(s.len() == 4);
            // s.len() == 4 uses the recursive decode case with an empty rest
            assert(b64_decode_seq(s.skip(4)) == Some(Seq::<u8>::empty()));
            assert(b64_decode_seq(s) == Some(
                seq![bytes[0], bytes[1], bytes[2]] + Seq::<u8>::empty(),
            ));
        } else {
            assert(b64_decode_seq(s) == Some(
                seq![bytes[0], bytes[1], bytes[2]] + bytes.skip(3),
            ));
        }
        assert(seq![bytes[0], bytes[1], bytes[2]] + bytes.skip(3) =~= bytes);
    }
}

/// Law: encoding inverts decoding — every string the decoder accepts is
/// the encoding of the bytes it returns, so decodable strings are exactly
/// the canonical encodings.
pub proof fn lemma_base64url_canonical(s: Seq<char>)
    requires
        b64_decode_seq(s) is Some,
    ensures
        b64_encode_seq(b64_decode_seq(s).unwrap()) == s,
    decreases s.len(),
{
    let b = b64_decode_seq(s).unwrap();
    if s.len() == 0 {
        assert(b64_encode_seq(b) =~= s);
    } else if s.len() == 2 {
        let v0 = b64_val(s[0]);
        let v1 = b64_val(s[1]);
        lemma_b64_val_char(s[0]);
        lemma_b64_val_char(s[1]);
        let b0 = v0 * 4 + v1 / 16;
        assert(b == seq![b0 as u8]);
        assert(b.len() == 1);
        assert(b[0] as int == b0);
        assert(b0 / 4 == v0);
        assert((b0 % 4) * 16 == v1);
        assert(b64_encode_seq(b) =~= s);
    } else if s.len() == 3 {
        let v0 = b64_val(s[0]);
        let v1 = b64_val(s[1]);
        let v2 = b64_val(s[2]);
        lemma_b64_val_char(s[0]);
        lemma_b64_val_char(s[1]);
        lemma_b64_val_char(s[2]);
        let b0 = v0 * 4 + v1 / 16;
        let b1 = (v1 % 16) * 16 + v2 / 4;
        assert(b == seq![b0 as u8, b1 as u8]);
        assert(b0 / 4 == v0);
        assert((b0 % 4) * 16 + b1 / 16 == v1);
        assert((b1 % 16) * 4 == v2);
        assert(b64_encode_seq(b) =~= s);
    } else {
        let v0 = b64_val(s[0]);
        let v1 = b64_val(s[1]);
        let v2 = b64_val(s[2]);
        let v3 = b64_val(s[3]);
        lemma_b64_val_char(s[0]);
        lemma_b64_val_char(s[1]);
        lemma_b64_val_char(s[2]);
        lemma_b64_val_char(s[3]);
        let rest = b64_decode_seq(s.skip(4)).unwrap();
        lemma_base64url_canonical(s.skip(4));
        let b0 = v0 * 4 + v1 / 16;
        let b1 = (v1 % 16) * 16 + v2 / 4;
        let b2 = (v2 % 4) * 64 + v3;
        assert(b == seq![b0 as u8, b1 as u8, b2 as u8] + rest);
        assert(b.len() >= 3);
        assert(b[0] as int == b0 && b[1] as int == b1 && b[2] as int == b2);
        assert(b0 / 4 == v0);
        assert((b0 % 4) * 16 + b1 / 16 == v1);
        assert((b1 % 16) * 4 + b2 / 64 == v2);
        assert(b2 % 64 == v3);
        assert(b.skip(3) =~= rest);
        assert(b64_encode_seq(b) =~= s);
    }
}

// ---------------------------------------------------------------------------
// base64url: executable codec
// ---------------------------------------------------------------------------

/// Relies on `String::push`: appends the character to the string.
#[verifier::external_body]
fn push_char(s: &mut String, c: char)
    ensures
        final(s)@ == old(s)@ + seq![c],
{
    s.push(c);
}

/// The base64url character for a 6-bit value.
fn encode_b64_char(v: u8) -> (c: char)
    requires
        v < 64,
    ensures
        c == b64_char_of(v as int),
{
    if v < 26 {
        (65 + v) as char
    } else if v < 52 {
        (71 + v) as char
    } else if v < 62 {
        (v - 4) as char
    } else if v == 62 {
        '-'
    } else {
        '_'
    }
}

/// The 6-bit value of a base64url character, or `None` outside the
/// alphabet.
fn decode_b64_char(c: char) -> (v: Option<u8>)
    ensures
        match v {
            Some(x) => x < 64 && b64_val(c) == x as int,
            None => b64_val(c) == -1,
        },
{
    let u = c as u32;
    if 65 <= u && u <= 90 {
        Some((u - 65) as u8)
    } else if 97 <= u && u <= 122 {
        Some((u - 71) as u8)
    } else if 48 <= u && u <= 57 {
        Some((u + 4) as u8)
    } else if u == 45 {
        Some(62)
    } else if u == 95 {
        Some(63)
    } else {
        None
    }
}

fn b64_encode_rec(bytes: &[u8], i: usize, out: &mut String)
    requires
        i <= bytes@.len(),
    ensures
        final(out)@ == old(out)@ + b64_encode_seq(bytes@.skip(i as int)),
    decreases bytes@.len() - i,
{
    let n = bytes.len();
    let ghost tail = bytes@.skip(i as int);
    if i == n {
        assert(tail.len() == 0);
        assert(out@ =~= old(out)@ + b64_encode_seq(tail));
        return;
    }
    let b0 = bytes[i];
    assert(tail[0] == b0);
    if n - i == 1 {
        push_char(out, encode_b64_char(b0 / 4));
        push_char(out, encode_b64_char((b0 % 4) * 16));
        assert(out@ =~= old(out)@ + b64_encode_seq(tail));
    } else {
        let b1 = bytes[i + 1];
        assert(tail[1] == b1);
        if n - i == 2 {
            push_char(out, encode_b64_char(b0 / 4));
            push_char(out, encode_b64_char((b0 % 4) * 16 + b1 / 16));
            push_char(out, encode_b64_char((b1 % 16) * 4));
            assert(out@ =~= old(out)@ + b64_encode_seq(tail));
        } else {
            let b2 = bytes[i + 2];
            assert(tail[2] == b2);
            push_char(out, encode_b64_char(b0 / 4));
            push_char(out, encode_b64_char((b0 % 4) * 16 + b1 / 16));
            push_char(out, encode_b64_char((b1 % 16) * 4 + b2 / 64));
            push_char(out, encode_b64_char(b2 % 64));
            b64_encode_rec(bytes, i + 3, out);
            assert(tail.skip(3) =~= bytes@.skip(i + 3));
            assert(out@ =~= old(out)@ + b64_encode_seq(tail));
        }
    }
}

/// Encode bytes as unpadded base64url.
pub fn base64url_encode(bytes: &[u8]) -> (r: String)
    ensures
        r@ == b64_encode_seq(bytes@),
{
    let mut out = String::new();
    b64_encode_rec(bytes, 0, &mut out);
    proof {
        assert(bytes@.skip(0) =~= bytes@);
        assert(out@ =~= b64_encode_seq(bytes@));
    }
    out
}

fn b64_decode_rec(s: &str, i: usize, n: usize, out: &mut Vec<u8>) -> (ok: bool)
    requires
        i <= n,
        n == s@.len(),
    ensures
        match b64_decode_seq(s@.skip(i as int)) {
            Some(b) => ok && final(out)@ == old(out)@ + b,
            None => !ok,
        },
    decreases n - i,
{
    let ghost tail = s@.skip(i as int);
    if i == n {
        assert(tail.len() == 0);
        assert(out@ =~= old(out)@ + Seq::<u8>::empty());
        return true;
    }
    if n - i == 1 {
        return false;
    }
    let c0 = s.get_char(i);
    let c1 = s.get_char(i + 1);
    assert(tail[0] == c0 && tail[1] == c1);
    let v0 = match decode_b64_char(c0) {
        Some(v) => v,
        None => {
            return false;
        },
    };
    let v1 = match decode_b64_char(c1) {
        Some(v) => v,
        None => {
            return false;
        },
    };
    if n - i == 2 {
        if v1 % 16 != 0 {
            return false;
        }
        out.push(v0 * 4 + v1 / 16);
        assert(out@ =~= old(out)@ + seq![(v0 * 4 + v1 / 16) as u8]);
        return true;
    }
    let c2 = s.get_char(i + 2);
    assert(tail[2] == c2);
    let v2 = match decode_b64_char(c2) {
        Some(v) => v,
        None => {
            return false;
        },
    };
    if n - i == 3 {
        if v2 % 4 != 0 {
            return false;
        }
        out.push(v0 * 4 + v1 / 16);
        out.push((v1 % 16) * 16 + v2 / 4);
        assert(out@ =~= old(out)@ + seq![
            (v0 * 4 + v1 / 16) as u8,
            ((v1 % 16) * 16 + v2 / 4) as u8,
        ]);
        return true;
    }
    let c3 = s.get_char(i + 3);
    assert(tail[3] == c3);
    let v3 = match decode_b64_char(c3) {
        Some(v) => v,
        None => {
            return false;
        },
    };
    out.push(v0 * 4 + v1 / 16);
    out.push((v1 % 16) * 16 + v2 / 4);
    out.push((v2 % 4) * 64 + v3);
    let ghost mid = out@;
    let ok = b64_decode_rec(s, i + 4, n, out);
    proof {
        assert(tail.skip(4) =~= s@.skip(i + 4));
        if b64_decode_seq(tail.skip(4)) is Some {
            let rest = b64_decode_seq(tail.skip(4)).unwrap();
            assert(out@ =~= old(out)@ + (seq![
                (v0 * 4 + v1 / 16) as u8,
                ((v1 % 16) * 16 + v2 / 4) as u8,
                ((v2 % 4) * 64 + v3) as u8,
            ] + rest));
        }
    }
    ok
}

/// Decode unpadded base64url. Fails on any character outside the
/// alphabet, on a length of 1 mod 4, and on nonzero trailing bits.
pub fn base64url_decode(s: &str) -> (r: Result<Vec<u8>, EncodingError>)
    ensures
        match r {
            Ok(v) => b64_decode_seq(s@) == Some(v@),
            Err(e) => b64_decode_seq(s@) is None && e == EncodingError::InvalidBase64UrlData,
        },
{
    let n = s.unicode_len();
    let mut out: Vec<u8> = Vec::new();
    let ok = b64_decode_rec(s, 0, n, &mut out);
    proof {
        assert(s@.skip(0) =~= s@);
    }
    if ok {
        proof {
            let b = b64_decode_seq(s@).unwrap();
            assert(out@ =~= Seq::<u8>::empty() + b);
            assert(out@ =~= b);
        }
        Ok(out)
    } else {
        Err(EncodingError::InvalidBase64UrlData)
    }
}

// ---------------------------------------------------------------------------
// hex: character-level model
// ---------------------------------------------------------------------------

/// The uppercase hex character for a 4-bit value.
pub open spec fn hex_char_of(v: int) -> char {
    if 0 <= v < 10 {
        ((48 + v) as u32) as char  // '0'..'9'
    } else {
        ((55 + v) as u32) as char  // 'A'..'F'
    }
}

/// The 4-bit value of a hex character, either case, or -1 if the
/// character is not a hex digit.
pub open spec fn hex_val(c: char) -> int {
    let u = c as u32;
    if 48 <= u <= 57 {
        u - 48  // '0'..'9'
    } else if 65 <= u <= 70 {
        u - 55  // 'A'..'F'
    } else if 97 <= u <= 102 {
        u - 87  // 'a'..'f'
    } else {
        -1
    }
}

/// `hex_val` inverts `hex_char_of` on every 4-bit value.
pub proof fn lemma_hex_char_val(v: int)
    requires
        0 <= v < 16,
    ensures
        hex_val(hex_char_of(v)) == v,
{
}

/// `hex_char_of` inverts `hex_val` on every digit or uppercase hex
/// character.
pub proof fn lemma_hex_val_char(c: char)
    requires
        hex_val(c) >= 0,
        !(97 <= c as u32 <= 102),
    ensures
        0 <= hex_val(c) < 16,
        hex_char_of(hex_val(c)) == c,
{
}

// ---------------------------------------------------------------------------
// hex: sequence-level model
// ---------------------------------------------------------------------------

/// Uppercase hex encoding: two characters per byte, no separators.
pub open spec fn hex_encode_seq(bytes: Seq<u8>) -> Seq<char>
    decreases bytes.len(),
{
    if bytes.len() == 0 {
        Seq::empty()
    } else {
        let b0 = bytes[0] as int;
        seq![hex_char_of(b0 / 16), hex_char_of(b0 % 16)] + hex_encode_seq(bytes.skip(1))
    }
}

/// Hex decoding of a separator-free character sequence, either case.
/// `None` on odd length or a character that is not a hex digit.
pub open spec fn hex_decode_seq(s: Seq<char>) -> Option<Seq<u8>>
    decreases s.len(),
{
    if s.len() == 0 {
        Some(Seq::empty())
    } else if s.len() == 1 {
        None
    } else {
        let v0 = hex_val(s[0]);
        let v1 = hex_val(s[1]);
        if v0 >= 0 && v1 >= 0 {
            match hex_decode_seq(s.skip(2)) {
                Some(rest) => Some(seq![(v0 * 16 + v1) as u8] + rest),
                None => None,
            }
        } else {
            None
        }
    }
}

/// The characters of a thumbprint with the `:` and space separators
/// removed; every other character stays, in order.
pub open spec fn strip_separators(s: Seq<char>) -> Seq<char>
    decreases s.len(),
{
    if s.len() == 0 {
        Seq::empty()
    } else if s[0] == ':' || s[0] == ' ' {
        strip_separators(s.skip(1))
    } else {
        seq![s[0]] + strip_separators(s.skip(1))
    }
}

/// A sequence without separator characters passes through
/// `strip_separators` unchanged.
pub proof fn lemma_strip_no_separators(s: Seq<char>)
    requires
        forall|i: int| 0 <= i < s.len() ==> #[trigger] s[i] != ':' && s[i] != ' ',
    ensures
        strip_separators(s) == s,
    decreases s.len(),
{
    if s.len() == 0 {
        assert(strip_separators(s) =~= s);
    } else {
        lemma_strip_no_separators(s.skip(1));
        assert(strip_separators(s) =~= seq![s[0]] + s.skip(1));
        assert(seq![s[0]] + s.skip(1) =~= s);
    }
}

/// Every character of a hex encoding is a hex digit, so in particular no
/// separator.
pub proof fn lemma_hex_encoding_chars(bytes: Seq<u8>)
    ensures
        forall|i: int|
            0 <= i < hex_encode_seq(bytes).len() ==> hex_val(
                #[trigger] hex_encode_seq(bytes)[i],
            ) >= 0,
    decreases bytes.len(),
{
    if bytes.len() > 0 {
        let b0 = bytes[0] as int;
        lemma_hex_char_val(b0 / 16);
        lemma_hex_char_val(b0 % 16);
        lemma_hex_encoding_chars(bytes.skip(1));
        assert forall|i: int| 0 <= i < hex_encode_seq(bytes).len() implies hex_val(
            #[trigger] hex_encode_seq(bytes)[i],
        ) >= 0 by {
            if i >= 2 {
                assert(hex_encode_seq(bytes)[i] == hex_encode_seq(bytes.skip(1))[i - 2]);
            }
        }
    }
}

/// Hex characters are never separators, so an encoded thumbprint passes
/// through `strip_separators` unchanged.
pub proof fn lemma_strip_of_hex_encoding(bytes: Seq<u8>)
    ensures
        strip_separators(hex_encode_seq(bytes)) == hex_encode_seq(bytes),
{
    lemma_hex_encoding_chars(bytes);
    assert(hex_val(':') == -1 && hex_val(' ') == -1);
    lemma_strip_no_separators(hex_encode_seq(bytes));
}

// ---------------------------------------------------------------------------
// hex: round-trip laws
// ---------------------------------------------------------------------------

/// Law: hex decoding inverts uppercase hex encoding — every byte sequence
/// survives an encode/decode round trip unchanged, separators included.
pub proof fn lemma_hex_round_trip(bytes: Seq<u8>)
    ensures
        hex_decode_seq(strip_separators(hex_encode_seq(bytes))) == Some(bytes),
    decreases bytes.len(),
{
    lemma_strip_of_hex_encoding(bytes);
    lemma_hex_round_trip_nosep(bytes);
}

/// Hex round trip on the separator-free encoding itself.
pub proof fn lemma_hex_round_trip_nosep(bytes: Seq<u8>)
    ensures
        hex_decode_seq(hex_encode_seq(bytes)) == Some(bytes),
    decreases bytes.len(),
{
    if bytes.len() == 0 {
        assert(hex_decode_seq(hex_encode_seq(bytes)) == Some(Seq::<u8>::empty()));
        assert(bytes =~= Seq::<u8>::empty());
    } else {
        let b0 = bytes[0] as int;
        lemma_hex_char_val(b0 / 16);
        lemma_hex_char_val(b0 % 16);
        lemma_hex_round_trip_nosep(bytes.skip(1));
        let s = hex_encode_seq(bytes);
        assert(s.skip(2) =~= hex_encode_seq(bytes.skip(1)));
        assert(hex_val(s[0]) * 16 + hex_val(s[1]) == b0);
        assert(hex_decode_seq(s) == Some(seq![bytes[0]] + bytes.skip(1)));
        assert(seq![bytes[0]] + bytes.skip(1) =~= bytes);
    }
}

/// Law: uppercase hex encoding inverts decoding on separator-free
/// uppercase input — decodable uppercase strings are exactly the
/// canonical thumbprints.
pub proof fn lemma_hex_canonical(s: Seq<char>)
    requires
        hex_decode_seq(s) is Some,
        forall|i: int| 0 <= i < s.len() ==> !(97 <= #[trigger] s[i] as u32 <= 102),
    ensures
        hex_encode_seq(hex_decode_seq(s).unwrap()) == s,
    decreases s.len(),
{
    let b = hex_decode_seq(s).unwrap();
    if s.len() == 0 {
        assert(hex_encode_seq(b) =~= s);
    } else {
        let v0 = hex_val(s[0]);
        let v1 = hex_val(s[1]);
        let rest = hex_decode_seq(s.skip(2)).unwrap();
        assert(forall|i: int|
            0 <= i < s.skip(2).len() ==> !(97 <= #[trigger] s.skip(2)[i] as u32 <= 102));
        lemma_hex_canonical(s.skip(2));
        let b0 = v0 * 16 + v1;
        assert(b == seq![b0 as u8] + rest);
        assert(b[0] as int == b0);
        assert(b0 / 16 == v0 && b0 % 16 == v1);
        assert(!(97 <= s[0] as u32 <= 102) && !(97 <= s[1] as u32 <= 102));
        lemma_hex_val_char(s[0]);
        lemma_hex_val_char(s[1]);
        assert(hex_char_of(v0) == s[0] && hex_char_of(v1) == s[1]);
        assert(b.skip(1) =~= rest);
        assert(hex_encode_seq(b) == seq![hex_char_of(b0 / 16), hex_char_of(b0 % 16)]
            + hex_encode_seq(b.skip(1)));
        assert(hex_encode_seq(b.skip(1)) == s.skip(2));
        assert(hex_encode_seq(b) == seq![s[0], s[1]] + s.skip(2));
        assert(seq![s[0], s[1]] + s.skip(2) =~= s);
    }
}

// ---------------------------------------------------------------------------
// hex: executable codec
// ---------------------------------------------------------------------------

/// The uppercase hex character for a 4-bit value.
fn encode_hex_char(v: u8) -> (c: char)
    requires
        v < 16,
    ensures
        c == hex_char_of(v as int),
{
    if v < 10 {
        (48 + v) as char
    } else {
        (55 + v) as char
    }
}

/// The 4-bit value of a hex character, either case, or `None` if it is
/// not a hex digit.
fn decode_hex_char(c: char) -> (v: Option<u8>)
    ensures
        match v {
            Some(x) => x < 16 && hex_val(c) == x as int,
            None => hex_val(c) == -1,
        },
{
    let u = c as u32;
    if 48 <= u && u <= 57 {
        Some((u - 48) as u8)
    } else if 65 <= u && u <= 70 {
        Some((u - 55) as u8)
    } else if 97 <= u && u <= 102 {
        Some((u - 87) as u8)
    } else {
        None
    }
}

fn hex_encode_rec(bytes: &[u8], i: usize, out: &mut String)
    requires
        i <= bytes@.len(),
    ensures
        final(out)@ == old(out)@ + hex_encode_seq(bytes@.skip(i as int)),
    decreases bytes@.len() - i,
{
    let ghost tail = bytes@.skip(i as int);
    if i == bytes.len() {
        assert(tail.len() == 0);
        assert(out@ =~= old(out)@ + hex_encode_seq(tail));
        return;
    }
    let b0 = bytes[i];
    assert(tail[0] == b0);
    push_char(out, encode_hex_char(b0 / 16));
    push_char(out, encode_hex_char(b0 % 16));
    hex_encode_rec(bytes, i + 1, out);
    assert(tail.skip(1) =~= bytes@.skip(i + 1));
    assert(out@ =~= old(out)@ + hex_encode_seq(tail));
}

/// Encode bytes as uppercase hex, two characters per byte, no
/// separators: the platform thumbprint convention.
pub fn hex_encode_upper(bytes: &[u8]) -> (r: String)
    ensures
        r@ == hex_encode_seq(bytes@),
{
    let mut out = String::new();
    hex_encode_rec(bytes, 0, &mut out);
    proof {
        assert(bytes@.skip(0) =~= bytes@);
        assert(out@ =~= hex_encode_seq(bytes@));
    }
    out
}

fn strip_separators_rec(s: &str, i: usize, n: usize, out: &mut String)
    requires
        i <= n,
        n == s@.len(),
    ensures
        final(out)@ == old(out)@ + strip_separators(s@.skip(i as int)),
    decreases n - i,
{
    let ghost tail = s@.skip(i as int);
    if i == n {
        assert(tail.len() == 0);
        assert(out@ =~= old(out)@ + strip_separators(tail));
        return;
    }
    let c = s.get_char(i);
    assert(tail[0] == c);
    if !(c == ':' || c == ' ') {
        push_char(out, c);
    }
    strip_separators_rec(s, i + 1, n, out);
    assert(tail.skip(1) =~= s@.skip(i + 1));
    assert(out@ =~= old(out)@ + strip_separators(tail));
}

fn hex_decode_rec(s: &str, i: usize, n: usize, out: &mut Vec<u8>) -> (ok: bool)
    requires
        i <= n,
        n == s@.len(),
    ensures
        match hex_decode_seq(s@.skip(i as int)) {
            Some(b) => ok && final(out)@ == old(out)@ + b,
            None => !ok,
        },
    decreases n - i,
{
    let ghost tail = s@.skip(i as int);
    if i == n {
        assert(tail.len() == 0);
        assert(out@ =~= old(out)@ + Seq::<u8>::empty());
        return true;
    }
    if n - i == 1 {
        return false;
    }
    let c0 = s.get_char(i);
    let c1 = s.get_char(i + 1);
    assert(tail[0] == c0 && tail[1] == c1);
    let v0 = match decode_hex_char(c0) {
        Some(v) => v,
        None => {
            return false;
        },
    };
    let v1 = match decode_hex_char(c1) {
        Some(v) => v,
        None => {
            return false;
        },
    };
    out.push(v0 * 16 + v1);
    let ok = hex_decode_rec(s, i + 2, n, out);
    proof {
        assert(tail.skip(2) =~= s@.skip(i + 2));
        if hex_decode_seq(tail.skip(2)) is Some {
            let rest = hex_decode_seq(tail.skip(2)).unwrap();
            assert(out@ =~= old(out)@ + (seq![(v0 * 16 + v1) as u8] + rest));
        }
    }
    ok
}

/// Decode a hex thumbprint: `:` and space separators are stripped first,
/// and both character cases are accepted. Fails on odd length or a
/// character that is not a hex digit.
pub fn hex_decode(s: &str) -> (r: Result<Vec<u8>, EncodingError>)
    ensures
        match r {
            Ok(v) => hex_decode_seq(strip_separators(s@)) == Some(v@),
            Err(e) => hex_decode_seq(strip_separators(s@)) is None && e
                == EncodingError::InvalidHexData,
        },
{
    let n = s.unicode_len();
    let mut stripped = String::new();
    strip_separators_rec(s, 0, n, &mut stripped);
    proof {
        assert(s@.skip(0) =~= s@);
    }
    let sn = stripped.as_str().unicode_len();
    let mut out: Vec<u8> = Vec::new();
    let ok = hex_decode_rec(stripped.as_str(), 0, sn, &mut out);
    proof {
        assert(stripped@.skip(0) =~= stripped@);
    }
    if ok {
        proof {
            let b = hex_decode_seq(strip_separators(s@)).unwrap();
            assert(out@ =~= Seq::<u8>::empty() + b);
            assert(out@ =~= b);
        }
        Ok(out)
    } else {
        Err(EncodingError::InvalidHexData)
    }
}

// ---------------------------------------------------------------------------
// composite conversions between the two fingerprint conventions
// ---------------------------------------------------------------------------

/// Convert a base64url SHA-1 fingerprint to the platform uppercase hex
/// thumbprint of the same bytes.
pub fn x5t_to_windows_thumbprint_hex(x5t: &str) -> (r: Result<String, EncodingError>)
    ensures
        match r {
            Ok(h) => b64_decode_seq(x5t@) is Some && h@ == hex_encode_seq(
                b64_decode_seq(x5t@).unwrap(),
            ),
            Err(e) => b64_decode_seq(x5t@) is None && e == EncodingError::InvalidBase64UrlData,
        },
{
    let bytes = base64url_decode(x5t)?;
    Ok(hex_encode_upper(bytes.as_slice()))
}

/// Convert a platform hex thumbprint (separators and either case
/// accepted) to the base64url fingerprint of the same bytes.
pub fn windows_thumbprint_hex_to_x5t(hex_value: &str) -> (r: Result<String, EncodingError>)
    ensures
        match r {
            Ok(f) => hex_decode_seq(strip_separators(hex_value@)) is Some && f@ == b64_encode_seq(
                hex_decode_seq(strip_separators(hex_value@)).unwrap(),
            ),
            Err(e) => hex_decode_seq(strip_separators(hex_value@)) is None && e
                == EncodingError::InvalidHexData,
        },
{
    let bytes = hex_decode(hex_value)?;
    Ok(base64url_encode(bytes.as_slice()))
}

/// Convert a base64url SHA-256 fingerprint to uppercase hex. The bytes
/// are longer, the conversion is the same.
pub fn x5t_s256_to_hex(x5t_s256: &str) -> (r: Result<String, EncodingError>)
    ensures
        match r {
            Ok(h) => b64_decode_seq(x5t_s256@) is Some && h@ == hex_encode_seq(
                b64_decode_seq(x5t_s256@).unwrap(),
            ),
            Err(e) => b64_decode_seq(x5t_s256@) is None && e == EncodingError::InvalidBase64UrlData,
        },
{
    let bytes = base64url_decode(x5t_s256)?;
    Ok(hex_encode_upper(bytes.as_slice()))
}

/// Convert an uppercase hex SHA-256 thumbprint to base64url.
pub fn hex_to_x5t_s256(hex_value: &str) -> (r: Result<String, EncodingError>)
    ensures
        match r {
            Ok(f) => hex_decode_seq(strip_separators(hex_value@)) is Some && f@ == b64_encode_seq(
                hex_decode_seq(strip_separators(hex_value@)).unwrap(),
            ),
            Err(e) => hex_decode_seq(strip_separators(hex_value@)) is None && e
                == EncodingError::InvalidHexData,
        },
{
    let bytes = hex_decode(hex_value)?;
    Ok(base64url_encode(bytes.as_slice()))
}

/// Law: converting a valid base64url fingerprint to a hex thumbprint and
/// back reproduces the fingerprint exactly, and both pass through the
/// same byte sequence.
pub proof fn lemma_cross_encoding_round_trip(f: Seq<char>)
    requires
        b64_decode_seq(f) is Some,
    ensures
        ({
            let b = b64_decode_seq(f).unwrap();
            let h = hex_encode_seq(b);
            hex_decode_seq(strip_separators(h)) == Some(b) && b64_encode_seq(b) == f
        }),
{
    let b = b64_decode_seq(f).unwrap();
    lemma_hex_round_trip(b);
    lemma_base64url_canonical(f);
}

} // verus!
