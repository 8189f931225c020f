//! Versioned, bounded character share codes.
//!
//! A share code is `cw1:` followed by the unpadded URL-safe Base64 encoding of
//! the character's compact JSON. This module frames and checks the bytes; the
//! JSON itself is produced and parsed by the caller.

use vstd::prelude::*;
use vstd::utf8::{decode_utf8, encode_utf8, is_ascii_chars, is_ascii_chars_encode_utf8, valid_utf8};

use crate::text::{push_char, trim, trim_exec};

verus! {

/// The largest accepted share code, in bytes: a 256 KiB payload and the prefix.
pub const MAX_CODE_BYTES: usize = 262148;

/// The largest accepted character JSON, in bytes (192 KiB).
pub const MAX_JSON_BYTES: usize = 196608;

/// The byte that stands for a 6-bit value in the URL-safe Base64 alphabet.
pub open spec fn alphabet_byte(v: u8) -> u8 {
    if v < 26 {
        (65 + v) as u8
    } else if v < 52 {
        (71 + v) as u8
    } else if v < 62 {
        (v - 4) as u8
    } else if v == 62 {
        45u8
    } else {
        95u8
    }
}

/// The 6-bit value a byte stands for in the URL-safe Base64 alphabet, if any.
pub open spec fn sextet_value(b: u8) -> Option<u8> {
    if 65 <= b <= 90 {
        Some((b - 65) as u8)
    } else if 97 <= b <= 122 {
        Some((b - 71) as u8)
    } else if 48 <= b <= 57 {
        Some((b + 4) as u8)
    } else if b == 45 {
        Some(62u8)
    } else if b == 95 {
        Some(63u8)
    } else {
        None
    }
}

/// The 6-bit values that encode a chunk of at most three bytes.
pub open spec fn chunk_sextets(b: Seq<u8>) -> Seq<u8> {
    if b.len() == 0 {
        seq![]
    } else if b.len() == 1 {
        seq![b[0] >> 2u8, (b[0] & 3u8) << 4u8]
    } else if b.len() == 2 {
        seq![b[0] >> 2u8, ((b[0] & 3u8) << 4u8) | (b[1] >> 4u8), (b[1] & 15u8) << 2u8]
    } else {
        seq![
            b[0] >> 2u8,
            ((b[0] & 3u8) << 4u8) | (b[1] >> 4u8),
            ((b[1] & 15u8) << 2u8) | (b[2] >> 6u8),
            b[2] & 63u8,
        ]
    }
}

/// The 6-bit values that encode `b`, three bytes to four values, without padding.
pub open spec fn sextets(b: Seq<u8>) -> Seq<u8>
    decreases b.len(),
{
    if b.len() <= 3 {
        chunk_sextets(b)
    } else {
        chunk_sextets(b.subrange(0, 3)) + sextets(b.subrange(3, b.len() as int))
    }
}

/// The bytes that a chunk of two to four 6-bit values decodes to.
pub open spec fn chunk_octets(v: Seq<u8>) -> Seq<u8> {
    if v.len() < 2 {
        seq![]
    } else if v.len() == 2 {
        seq![(v[0] << 2u8) | (v[1] >> 4u8)]
    } else if v.len() == 3 {
        seq![(v[0] << 2u8) | (v[1] >> 4u8), (v[1] << 4u8) | (v[2] >> 2u8)]
    } else {
        seq![(v[0] << 2u8) | (v[1] >> 4u8), (v[1] << 4u8) | (v[2] >> 2u8), (v[2] << 6u8) | v[3]]
    }
}

/// The bytes that a run of 6-bit values decodes to, four values at a time.
pub open spec fn octets(v: Seq<u8>) -> Seq<u8>
    decreases v.len(),
{
    if v.len() <= 4 {
        chunk_octets(v)
    } else {
        chunk_octets(v.subrange(0, 4)) + octets(v.subrange(4, v.len() as int))
    }
}

/// The URL-safe Base64 text of `b`, as characters.
pub open spec fn base64url_chars(b: Seq<u8>) -> Seq<char> {
    sextets(b).map_values(|v: u8| alphabet_byte(v) as char)
}

/// Every byte of `p` belongs to the URL-safe Base64 alphabet.
pub open spec fn all_sextets(p: Seq<u8>) -> bool {
    forall|i: int| 0 <= i < p.len() ==> (#[trigger] sextet_value(p[i])) is Some
}

/// The 6-bit values of an all-alphabet payload.
pub open spec fn sextet_values(p: Seq<u8>) -> Seq<u8> {
    p.map_values(|b: u8| sextet_value(b)->0)
}

/// The bytes an unpadded URL-safe Base64 payload decodes to, or why it cannot.
pub open spec fn base64url_decoded(p: Seq<u8>) -> Result<Seq<u8>, Seq<char>> {
    if p.len() % 4 == 1 {
        Err("character share payload has an invalid length"@)
    } else if !all_sextets(p) {
        Err("character share payload is not valid base64url"@)
    } else {
        Ok(octets(sextet_values(p)))
    }
}

/// The share code of a character's JSON bytes, or why there is none.
pub open spec fn share_code(json: Seq<u8>) -> Result<Seq<char>, Seq<char>> {
    if json.len() > MAX_JSON_BYTES {
        Err("character JSON exceeds the 192 KiB share limit"@)
    } else {
        Ok("cw1:"@ + base64url_chars(json))
    }
}

/// The bytes of the version prefix `cw1:`.
pub open spec fn prefix_bytes() -> Seq<u8> {
    seq![99u8, 119u8, 49u8, 58u8]
}

/// `bytes` begins with `prefix`.
pub open spec fn starts_with(bytes: Seq<u8>, prefix: Seq<u8>) -> bool {
    bytes.len() >= prefix.len() && bytes.subrange(0, prefix.len() as int) == prefix
}

/// The JSON text a share code carries, or why it is refused.
///
/// The code is trimmed; its UTF-8 bytes must fit the input limit, begin with
/// `cw1:` and carry a non-empty payload that decodes to at most the JSON
/// limit of valid UTF-8.
pub open spec fn shared_json(code: Seq<char>) -> Result<Seq<char>, Seq<char>> {
    let bytes = encode_utf8(trim(code));
    if bytes.len() > MAX_CODE_BYTES {
        Err("share code exceeds the 256 KiB input limit"@)
    } else if !starts_with(bytes, prefix_bytes()) {
        if starts_with(bytes, seq![99u8, 119u8]) {
            Err("unsupported character share-code version"@)
        } else {
            Err("character share code must start with cw1:"@)
        }
    } else if bytes.len() == 4 {
        Err("character share code has an empty payload"@)
    } else {
        match base64url_decoded(bytes.subrange(4, bytes.len() as int)) {
            Err(e) => Err(e),
            Ok(raw) => if raw.len() > MAX_JSON_BYTES {
                Err("decoded character exceeds the 192 KiB share limit"@)
            } else if !valid_utf8(raw) {
                Err("character share payload is not UTF-8 JSON"@)
            } else {
                Ok(decode_utf8(raw))
            },
        }
    }
}

proof fn lemma_sextets_append(x: Seq<u8>, c: Seq<u8>)
    requires
        x.len() % 3 == 0,
        c.len() <= 3,
    ensures
        sextets(x + c) == sextets(x) + chunk_sextets(c),
    decreases x.len(),
{
    if x.len() == 0 {
        assert(x + c =~= c);
        assert(sextets(x) =~= seq![]);
        assert(sextets(x) + chunk_sextets(c) =~= chunk_sextets(c));
    } else if c.len() == 0 {
        assert(x + c =~= x);
        assert(chunk_sextets(c) =~= seq![]);
        assert(sextets(x) + chunk_sextets(c) =~= sextets(x));
    } else {
        let xc = x + c;
        assert(xc.subrange(0, 3) =~= x.subrange(0, 3));
        assert(xc.subrange(3, xc.len() as int) =~= x.subrange(3, x.len() as int) + c);
        lemma_sextets_append(x.subrange(3, x.len() as int), c);
        if x.len() == 3 {
            assert(x.subrange(0, 3) =~= x);
            assert(x.subrange(3, x.len() as int) =~= seq![]);
            assert(sextets(x.subrange(3, x.len() as int)) =~= seq![]);
        }
        assert(sextets(xc) =~= sextets(x) + chunk_sextets(c));
    }
}

proof fn lemma_octets_append(x: Seq<u8>, c: Seq<u8>)
    requires
        x.len() % 4 == 0,
        c.len() <= 4,
    ensures
        octets(x + c) == octets(x) + chunk_octets(c),
    decreases x.len(),
{
    if x.len() == 0 {
        assert(x + c =~= c);
        assert(octets(x) =~= seq![]);
        assert(octets(x) + chunk_octets(c) =~= chunk_octets(c));
    } else if c.len() == 0 {
        assert(x + c =~= x);
        assert(chunk_octets(c) =~= seq![]);
        assert(octets(x) + chunk_octets(c) =~= octets(x));
    } else {
        let xc = x + c;
        assert(xc.subrange(0, 4) =~= x.subrange(0, 4));
        assert(xc.subrange(4, xc.len() as int) =~= x.subrange(4, x.len() as int) + c);
        lemma_octets_append(x.subrange(4, x.len() as int), c);
        if x.len() == 4 {
            assert(x.subrange(0, 4) =~= x);
            assert(x.subrange(4, x.len() as int) =~= seq![]);
            assert(octets(x.subrange(4, x.len() as int)) =~= seq![]);
        }
        assert(octets(xc) =~= octets(x) + chunk_octets(c));
    }
}

proof fn lemma_sextet_bits(b0: u8, b1: u8, b2: u8)
    ensures
        b0 >> 2u8 < 64,
        (b0 & 3u8) << 4u8 < 64,
        ((b0 & 3u8) << 4u8) | (b1 >> 4u8) < 64,
        (b1 & 15u8) << 2u8 < 64,
        ((b1 & 15u8) << 2u8) | (b2 >> 6u8) < 64,
        b2 & 63u8 < 64,
{
    assert(b0 >> 2u8 < 64) by (bit_vector);
    assert((b0 & 3u8) << 4u8 < 64) by (bit_vector);
    assert(((b0 & 3u8) << 4u8) | (b1 >> 4u8) < 64) by (bit_vector);
    assert((b1 & 15u8) << 2u8 < 64) by (bit_vector);
    assert(((b1 & 15u8) << 2u8) | (b2 >> 6u8) < 64) by (bit_vector);
    assert(b2 & 63u8 < 64) by (bit_vector);
}

proof fn lemma_chunk_round_trip(b: Seq<u8>)
    requires
        1 <= b.len() <= 3,
    ensures
        chunk_octets(chunk_sextets(b)) == b,
{
    let b0 = b[0];
    assert(((b0 >> 2u8) << 2u8) | (((b0 & 3u8) << 4u8) >> 4u8) == b0) by (bit_vector);
    if b.len() >= 2 {
        let b1 = b[1];
        assert(((b0 >> 2u8) << 2u8) | ((((b0 & 3u8) << 4u8) | (b1 >> 4u8)) >> 4u8) == b0) by (bit_vector);
        assert(((((b0 & 3u8) << 4u8) | (b1 >> 4u8)) << 4u8) | (((b1 & 15u8) << 2u8) >> 2u8) == b1) by (bit_vector);
        if b.len() == 3 {
            let b2 = b[2];
            assert(((((b0 & 3u8) << 4u8) | (b1 >> 4u8)) << 4u8) | ((((b1 & 15u8) << 2u8) | (b2 >> 6u8)) >> 2u8)
                == b1) by (bit_vector);
            assert(((((b1 & 15u8) << 2u8) | (b2 >> 6u8)) << 6u8) | (b2 & 63u8) == b2) by (bit_vector);
        }
    }
    assert(chunk_octets(chunk_sextets(b)) =~= b);
}

/// Decoding the 6-bit values of `b` gives back `b`.
pub proof fn lemma_octets_of_sextets(b: Seq<u8>)
    ensures
        octets(sextets(b)) == b,
    decreases b.len(),
{
    if b.len() == 0 {
        assert(octets(sextets(b)) =~= b);
    } else if b.len() <= 3 {
        lemma_chunk_round_trip(b);
    } else {
        let head = b.subrange(0, 3);
        let rest = b.subrange(3, b.len() as int);
        let hs = chunk_sextets(head);
        let rs = sextets(rest);
        assert(hs.len() == 4);
        lemma_octets_of_sextets(rest);
        lemma_chunk_round_trip(head);
        let all = hs + rs;
        assert(sextets(b) == all);
        if rs.len() == 0 {
            assert(all =~= hs);
        } else {
            assert(all.subrange(0, 4) =~= hs);
            assert(all.subrange(4, all.len() as int) =~= rs);
        }
        assert(octets(all) =~= head + rest);
        assert(head + rest =~= b);
    }
}

/// The number of 6-bit values that encode `n` bytes.
pub open spec fn sextet_count(n: nat) -> nat {
    4 * (n / 3) + if n % 3 == 0 {
        0
    } else {
        n % 3 + 1
    }
}

proof fn lemma_sextets_shape(b: Seq<u8>)
    ensures
        sextets(b).len() == sextet_count(b.len()),
        forall|i: int| 0 <= i < sextets(b).len() ==> #[trigger] sextets(b)[i] < 64,
    decreases b.len(),
{
    if b.len() > 0 {
        let b0 = b[0];
        let b1 = if b.len() > 1 { b[1] } else { 0u8 };
        let b2 = if b.len() > 2 { b[2] } else { 0u8 };
        lemma_sextet_bits(b0, b1, b2);
    }
    if b.len() > 3 {
        let rest = b.subrange(3, b.len() as int);
        lemma_sextets_shape(rest);
        let hs = chunk_sextets(b.subrange(0, 3));
        assert forall|i: int| 0 <= i < sextets(b).len() implies #[trigger] sextets(b)[i] < 64 by {
            if i >= 4 {
                assert(sextets(b)[i] == sextets(rest)[i - 4]);
            }
        }
    }
}


/// `std::str::from_utf8` on a byte slice, owned.
///
/// Trusted: the standard library documents that `from_utf8` succeeds exactly
/// on valid UTF-8 and then holds the characters the bytes encode; the
/// contract states this with the UTF-8 definitions of `vstd::utf8`.
#[verifier::external_body]
fn utf8_string(bytes: &[u8]) -> (r: Option<String>)
    ensures
        match r {
            Some(text) => valid_utf8(bytes@) && text@ == decode_utf8(bytes@),
            None => !valid_utf8(bytes@),
        },
{
    match std::str::from_utf8(bytes) {
        Ok(text) => Some(text.to_owned()),
        Err(_) => None,
    }
}

fn alphabet_char(v: u8) -> (c: char)
    requires
        v < 64,
    ensures
        c == alphabet_byte(v) as char,
{
    let b: u8 = if v < 26 {
        65 + v
    } else if v < 52 {
        71 + v
    } else if v < 62 {
        v - 4
    } else if v == 62 {
        45
    } else {
        95
    };
    b as char
}

fn sextet_value_exec(b: u8) -> (r: Option<u8>)
    ensures
        r == sextet_value(b),
{
    if 65 <= b && b <= 90 {
        Some(b - 65)
    } else if 97 <= b && b <= 122 {
        Some(b - 71)
    } else if 48 <= b && b <= 57 {
        Some(b + 4)
    } else if b == 45 {
        Some(62)
    } else if b == 95 {
        Some(63)
    } else {
        None
    }
}

/// Encode a character's compact JSON as a versioned, URL-safe, unpadded share code.
pub fn encode(json: &[u8]) -> (r: Result<String, String>)
    ensures
        match share_code(json@) {
            Ok(code) => match r {
                Ok(s) => s@ == code,
                Err(_) => false,
            },
            Err(message) => match r {
                Err(e) => e@ == message,
                Ok(_) => false,
            },
        },
{
    if json.len() > MAX_JSON_BYTES {
        return Err(crate::text::owned("character JSON exceeds the 192 KiB share limit"));
    }
    let mut out = String::new();
    out.append("cw1:");
    let mut i: usize = 0;
    while i < json.len()
        invariant
            i <= json.len(),
            i % 3 == 0 || i == json.len(),
            out@ == "cw1:"@ + base64url_chars(json@.subrange(0, i as int)),
        decreases json.len() - i,
    {
        let n = json.len() - i;
        let first = json[i];
        let second: u8 = if n > 1 { json[i + 1] } else { 0 };
        let third: u8 = if n > 2 { json[i + 2] } else { 0 };
        let end = if n >= 3 { i + 3 } else { json.len() };
        let ghost before = json@.subrange(0, i as int);
        let ghost chunk = json@.subrange(i as int, end as int);
        let ghost old_out = out@;
        proof {
            lemma_sextet_bits(first, second, third);
            lemma_sextets_append(before, chunk);
            assert(json@.subrange(0, end as int) =~= before + chunk);
            assert(((first & 3u8) << 4u8) | (0u8 >> 4u8) == (first & 3u8) << 4u8) by (bit_vector);
            assert(((second & 15u8) << 2u8) | (0u8 >> 6u8) == (second & 15u8) << 2u8) by (bit_vector);
        }
        let s0 = first >> 2;
        let s1 = ((first & 3) << 4) | (second >> 4);
        push_char(&mut out, alphabet_char(s0));
        push_char(&mut out, alphabet_char(s1));
        if n > 1 {
            let s2 = ((second & 15) << 2) | (third >> 6);
            push_char(&mut out, alphabet_char(s2));
        }
        if n > 2 {
            let s3 = third & 63;
            push_char(&mut out, alphabet_char(s3));
        }
        proof {
            let cs = chunk_sextets(chunk);
            assert(sextets(json@.subrange(0, end as int)) == sextets(before) + cs);
            assert(out@ =~= old_out + cs.map_values(|v: u8| alphabet_byte(v) as char));
            assert(base64url_chars(json@.subrange(0, end as int)) =~= base64url_chars(before) + cs.map_values(
                |v: u8| alphabet_byte(v) as char,
            ));
        }
        i = end;
    }
    assert(json@.subrange(0, json@.len() as int) =~= json@);
    Ok(out)
}

/// Decode an unpadded URL-safe Base64 payload.
fn decode_base64url(payload: &Vec<u8>) -> (r: Result<Vec<u8>, String>)
    ensures
        match base64url_decoded(payload@) {
            Ok(bytes) => match r {
                Ok(v) => v@ == bytes,
                Err(_) => false,
            },
            Err(message) => match r {
                Err(e) => e@ == message,
                Ok(_) => false,
            },
        },
{
    if payload.len() % 4 == 1 {
        return Err(crate::text::owned("character share payload has an invalid length"));
    }
    let mut values: Vec<u8> = Vec::new();
    let mut i: usize = 0;
    while i < payload.len()
        invariant
            i <= payload.len(),
            payload@.len() % 4 != 1,
            values@.len() == i,
            forall|j: int| 0 <= j < i ==> (#[trigger] sextet_value(payload@[j])) is Some,
            forall|j: int| 0 <= j < i ==> values@[j] == sextet_value(payload@[j])->0,
        decreases payload.len() - i,
    {
        match sextet_value_exec(payload[i]) {
            Some(v) => values.push(v),
            None => {
                assert(!all_sextets(payload@));
                return Err(crate::text::owned("character share payload is not valid base64url"));
            },
        }
        i = i + 1;
    }
    assert(values@ =~= sextet_values(payload@));
    let mut out: Vec<u8> = Vec::new();
    let mut k: usize = 0;
    while k < values.len()
        invariant
            k <= values.len(),
            values@.len() == payload@.len(),
            payload@.len() % 4 != 1,
            k % 4 == 0 || k == values.len(),
            out@ == octets(values@.subrange(0, k as int)),
        decreases values.len() - k,
    {
        let m = values.len() - k;
        let end = if m >= 4 { k + 4 } else { values.len() };
        let ghost before = values@.subrange(0, k as int);
        let ghost chunk = values@.subrange(k as int, end as int);
        let ghost old_out = out@;
        proof {
            lemma_octets_append(before, chunk);
            assert(values@.subrange(0, end as int) =~= before + chunk);
        }
        out.push((values[k] << 2) | (values[k + 1] >> 4));
        if m > 2 {
            out.push((values[k + 1] << 4) | (values[k + 2] >> 2));
        }
        if m > 3 {
            out.push((values[k + 2] << 6) | values[k + 3]);
        }
        assert(out@ =~= old_out + chunk_octets(chunk));
        k = end;
    }
    assert(values@.subrange(0, values@.len() as int) =~= values@);
    Ok(out)
}

/// Decode and check an untrusted share code, giving the JSON text it carries.
///
/// The JSON must still be parsed and validated as a character record, and
/// its pack mechanics resolved, by the caller.
pub fn decode(code: &str) -> (r: Result<String, String>)
    ensures
        match shared_json(code@) {
            Ok(text) => match r {
                Ok(s) => s@ == text,
                Err(_) => false,
            },
            Err(message) => match r {
                Err(e) => e@ == message,
                Ok(_) => false,
            },
        },
{
    let trimmed = trim_exec(code);
    let bytes: &[u8] = trimmed.as_str().as_bytes();
    assert(bytes@ == encode_utf8(trim(code@)));
    if bytes.len() > MAX_CODE_BYTES {
        return Err(crate::text::owned("share code exceeds the 256 KiB input limit"));
    }
    if !(bytes.len() >= 4 && bytes[0] == 99 && bytes[1] == 119 && bytes[2] == 49 && bytes[3] == 58) {
        proof {
            if bytes@.len() >= 4 {
                assert(bytes@.subrange(0, 4) == prefix_bytes() ==> bytes@[0] == 99 && bytes@[1] == 119
                    && bytes@[2] == 49 && bytes@[3] == 58);
            }
        }
        if bytes.len() >= 2 && bytes[0] == 99 && bytes[1] == 119 {
            assert(bytes@.subrange(0, 2) =~= seq![99u8, 119u8]);
            return Err(crate::text::owned("unsupported character share-code version"));
        }
        proof {
            if bytes@.len() >= 2 {
                assert(bytes@.subrange(0, 2) == seq![99u8, 119u8] ==> bytes@[0] == 99 && bytes@[1] == 119);
            }
        }
        return Err(crate::text::owned("character share code must start with cw1:"));
    }
    assert(bytes@.subrange(0, 4) =~= prefix_bytes());
    if bytes.len() == 4 {
        return Err(crate::text::owned("character share code has an empty payload"));
    }
    let mut payload: Vec<u8> = Vec::new();
    let mut i: usize = 4;
    while i < bytes.len()
        invariant
            4 <= i <= bytes.len(),
            payload@ == bytes@.subrange(4, i as int),
        decreases bytes.len() - i,
    {
        payload.push(bytes[i]);
        i = i + 1;
    }
    let raw = decode_base64url(&payload)?;
    if raw.len() > MAX_JSON_BYTES {
        return Err(crate::text::owned("decoded character exceeds the 192 KiB share limit"));
    }
    match utf8_string(raw.as_slice()) {
        Some(text) => Ok(text),
        None => Err(crate::text::owned("character share payload is not UTF-8 JSON")),
    }
}


proof fn lemma_alphabet(v: u8)
    requires
        v < 64,
    ensures
        alphabet_byte(v) < 128,
        (alphabet_byte(v) as char) as u8 == alphabet_byte(v),
        sextet_value(alphabet_byte(v)) == Some(v),
        !crate::text::is_whitespace(alphabet_byte(v) as char),
{
}

/// A character of the URL-safe Base64 alphabet: a letter, a digit, `-` or `_`.
pub open spec fn url_safe_char(c: char) -> bool {
    ('A' <= c && c <= 'Z') || ('a' <= c && c <= 'z') || ('0' <= c && c <= '9') || c == '-' || c == '_'
}

proof fn lemma_alphabet_url_safe(v: u8)
    requires
        v < 64,
    ensures
        url_safe_char(alphabet_byte(v) as char),
{
}

/// Every share code within the size limit is the version prefix `cw1:`
/// followed only by URL-safe Base64 characters: it carries no padding, no
/// space and nothing that needs escaping in a URL.
pub proof fn lemma_share_code_is_url_safe(json: Seq<u8>)
    requires
        json.len() <= MAX_JSON_BYTES,
    ensures
        match share_code(json) {
            Ok(code) => code.subrange(0, 4) == "cw1:"@ && forall|i: int|
                4 <= i < code.len() ==> url_safe_char(#[trigger] code[i]),
            Err(_) => false,
        },
{
    reveal_strlit("cw1:");
    let s = sextets(json);
    lemma_sextets_shape(json);
    let chars = base64url_chars(json);
    let code = "cw1:"@ + chars;
    assert(share_code(json) == Ok::<Seq<char>, Seq<char>>(code));
    assert(code.subrange(0, 4) =~= "cw1:"@);
    assert forall|i: int| 4 <= i < code.len() implies url_safe_char(#[trigger] code[i]) by {
        assert(code[i] == chars[i - 4]);
        assert(chars[i - 4] == alphabet_byte(s[i - 4]) as char);
        lemma_alphabet_url_safe(s[i - 4]);
    }
}

/// A share code made from JSON bytes decodes back to the text of those bytes.
///
/// This holds for every non-empty valid UTF-8 JSON within the size limit;
/// the empty JSON is refused on the way back for its empty payload.
pub proof fn lemma_share_round_trip(json: Seq<u8>)
    requires
        0 < json.len() <= MAX_JSON_BYTES,
        valid_utf8(json),
    ensures
        match share_code(json) {
            Ok(code) => shared_json(code) == Ok::<Seq<char>, Seq<char>>(decode_utf8(json)),
            Err(_) => false,
        },
{
    reveal_strlit("cw1:");
    let s = sextets(json);
    lemma_sextets_shape(json);
    let chars = base64url_chars(json);
    let code = "cw1:"@ + chars;
    assert(share_code(json) == Ok::<Seq<char>, Seq<char>>(code));
    assert forall|i: int| 0 <= i < s.len() implies #[trigger] chars[i] == alphabet_byte(s[i]) as char by {}
    assert forall|i: int| 0 <= i < s.len() implies (alphabet_byte(#[trigger] s[i]) as char) as u8 == alphabet_byte(s[i])
        && alphabet_byte(s[i]) < 128 && !crate::text::is_whitespace(alphabet_byte(s[i]) as char) by {
        lemma_alphabet(s[i]);
    }
    // The code is ASCII, starts and ends with a non-space, and so trims to itself.
    assert(code[0] == 'c');
    assert(code.len() == 4 + s.len());
    assert(!crate::text::is_whitespace(code.last())) by {
        if s.len() == 0 {
            assert(code.last() == ':');
        } else {
            assert(code.last() == chars[s.len() - 1]);
        }
    }
    assert(crate::text::trim_start(code) == code);
    assert(crate::text::trim_end(code) == code);
    assert(trim(code) == code);
    assert(is_ascii_chars(code)) by {
        assert forall|i: int| 0 <= i < code.len() implies '\0' <= #[trigger] code[i] <= '\u{7f}' by {
            if i >= 4 {
                assert(code[i] == chars[i - 4]);
            }
        }
    }
    is_ascii_chars_encode_utf8(code);
    let bytes = encode_utf8(code);
    assert(bytes.len() == code.len());
    // The byte length fits the input limit.
    assert(s.len() == sextet_count(json.len()));
    assert(bytes.len() <= MAX_CODE_BYTES);
    // The prefix.
    assert(bytes[0] == 99u8 && bytes[1] == 119u8 && bytes[2] == 49u8 && bytes[3] == 58u8) by {
        assert(bytes[0] == code[0] as u8);
        assert(bytes[1] == code[1] as u8);
        assert(bytes[2] == code[2] as u8);
        assert(bytes[3] == code[3] as u8);
    }
    assert(bytes.subrange(0, 4) =~= prefix_bytes());
    assert(bytes.len() != 4);
    // The payload is the alphabet bytes of the 6-bit values.
    let payload = bytes.subrange(4, bytes.len() as int);
    assert forall|i: int| 0 <= i < payload.len() implies #[trigger] payload[i] == alphabet_byte(s[i]) by {
        assert(payload[i] == bytes[i + 4]);
        assert(bytes[i + 4] == code[i + 4] as u8);
        assert(code[i + 4] == chars[i]);
    }
    assert(payload.len() % 4 != 1);
    assert(all_sextets(payload)) by {
        assert forall|i: int| 0 <= i < payload.len() implies (#[trigger] sextet_value(payload[i])) is Some by {
            lemma_alphabet(s[i]);
        }
    }
    assert(sextet_values(payload) =~= s) by {
        assert forall|i: int| 0 <= i < payload.len() implies #[trigger] sextet_values(payload)[i] == s[i] by {
            lemma_alphabet(s[i]);
        }
    }
    lemma_octets_of_sextets(json);
    assert(base64url_decoded(payload) == Ok::<Seq<u8>, Seq<char>>(json));
}

} // verus!
