//! Decoding of the base64-embedded URL that names a source image.
//!
//! Inbound paths may carry the URL in either the standard or the
//! URL-safe base64 alphabet, with or without padding. The input is
//! normalized first — everything from the first `=` on is dropped,
//! `+` becomes `-` and `/` becomes `_` — and the result is decoded
//! with the URL-safe alphabet, expecting no padding, then read as
//! UTF-8.

use base64::Engine;
use vstd::prelude::*;
use vstd::string::StringSliceAdditionalSpecFns;
use vstd::utf8::encode_utf8;
use vstd::utf8::valid_utf8;

verus! {

/// Why decoding an embedded URL failed.
#[derive(Debug, Clone, Copy, PartialEq, Eq, Structural)]
pub enum DecodeUrlError {
    /// The input holds non-ASCII characters.
    NotAscii,
    /// The normalized input is not valid base64.
    BadEncoding,
    /// The decoded bytes are not valid UTF-8.
    NotUtf8,
}

/// Every byte is ASCII.
pub open spec fn spec_all_ascii(b: Seq<u8>) -> bool {
    forall|j: int| 0 <= j < b.len() ==> b[j] < 0x80
}

/// One byte of the normalization: `+` becomes `-`, `/` becomes `_`.
pub open spec fn spec_swap_byte(c: u8) -> u8 {
    if c == 0x2b {
        0x2d
    } else if c == 0x2f {
        0x5f
    } else {
        c
    }
}

/// The normalized form of the input: cut at the first `=` (padding),
/// with each remaining byte mapped into the URL-safe alphabet.
pub open spec fn spec_b64_normalize(b: Seq<u8>) -> Seq<u8>
    decreases b.len(),
{
    if b.len() == 0 {
        b
    } else if b[0] == 0x3d {
        Seq::empty()
    } else {
        seq![spec_swap_byte(b[0])] + spec_b64_normalize(b.drop_first())
    }
}

/// What base64 decoding with the URL-safe alphabet and no padding
/// yields on the given bytes, or nothing when they are not base64.
pub uninterp spec fn b64_url_decode(b: Seq<u8>) -> Option<Seq<u8>>;

/// Relies on base64's `GeneralPurpose` engine over the `URL_SAFE`
/// alphabet with `NO_PAD`: decoding is a function of the input bytes
/// alone.
#[verifier::external_body]
fn b64_decode_urlsafe(input: &[u8]) -> (r: Result<Vec<u8>, ()>)
    ensures
        r is Ok <==> b64_url_decode(input@) is Some,
        r matches Ok(v) ==> b64_url_decode(input@) == Some(v@),
{
    base64::engine::GeneralPurpose::new(&base64::alphabet::URL_SAFE, base64::engine::general_purpose::NO_PAD)
        .decode(input)
        .map_err(|_| ())
}

/// Relies on `String::from_utf8`: succeeds exactly on valid UTF-8,
/// and the returned string's bytes are the input bytes.
#[verifier::external_body]
fn bytes_to_string(v: Vec<u8>) -> (r: Result<String, ()>)
    ensures
        r is Ok <==> valid_utf8(v@),
        r matches Ok(s) ==> encode_utf8(s@) == v@,
{
    String::from_utf8(v).map_err(|_| ())
}

/// Decodes a base64-embedded URL leniently: ASCII is demanded, either
/// base64 alphabet is accepted, padding is ignored.
///
/// The result, on success, is the UTF-8 string whose bytes are the
/// base64 decoding of the normalized input; each failure names what
/// went wrong.
pub fn decode_base64_non_strict(input: &str) -> (r: Result<String, DecodeUrlError>)
    ensures
        r == Err::<String, DecodeUrlError>(DecodeUrlError::NotAscii) <==> !spec_all_ascii(
            input.spec_bytes(),
        ),
        spec_all_ascii(input.spec_bytes()) ==> match b64_url_decode(
            spec_b64_normalize(input.spec_bytes()),
        ) {
            None => r == Err::<String, DecodeUrlError>(DecodeUrlError::BadEncoding),
            Some(d) => if valid_utf8(d) {
                r matches Ok(s) && encode_utf8(s@) == d
            } else {
                r == Err::<String, DecodeUrlError>(DecodeUrlError::NotUtf8)
            },
        },
{
    let b = input.as_bytes();
    let n = b.len();
    let mut i: usize = 0;
    while i < n
        invariant
            0 <= i <= n,
            n == b@.len(),
            b@ == input.spec_bytes(),
            forall|j: int| 0 <= j < i ==> b@[j] < 0x80,
        decreases n - i,
    {
        if b[i] >= 0x80 {
            return Err(DecodeUrlError::NotAscii);
        }
        i += 1;
    }
    // normalize: drop padding, map into the URL-safe alphabet
    let mut cleaned: Vec<u8> = Vec::new();
    let mut i: usize = 0;
    proof {
        assert(b@.skip(0) =~= b@);
        assert(Seq::<u8>::empty() + spec_b64_normalize(b@) =~= spec_b64_normalize(b@));
    }
    while i < n && b[i] != 0x3d
        invariant
            0 <= i <= n,
            n == b@.len(),
            spec_b64_normalize(b@) == cleaned@ + spec_b64_normalize(b@.skip(i as int)),
        decreases n - i,
    {
        let c = b[i];
        proof {
            assert(b@.skip(i as int).len() > 0);
            assert(b@.skip(i as int)[0] == b@[i as int]);
            assert(b@.skip(i as int).drop_first() =~= b@.skip(i as int + 1));
        }
        let mapped: u8 = if c == 0x2b {
            0x2d
        } else if c == 0x2f {
            0x5f
        } else {
            c
        };
        cleaned.push(mapped);
        proof {
            assert(spec_b64_normalize(b@.skip(i as int)) =~= seq![spec_swap_byte(b@[i as int])]
                + spec_b64_normalize(b@.skip(i as int + 1)));
            assert(cleaned@ + spec_b64_normalize(b@.skip(i as int + 1)) =~= spec_b64_normalize(
                b@,
            ));
        }
        i += 1;
    }
    proof {
        if i >= n {
            assert(b@.skip(i as int) =~= Seq::<u8>::empty());
        } else {
            // the loop stopped on a padding byte; the tail normalizes
            // to nothing
            assert(b@.skip(i as int)[0] == b@[i as int]);
            assert(spec_b64_normalize(b@.skip(i as int)) =~= Seq::<u8>::empty());
        }
        assert(spec_b64_normalize(b@) =~= cleaned@);
    }
    let decoded = match b64_decode_urlsafe(cleaned.as_slice()) {
        Ok(v) => v,
        Err(_) => {
            return Err(DecodeUrlError::BadEncoding);
        },
    };
    match bytes_to_string(decoded) {
        Ok(s) => Ok(s),
        Err(_) => Err(DecodeUrlError::NotUtf8),
    }
}

} // verus!
