//! Text transport encoding for session descriptions: UTF-8 text carried as
//! standard base64 (RFC 4648 alphabet, with `=` padding).

use vstd::prelude::*;
use vstd::utf8::*;
use vstd::string::*;

verus! {

/// The base64 digit of a 6-bit value.
pub open spec fn base64_digit(v: int) -> char {
    if v < 26 {
        ((v + 65) as u8) as char
    } else if v < 52 {
        ((v - 26 + 97) as u8) as char
    } else if v < 62 {
        ((v - 52 + 48) as u8) as char
    } else if v == 62 {
        '+'
    } else {
        '/'
    }
}

/// Standard base64 text of a byte sequence: each group of three bytes becomes
/// four digits, and a final group of one or two bytes is padded with `=`.
pub open spec fn base64_of(b: Seq<u8>) -> Seq<char>
    decreases b.len(),
{
    if b.len() == 0 {
        seq![]
    } else if b.len() == 1 {
        seq![base64_digit((b[0] as int) / 4), base64_digit(((b[0] as int) % 4) * 16), '=', '=']
    } else if b.len() == 2 {
        seq![
            base64_digit((b[0] as int) / 4),
            base64_digit(((b[0] as int) % 4) * 16 + (b[1] as int) / 16),
            base64_digit(((b[1] as int) % 16) * 4),
            '=',
        ]
    } else {
        seq![
            base64_digit((b[0] as int) / 4),
            base64_digit(((b[0] as int) % 4) * 16 + (b[1] as int) / 16),
            base64_digit(((b[1] as int) % 16) * 4 + (b[2] as int) / 64),
            base64_digit((b[2] as int) % 64),
        ] + base64_of(b.subrange(3, b.len() as int))
    }
}

/// The encoded form of a text: its UTF-8 bytes in base64.
pub open spec fn encoded(x: Seq<char>) -> Seq<char> {
    base64_of(encode_utf8(x))
}

/// Why a text could not be decoded.
#[derive(Clone, Copy, Debug, PartialEq, Eq, Structural)]
pub enum CodecError {
    /// The text is not the base64 form of any byte sequence.
    InvalidBase64,
    /// The decoded bytes are not valid UTF-8.
    InvalidUtf8,
}

/// What `decode` owes on the input `s`: the text whose UTF-8 bytes `s`
/// encodes, or the error that says which step failed.
pub open spec fn decode_outcome(s: Seq<char>, r: Result<Seq<char>, CodecError>) -> bool {
    match r {
        Ok(t) => base64_of(encode_utf8(t)) == s && forall|v: Seq<u8>|
            #[trigger] base64_of(v) == s ==> valid_utf8(v) && t == decode_utf8(v),
        Err(CodecError::InvalidBase64) => forall|v: Seq<u8>| #[trigger] base64_of(v) != s,
        Err(CodecError::InvalidUtf8) => (exists|v: Seq<u8>| #[trigger] base64_of(v) == s)
            && forall|v: Seq<u8>| #[trigger] base64_of(v) == s ==> !valid_utf8(v),
    }
}

/// The view of a decoding result.
pub open spec fn result_view(r: Result<String, CodecError>) -> Result<Seq<char>, CodecError> {
    match r {
        Ok(t) => Ok(t@),
        Err(e) => Err(e),
    }
}

/// Relies on base64::encode (standard alphabet, padded).
#[verifier::external_body]
#[allow(deprecated)]
fn base64_encode_bytes(b: &[u8]) -> (r: String)
    ensures
        r@ == base64_of(b@),
{
    base64::encode(b)
}

/// Relies on base64::decode with the standard engine, which accepts exactly the
/// canonical padded encodings (no trailing bits, canonical padding).
#[verifier::external_body]
#[allow(deprecated)]
fn base64_decode_str(s: &str) -> (r: Option<Vec<u8>>)
    ensures
        forall|x: Seq<u8>| #[trigger] base64_of(x) == s@ ==> r is Some && r->0@ == x,
        r is Some ==> base64_of(r->0@) == s@,
{
    match base64::decode(s) {
        Ok(v) => Some(v),
        Err(_) => None,
    }
}

/// Relies on String::from_utf8: it succeeds exactly on valid UTF-8, and then
/// holds the characters those bytes encode.
#[verifier::external_body]
pub(crate) fn string_from_utf8(b: Vec<u8>) -> (r: Option<String>)
    ensures
        r is Some <==> valid_utf8(b@),
        r is Some ==> encode_utf8(r->0@) == b@,
{
    match String::from_utf8(b) {
        Ok(s) => Some(s),
        Err(_) => None,
    }
}

/// Encodes a text as the base64 form of its UTF-8 bytes.
pub fn encode(b: &str) -> (r: String)
    ensures
        r@ == encoded(b@),
{
    base64_encode_bytes(b.as_bytes())
}

/// Decodes the base64 form of a UTF-8 text.
pub fn decode(s: &str) -> (r: Result<String, CodecError>)
    ensures
        decode_outcome(s@, result_view(r)),
{
    broadcast use group_utf8_lib;

    match base64_decode_str(s) {
        None => Err(CodecError::InvalidBase64),
        Some(bytes) => {
            let ghost b = bytes@;
            match string_from_utf8(bytes) {
                None => Err(CodecError::InvalidUtf8),
                Some(t) => {
                    proof {
                        encode_utf8_decode_utf8(t@);
                    }
                    Ok(t)
                },
            }
        },
    }
}

/// Decoding the encoded form of any text gives that text back.
pub proof fn lemma_decode_encode(x: Seq<char>, r: Result<Seq<char>, CodecError>)
    requires
        decode_outcome(encoded(x), r),
    ensures
        r == Ok::<Seq<char>, CodecError>(x),
{
    broadcast use group_utf8_lib;

    let v = encode_utf8(x);
    assert(base64_of(v) == encoded(x));
    encode_utf8_decode_utf8(x);
}

} // verus!
