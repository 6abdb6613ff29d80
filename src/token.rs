//! Transport-safe encoding of a pending command, so that it survives a channel
//! that only carries a restricted alphabet.
use vstd::prelude::*;
use vstd::utf8::*;

verus! {

/// The padded standard-alphabet Base64 text of `b`.
pub uninterp spec fn base64_of(b: Seq<u8>) -> Seq<char>;

/// base64's decoding error; it is only mapped to `EncodingError`.
#[verifier::external_type_specification]
#[verifier::external_body]
pub struct ExDecodeError(base64::DecodeError);

/// A character of the padded standard Base64 alphabet.
pub open spec fn is_base64_char(c: char) -> bool {
    let u = c as u32;
    (0x41 <= u && u <= 0x5a) || (0x61 <= u && u <= 0x7a) || (0x30 <= u && u <= 0x39) || u == 0x2b
        || u == 0x2f || u == 0x3d
}

/// Every character of `s` is of the Base64 alphabet.
pub open spec fn base64_text(s: Seq<char>) -> bool {
    forall|i: int| 0 <= i < s.len() ==> #[trigger] is_base64_char(s[i])
}

/// Relies on `base64::Engine::encode` with `general_purpose::STANDARD`: the
/// padded standard-alphabet text of the bytes (`A`-`Z`, `a`-`z`, `0`-`9`, `+`,
/// `/`, and `=` for padding).
#[verifier::external_body]
fn base64_encode(b: &[u8]) -> (r: String)
    ensures
        r@ == base64_of(b@),
        base64_text(r@),
{
    base64::Engine::encode(&base64::engine::general_purpose::STANDARD, b)
}

/// Relies on `base64::Engine::decode` with `general_purpose::STANDARD`, whose
/// config requires canonical padding and rejects trailing bits: it succeeds
/// exactly on the texts that `encode` produces, and gives back their bytes.
#[verifier::external_body]
fn base64_decode(s: &str) -> (r: Result<Vec<u8>, base64::DecodeError>)
    ensures
        r is Ok <== exists|b: Seq<u8>| #[trigger] base64_of(b) == s@,
        r matches Ok(v) ==> base64_of(v@) == s@ && forall|b: Seq<u8>| #[trigger]
            base64_of(b) == s@ ==> v@ == b,
{
    base64::Engine::decode(&base64::engine::general_purpose::STANDARD, s)
}

/// Relies on `String::from_utf8`: it succeeds exactly on valid UTF-8 and then
/// holds the characters that the bytes encode.
#[verifier::external_body]
fn utf8_string(b: Vec<u8>) -> (r: Option<String>)
    ensures
        r is Some <==> valid_utf8(b@),
        r matches Some(s) ==> s@ == decode_utf8(b@),
{
    String::from_utf8(b).ok()
}

/// A token that failed to decode into a command.
#[derive(PartialEq, Eq, Structural, Debug, Clone, Copy)]
pub enum EncodingError {
    /// The token is not text that `encode_token` produces.
    NotBase64,
    /// The decoded bytes are not UTF-8 text.
    NotUtf8,
}

/// The token of an arbitrary byte sequence.
pub fn encode_token(b: &[u8]) -> (r: String)
    ensures
        r@ == base64_of(b@),
        base64_text(r@),
{
    base64_encode(b)
}

/// Decodes a token. Decoding the token of any byte sequence gives that sequence
/// back; a text that is no token fails with `NotBase64`.
pub fn decode_token(t: &str) -> (r: Result<Vec<u8>, EncodingError>)
    ensures
        forall|b: Seq<u8>| #[trigger] base64_of(b) == t@ ==> (r matches Ok(v) && v@ == b),
        r matches Ok(v) ==> base64_of(v@) == t@,
        r is Err ==> r == Err::<Vec<u8>, EncodingError>(EncodingError::NotBase64),
        (forall|b: Seq<u8>| base64_of(b) != t@) ==> r == Err::<Vec<u8>, EncodingError>(
            EncodingError::NotBase64,
        ),
{
    match base64_decode(t) {
        Ok(v) => Ok(v),
        Err(_) => Err(EncodingError::NotBase64),
    }
}

/// The token that carries the command `cmd` as its UTF-8 bytes.
pub open spec fn command_token_of(cmd: Seq<char>) -> Seq<char> {
    base64_of(encode_utf8(cmd))
}

/// The token for a command text.
pub fn command_token(cmd: &str) -> (r: String)
    ensures
        r@ == command_token_of(cmd@),
        base64_text(r@),
{
    encode_token(cmd.as_bytes())
}

/// Recovers the command carried by a token: the command whose token it is, or an
/// error when it is no token or carries bytes that are not UTF-8.
pub fn command_from_token(t: &str) -> (r: Result<String, EncodingError>)
    ensures
        forall|c: Seq<char>| #[trigger] command_token_of(c) == t@ ==> (r matches Ok(s) && s@ == c),
        r matches Ok(s) ==> command_token_of(s@) == t@,
        (forall|b: Seq<u8>| base64_of(b) != t@) ==> r == Err::<String, EncodingError>(
            EncodingError::NotBase64,
        ),
{
    broadcast use encode_utf8_valid_utf8, encode_utf8_decode_utf8;

    match decode_token(t) {
        Err(e) => Err(e),
        Ok(bytes) => {
            let ghost b = bytes@;
            match utf8_string(bytes) {
                Some(s) => {
                    proof {
                        lemma_decode_encode(b);
                    }
                    Ok(s)
                },
                None => Err(EncodingError::NotUtf8),
            }
        },
    }
}

proof fn lemma_decode_encode(b: Seq<u8>)
    requires
        valid_utf8(b),
    ensures
        encode_utf8(decode_utf8(b)) == b,
{
    broadcast use decode_utf8_encode_utf8;

}

} // verus!
