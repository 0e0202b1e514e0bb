//! The wire encoding of tokens, keys and signatures: base64 with the URL-safe
//! alphabet and no padding.

use crate::text::{is_blank, is_space, trimmed, trimmed_of_tight};
use base64::engine::general_purpose::URL_SAFE_NO_PAD;
use base64::DecodeError;
use base64::Engine;
use vstd::prelude::*;

verus! {

#[verifier::external_type_specification]
#[verifier::external_body]
pub struct ExDecodeError(DecodeError);

/// The text that the URL-safe, unpadded base64 engine writes for `bytes`.
pub uninterp spec fn base64url_text(bytes: Seq<u8>) -> Seq<char>;

/// The bytes that the URL-safe, unpadded base64 engine reads from `text`,
/// or `None` where it rejects the text.
pub uninterp spec fn base64url_bytes(text: Seq<char>) -> Option<Seq<u8>>;

/// The characters of the URL-safe base64 alphabet.
pub open spec fn is_base64url_char(c: char) -> bool {
    ||| 'A' <= c <= 'Z'
    ||| 'a' <= c <= 'z'
    ||| '0' <= c <= '9'
    ||| c == '-'
    ||| c == '_'
}

/// A text made of characters of the URL-safe base64 alphabet alone.
pub open spec fn is_base64url(text: Seq<char>) -> bool {
    forall|i: int| 0 <= i < text.len() ==> is_base64url_char(#[trigger] text[i])
}

/// The number of characters that encode `n` bytes without padding.
pub open spec fn encoded_len(n: nat) -> nat {
    (4 * n + 2) / 3
}

/// Whether the encoder can size its output for `n` bytes on this machine.
pub open spec fn encodable(n: nat) -> bool {
    n / 3 * 4 + 3 <= usize::MAX
}

/// `Engine::encode` of base64's `URL_SAFE_NO_PAD`. Trusted: the result is the
/// encoding of `bytes`, it has four characters for every three bytes and two
/// or three for a rest of one or two, every character is of the URL-safe
/// alphabet, and decoding it gives `bytes` back. The outside function panics
/// where the output's length overflows, which `requires` leaves out.
#[verifier::external_body]
fn engine_encode(bytes: &[u8]) -> (text: String)
    requires
        encodable(bytes@.len()),
    ensures
        text@ == base64url_text(bytes@),
        text@.len() == encoded_len(bytes@.len()),
        is_base64url(text@),
        base64url_bytes(text@) == Some(bytes@),
{
    URL_SAFE_NO_PAD.encode(bytes)
}

/// `Engine::decode` of base64's `URL_SAFE_NO_PAD`. Trusted: the result is the
/// decoding of `text`, an error where the engine rejects it; the engine
/// accepts no character outside the URL-safe alphabet, padding included.
#[verifier::external_body]
fn engine_decode(text: &str) -> (decoded: Result<Vec<u8>, DecodeError>)
    ensures
        match decoded {
            Ok(bytes) => base64url_bytes(text@) == Some(bytes@) && is_base64url(text@),
            Err(_) => base64url_bytes(text@) is None,
        },
{
    URL_SAFE_NO_PAD.decode(text)
}

/// The wire text of `bytes`.
pub fn encode(bytes: &[u8]) -> (text: String)
    requires
        encodable(bytes@.len()),
    ensures
        text@ == base64url_text(bytes@),
        text@.len() == encoded_len(bytes@.len()),
        is_base64url(text@),
        base64url_bytes(text@) == Some(bytes@),
        bytes@.len() > 0 ==> trimmed(text@) == text@ && !is_blank(text@),
{
    let text = engine_encode(bytes);
    proof {
        if bytes@.len() > 0 {
            base64url_is_tight(text@);
        }
    }
    text
}

/// The bytes that `text` stands for, or `None` where it is no wire text.
pub fn decode(text: &str) -> (bytes: Option<Vec<u8>>)
    ensures
        match bytes {
            Some(b) => base64url_bytes(text@) == Some(b@),
            None => base64url_bytes(text@) is None,
        },
        !is_base64url(text@) ==> bytes is None,
{
    match engine_decode(text) {
        Ok(b) => Some(b),
        Err(_) => None,
    }
}

/// No character of the URL-safe alphabet is whitespace.
pub proof fn base64url_char_is_visible(c: char)
    requires
        is_base64url_char(c),
    ensures
        !is_space(c),
{
}

/// A text of the URL-safe alphabet has no whitespace to trim, and is blank
/// only where it is empty.
pub proof fn base64url_is_tight(text: Seq<char>)
    requires
        is_base64url(text),
    ensures
        trimmed(text) == text,
        is_blank(text) <==> text.len() == 0,
{
    if text.len() > 0 {
        base64url_char_is_visible(text.first());
        base64url_char_is_visible(text.last());
    }
    trimmed_of_tight(text);
}

} // verus!
