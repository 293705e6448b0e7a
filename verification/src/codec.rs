//! `atob` and `btoa`: text to base64 and back, in the URL-safe alphabet.
//!
//! The base64 engine is not part of this crate. It is called through three
//! trusted functions at the end of this file; everything else is proved from
//! what they state.

use crate::protocol::ProtocolError;
use vstd::prelude::*;
use vstd::string::*;
use vstd::utf8::*;

verus! {

/// The URL-safe base64 text, with padding, that the engine encodes `bytes` to.
pub uninterp spec fn url_safe_encoding(bytes: Seq<u8>) -> Seq<char>;

/// The bytes that the engine decodes the URL-safe base64 text `text` to; `None`
/// where the engine refuses the text.
pub uninterp spec fn url_safe_decoding(text: Seq<char>) -> Option<Seq<u8>>;

/// The text that bytes which are not UTF-8 are read as, with a replacement
/// character for each malformed sequence.
pub uninterp spec fn lossy_decoding(bytes: Seq<u8>) -> Seq<char>;

/// The text that `bytes` are read as: UTF-8 as it stands, anything else
/// with replacement characters.
pub open spec fn text_of(bytes: Seq<u8>) -> Seq<char> {
    if valid_utf8(bytes) {
        decode_utf8(bytes)
    } else {
        lossy_decoding(bytes)
    }
}

/// The number of `=` that a text of `len` bytes lacks to fill its last group
/// of four.
pub open spec fn padding_needed(len: nat) -> nat {
    ((4 - len % 4) % 4) as nat
}

/// `count` padding characters.
pub open spec fn padding(count: nat) -> Seq<char> {
    Seq::new(count, |i: int| '=')
}

/// `text` with the padding that it lacks.
pub open spec fn padded(text: Seq<char>) -> Seq<char> {
    text + padding(padding_needed(encode_utf8(text).len()))
}

/// What `atob` makes of `text`.
pub open spec fn atob_text(text: Seq<char>) -> Result<Seq<char>, ProtocolError> {
    match url_safe_decoding(padded(text)) {
        Some(bytes) => Ok(text_of(bytes)),
        None => Err(ProtocolError::InvalidBase64),
    }
}

/// What `btoa` makes of `text`.
pub open spec fn btoa_text(text: Seq<char>) -> Seq<char> {
    url_safe_encoding(encode_utf8(text))
}

/// The engine can encode a text of `len` bytes: the length of the result fits
/// the machine.
pub open spec fn encodable(len: nat) -> bool {
    len / 3 * 4 + 4 <= usize::MAX
}

proof fn lemma_utf8_len_push(text: Seq<char>, c: char)
    requires
        '\0' <= c <= '\u{7f}',
    ensures
        encode_utf8(text.push(c)).len() == encode_utf8(text).len() + 1,
    decreases text.len(),
{
    broadcast use is_ascii_chars_encode_utf8;

    if text.len() == 0 {
        let one = text.push(c);
        assert(is_ascii_chars(one));
        assert(encode_utf8(one).len() == 1);
        assert(encode_utf8(text).len() == 0);
    } else {
        let longer = text.push(c);
        assert(longer.drop_first() =~= text.drop_first().push(c));
        lemma_utf8_len_push(text.drop_first(), c);
    }
}

proof fn lemma_utf8_len_padding(text: Seq<char>, count: nat)
    ensures
        encode_utf8(text + padding(count)).len() == encode_utf8(text).len() + count,
    decreases count,
{
    if count == 0 {
        assert(text + padding(0) =~= text);
    } else {
        let shorter = text + padding((count - 1) as nat);
        lemma_utf8_len_padding(text, (count - 1) as nat);
        assert(text + padding(count) =~= shorter.push('='));
        lemma_utf8_len_push(shorter, '=');
    }
}

/// A text whose last group of four is full needs no padding, and a padded
/// text is such a text.
pub proof fn lemma_padded_is_full(text: Seq<char>)
    ensures
        encode_utf8(padded(text)).len() % 4 == 0,
        encode_utf8(text).len() % 4 == 0 ==> padded(text) == text,
        padded(padded(text)) == padded(text),
{
    let len = encode_utf8(text).len();
    lemma_utf8_len_padding(text, padding_needed(len));
    if len % 4 == 0 {
        assert(padded(text) =~= text);
    }
    let full = padded(text);
    assert(encode_utf8(full).len() % 4 == 0);
    assert(padded(full) =~= full);
}

/// A text that lacks its padding decodes as the padded text does.
pub proof fn lemma_atob_ignores_missing_padding(text: Seq<char>)
    ensures
        atob_text(text) == atob_text(padded(text)),
{
    lemma_padded_is_full(text);
}

/// Appends to `base64_input` the `=` that it lacks to fill its last group of
/// four.
pub fn add_padding(base64_input: String) -> (full: String)
    ensures
        full@ == padded(base64_input@),
{
    let len = base64_input.as_str().as_bytes().len();
    let needed: usize = (4 - len % 4) % 4;
    let mut full = base64_input;
    let mut added: usize = 0;
    while added < needed
        invariant
            added <= needed,
            full@ == base64_input@ + padding(added as nat),
        decreases needed - added,
    {
        proof {
            reveal_strlit("=");
            assert(full@ + "="@ =~= base64_input@ + padding((added + 1) as nat));
        }
        full.append("=");
        added += 1;
    }
    full
}

/// The `atob` binding: decodes URL-safe base64, with or without its padding,
/// to text. `input` is the first argument of the call, stringified, or `None`
/// where the script passed no argument.
pub fn atob(input: Option<&str>) -> (result: Result<String, ProtocolError>)
    ensures
        match input {
            None => result == Err::<String, ProtocolError>(ProtocolError::MissingCodecArgument),
            Some(text) => match result {
                Ok(decoded) => atob_text(text@) == Ok::<Seq<char>, ProtocolError>(decoded@),
                Err(e) => atob_text(text@) == Err::<Seq<char>, ProtocolError>(e),
            },
        },
{
    match input {
        None => Err(ProtocolError::MissingCodecArgument),
        Some(text) => {
            let full = add_padding(text.to_owned());
            match decode_url_safe(full.as_str()) {
                Ok(bytes) => Ok(lossy_text(&bytes)),
                Err(_) => Err(ProtocolError::InvalidBase64),
            }
        },
    }
}

/// The `btoa` binding: encodes the UTF-8 bytes of a text as URL-safe base64
/// with padding. `input` is the first argument of the call, stringified, or
/// `None` where the script passed no argument.
///
/// What `btoa` returns, `atob` reads back as the text that went in.
pub fn btoa(input: Option<&str>) -> (result: Result<String, ProtocolError>)
    requires
        input is Some ==> encodable(encode_utf8(input->0@).len()),
    ensures
        match input {
            None => result == Err::<String, ProtocolError>(ProtocolError::MissingCodecArgument),
            Some(text) => match result {
                Ok(encoded) => encoded@ == btoa_text(text@) && atob_text(encoded@) == Ok::<
                    Seq<char>,
                    ProtocolError,
                >(text@),
                Err(_) => false,
            },
        },
{
    match input {
        None => Err(ProtocolError::MissingCodecArgument),
        Some(text) => {
            let bytes = text.as_bytes_vec();
            let encoded = encode_url_safe(&bytes);
            proof {
                broadcast use encode_utf8_valid_utf8, encode_utf8_decode_utf8;

                lemma_padded_is_full(encoded@);
                assert(encode_utf8(encoded@).len() % 4 == 0) by (nonlinear_arith)
                    requires
                        encode_utf8(encoded@).len() == (bytes@.len() + 2) / 3 * 4,
                ;
                assert(text_of(encode_utf8(text@)) == text@);
            }
            Ok(encoded)
        },
    }
}

/// The error with which the engine refuses a text.
#[verifier::external_type_specification]
#[verifier::external_body]
pub struct ExDecodeError(::base64::DecodeError);

/// Calls `base64::Engine::encode` on the engine
/// `base64::engine::general_purpose::URL_SAFE`. Trusted: the result is the
/// engine's encoding of `bytes`; it fills whole groups of four, as the
/// engine's `encoded_len` computes with padding; and the engine decodes it
/// back to `bytes`. The engine panics where the length of the result does not
/// fit the machine, which `requires` leaves out.
#[verifier::external_body]
fn encode_url_safe(bytes: &Vec<u8>) -> (text: String)
    requires
        encodable(bytes@.len()),
    ensures
        text@ == url_safe_encoding(bytes@),
        encode_utf8(text@).len() == (bytes@.len() + 2) / 3 * 4,
        url_safe_decoding(text@) == Some(bytes@),
{
    ::base64::Engine::encode(&::base64::engine::general_purpose::URL_SAFE, bytes)
}

/// Calls `base64::Engine::decode` on the engine
/// `base64::engine::general_purpose::URL_SAFE`. Trusted: the result is the
/// engine's decoding of `text`, and an error where the engine refuses it.
#[verifier::external_body]
fn decode_url_safe(text: &str) -> (result: Result<Vec<u8>, ::base64::DecodeError>)
    ensures
        match result {
            Ok(bytes) => url_safe_decoding(text@) == Some(bytes@),
            Err(_) => url_safe_decoding(text@) is None,
        },
{
    ::base64::Engine::decode(&::base64::engine::general_purpose::URL_SAFE, text)
}

/// Calls `String::from_utf8_lossy`. Trusted: bytes that are UTF-8 are read as
/// the text that they encode; other bytes as a text that depends on them alone.
#[verifier::external_body]
fn lossy_text(bytes: &Vec<u8>) -> (text: String)
    ensures
        valid_utf8(bytes@) ==> text@ == decode_utf8(bytes@),
        !valid_utf8(bytes@) ==> text@ == lossy_decoding(bytes@),
{
    String::from_utf8_lossy(bytes).into_owned()
}

} // verus!
