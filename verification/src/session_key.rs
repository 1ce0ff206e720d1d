//! Session key resolution: from the hex text of an RSA-OAEP ciphertext to
//! the 32-byte session key, one stage at a time. Each stage has its own
//! failure, and no stage runs before the one in front of it has passed.
use crate::wire::{field_data, field_fits, u16_at, PrefixedField};
use openssl::error::ErrorStack;
use openssl::pkey::Private;
use openssl::rsa::{Padding, Rsa};
use vstd::prelude::*;

verus! {

/// Length of the ciphertext in bytes: the size of the RSA modulus in use.
pub const CIPHERTEXT_LEN: usize = 128;

/// Length of a session key in bytes.
pub const SESSION_KEY_LEN: usize = 32;

/// The longest input that the RSA routines take: the largest `i32`.
pub const MAX_INPUT_LEN: usize = 0x7fff_ffff;

/// The stage at which resolving a session key failed.
#[derive(Clone, Copy, Debug, PartialEq, Eq, Structural)]
pub enum CryptoError {
    /// The text is not an even number of hex digits.
    InvalidEncoding,
    /// The text decodes, but not to 128 bytes.
    InvalidKeyLength,
    /// The private key could not be read or parsed.
    KeyUnavailable,
    /// RSA-OAEP decryption failed.
    DecryptionFailed,
    /// The plaintext is not a length-prefixed field of 32 bytes.
    MalformedPlaintext,
}

/// The error of `hex::decode`; carried, never inspected.
#[verifier::external_type_specification]
#[verifier::external_body]
pub struct ExFromHexError(hex::FromHexError);

/// An RSA key of the `openssl` crate; opaque here.
#[verifier::external_type_specification]
#[verifier::external_body]
#[verifier::reject_recursive_types(T)]
pub struct ExRsa<T>(Rsa<T>);

/// The `openssl` crate's marker for keys with private components.
#[verifier::external_type_specification]
#[verifier::external_body]
pub struct ExPrivate(Private);

/// The `openssl` crate's error stack; carried, never inspected.
#[verifier::external_type_specification]
#[verifier::external_body]
pub struct ExErrorStack(ErrorStack);

/// Whether `c` is one of `0-9`, `a-f`, `A-F`.
pub open spec fn is_hex_digit(c: char) -> bool {
    ('0' <= c && c <= '9') || ('a' <= c && c <= 'f') || ('A' <= c && c <= 'F')
}

/// The value of a hex digit, 0 to 15.
pub open spec fn hex_digit_value(c: char) -> int {
    if '0' <= c && c <= '9' {
        c as int - '0' as int
    } else if 'a' <= c && c <= 'f' {
        c as int - 'a' as int + 10
    } else {
        c as int - 'A' as int + 10
    }
}

/// Whether `text` is an even number of hex digits and nothing else.
pub open spec fn is_hex_text(text: Seq<char>) -> bool {
    text.len() % 2 == 0 && forall|i: int| 0 <= i < text.len() ==> is_hex_digit(#[trigger] text[i])
}

/// The bytes that hex text spells: two digits a byte, high digit first.
pub open spec fn hex_bytes(text: Seq<char>) -> Seq<u8> {
    Seq::new(
        text.len() / 2,
        |i: int| (hex_digit_value(text[2 * i]) * 16 + hex_digit_value(text[2 * i + 1])) as u8,
    )
}

/// The plaintext that RSA decryption with OAEP padding under `key` gives
/// for `ciphertext`, or `None` where the decryption fails.
pub uninterp spec fn oaep_plaintext(key: Rsa<Private>, ciphertext: Seq<u8>) -> Option<Seq<u8>>;

/// Calls `hex::decode`. It succeeds exactly on an even number of hex digits,
/// upper or lower case, and returns the bytes they spell.
#[verifier::external_body]
fn hex_decode(text: &str) -> (r: Result<Vec<u8>, hex::FromHexError>)
    ensures
        r.is_ok() == is_hex_text(text@),
        r matches Ok(bytes) ==> bytes@ == hex_bytes(text@),
{
    hex::decode(text)
}

/// Calls `Rsa::private_key_from_pem`. Nothing is claimed of its outcome: on
/// an encrypted key OpenSSL asks for a passphrase, so the result is not a
/// function of the bytes. Inputs longer than an `i32` can count are left
/// out, since the call would panic on them.
#[verifier::external_body]
fn parse_private_key(pem: &[u8]) -> (r: Result<Rsa<Private>, ErrorStack>)
    requires
        pem@.len() <= MAX_INPUT_LEN,
{
    Rsa::private_key_from_pem(pem)
}

/// Calls `Rsa::private_decrypt` with OAEP padding, on a zeroed buffer of
/// `Rsa::size` bytes. On success it returns the buffer and the number of
/// bytes that the call reports as decrypted, which the buffer can hold; the
/// front of the buffer, that many bytes long, is `oaep_plaintext` of the
/// key and the ciphertext. Ciphertexts longer than an `i32` can count are
/// left out, since the call would panic on them.
#[verifier::external_body]
fn rsa_oaep_decrypt(key: &Rsa<Private>, ciphertext: &[u8]) -> (r: Result<
    (Vec<u8>, usize),
    ErrorStack,
>)
    requires
        ciphertext@.len() <= MAX_INPUT_LEN,
    ensures
        match r {
            Ok((buffer, count)) => count <= buffer@.len() && oaep_plaintext(*key, ciphertext@)
                == Some(buffer@.subrange(0, count as int)),
            Err(_) => oaep_plaintext(*key, ciphertext@) is None,
        },
{
    let mut buffer = vec![0u8; key.size() as usize];
    let count = key.private_decrypt(ciphertext, &mut buffer, Padding::PKCS1_OAEP)?;
    Ok((buffer, count))
}

/// What decoding the hex text of a ciphertext yields: the first two stages.
pub open spec fn spec_decode_ciphertext(text: Seq<char>) -> Result<Seq<u8>, CryptoError> {
    if !is_hex_text(text) {
        Err(CryptoError::InvalidEncoding)
    } else if text.len() != 2 * CIPHERTEXT_LEN {
        Err(CryptoError::InvalidKeyLength)
    } else {
        Ok(hex_bytes(text))
    }
}

/// What opening the plaintext envelope yields: the data of a length-prefixed
/// field that declares exactly 32 bytes and holds them.
pub open spec fn spec_open_envelope(plaintext: Seq<u8>) -> Result<Seq<u8>, CryptoError> {
    if field_fits(plaintext, 0) && u16_at(plaintext, 0) == SESSION_KEY_LEN {
        Ok(field_data(plaintext))
    } else {
        Err(CryptoError::MalformedPlaintext)
    }
}

/// What decrypting `ciphertext` under `key` and opening the envelope yields.
pub open spec fn spec_decrypt_with_key(key: Rsa<Private>, ciphertext: Seq<u8>) -> Result<
    Seq<u8>,
    CryptoError,
> {
    if ciphertext.len() != CIPHERTEXT_LEN {
        Err(CryptoError::InvalidKeyLength)
    } else {
        match oaep_plaintext(key, ciphertext) {
            None => Err(CryptoError::DecryptionFailed),
            Some(plaintext) => spec_open_envelope(plaintext),
        }
    }
}

/// Whether an executable result and a specified one agree: the same error,
/// or the same bytes.
pub open spec fn same_outcome(r: Result<Vec<u8>, CryptoError>, s: Result<Seq<u8>, CryptoError>)
    -> bool {
    match r {
        Ok(bytes) => s == Ok::<Seq<u8>, CryptoError>(bytes@),
        Err(e) => s == Err::<Seq<u8>, CryptoError>(e),
    }
}

/// Stages one and two: hex-decodes the text and checks that it spells
/// exactly 128 bytes. Needs no key.
pub fn decode_ciphertext(session_key: &str) -> (r: Result<Vec<u8>, CryptoError>)
    ensures
        same_outcome(r, spec_decode_ciphertext(session_key@)),
{
    match hex_decode(session_key) {
        Ok(bytes) => {
            if bytes.len() != CIPHERTEXT_LEN {
                Err(CryptoError::InvalidKeyLength)
            } else {
                Ok(bytes)
            }
        },
        Err(_) => Err(CryptoError::InvalidEncoding),
    }
}

/// Stage five: reads the plaintext as a length-prefixed field and returns
/// its data if the field declares exactly 32 bytes.
pub fn open_envelope(plaintext: &[u8]) -> (r: Result<Vec<u8>, CryptoError>)
    ensures
        same_outcome(r, spec_open_envelope(plaintext@)),
        r matches Ok(key) ==> key@.len() == SESSION_KEY_LEN,
{
    match PrefixedField::from_bytes(plaintext) {
        Ok(field) => {
            if field.data.len() != SESSION_KEY_LEN {
                Err(CryptoError::MalformedPlaintext)
            } else {
                Ok(field.data)
            }
        },
        Err(_) => Err(CryptoError::MalformedPlaintext),
    }
}

/// Stages four and five with a parsed key: checks the ciphertext's length,
/// decrypts, and opens the envelope.
pub fn decrypt_with_key(key: &Rsa<Private>, ciphertext: &[u8]) -> (r: Result<Vec<u8>, CryptoError>)
    ensures
        same_outcome(r, spec_decrypt_with_key(*key, ciphertext@)),
        r matches Ok(session_key) ==> session_key@.len() == SESSION_KEY_LEN,
{
    if ciphertext.len() != CIPHERTEXT_LEN {
        return Err(CryptoError::InvalidKeyLength);
    }
    match rsa_oaep_decrypt(key, ciphertext) {
        Ok((buffer, count)) => {
            let mut plaintext = buffer;
            plaintext.truncate(count);
            open_envelope(plaintext.as_slice())
        },
        Err(_) => Err(CryptoError::DecryptionFailed),
    }
}

/// What may come of stages three to six on `ciphertext`, with the key
/// material `key_pem` (`None` where it could not be read). A ciphertext of
/// the wrong length is refused before the key is looked at, and without
/// usable key material the result is `KeyUnavailable`. Otherwise parsing the
/// key decides: the result is `KeyUnavailable`, or what `decrypt_with_key`
/// gives under some key.
pub open spec fn resolves(
    ciphertext: Seq<u8>,
    key_pem: Option<Seq<u8>>,
    r: Result<Vec<u8>, CryptoError>,
) -> bool {
    &&& r matches Ok(session_key) ==> session_key@.len() == SESSION_KEY_LEN
    &&& if ciphertext.len() != CIPHERTEXT_LEN {
        r == Err::<Vec<u8>, CryptoError>(CryptoError::InvalidKeyLength)
    } else if key_pem is None || key_pem->0.len() > MAX_INPUT_LEN {
        r == Err::<Vec<u8>, CryptoError>(CryptoError::KeyUnavailable)
    } else {
        r == Err::<Vec<u8>, CryptoError>(CryptoError::KeyUnavailable) || exists|key: Rsa<Private>|
            same_outcome(r, spec_decrypt_with_key(key, ciphertext))
    }
}

/// The key material as mathematical values.
pub open spec fn material_view(key_pem: Option<&[u8]>) -> Option<Seq<u8>> {
    match key_pem {
        Some(pem) => Some(pem@),
        None => None,
    }
}

/// Stages three to six: parses the PEM-encoded private key that was read
/// for this request, decrypts the ciphertext and opens the envelope.
/// `key_pem` is `None` where the key could not be read.
pub fn decrypt_ciphertext(ciphertext: &[u8], key_pem: Option<&[u8]>) -> (r: Result<
    Vec<u8>,
    CryptoError,
>)
    ensures
        resolves(ciphertext@, material_view(key_pem), r),
{
    if ciphertext.len() != CIPHERTEXT_LEN {
        return Err(CryptoError::InvalidKeyLength);
    }
    let pem = match key_pem {
        Some(pem) => pem,
        None => return Err(CryptoError::KeyUnavailable),
    };
    if pem.len() > MAX_INPUT_LEN {
        return Err(CryptoError::KeyUnavailable);
    }
    match parse_private_key(pem) {
        Ok(key) => decrypt_with_key(&key, ciphertext),
        Err(_) => Err(CryptoError::KeyUnavailable),
    }
}

/// All six stages, for a caller that holds the key material already: the
/// text is decoded and checked first, and only text that spells a
/// ciphertext reaches the key.
pub fn decrypt_session_key(session_key: &str, key_pem: Option<&[u8]>) -> (r: Result<
    Vec<u8>,
    CryptoError,
>)
    ensures
        match spec_decode_ciphertext(session_key@) {
            Err(e) => r == Err::<Vec<u8>, CryptoError>(e),
            Ok(ciphertext) => resolves(ciphertext, material_view(key_pem), r),
        },
{
    match decode_ciphertext(session_key) {
        Ok(ciphertext) => decrypt_ciphertext(ciphertext.as_slice(), key_pem),
        Err(e) => Err(e),
    }
}

/// Text that does not spell exactly 128 bytes is refused by the first two
/// stages, which take no key: no later stage is reached with it.
pub proof fn lemma_malformed_text_is_refused_without_key(text: Seq<char>)
    requires
        !is_hex_text(text) || hex_bytes(text).len() != CIPHERTEXT_LEN,
    ensures
        spec_decode_ciphertext(text) is Err,
        spec_decode_ciphertext(text) == Err::<Seq<u8>, CryptoError>(CryptoError::InvalidEncoding)
            <==> !is_hex_text(text),
        spec_decode_ciphertext(text) == Err::<Seq<u8>, CryptoError>(CryptoError::InvalidKeyLength)
            <==> is_hex_text(text),
{
}

} // verus!
