//! The cryptographic and encoding primitives that the authenticators rest
//! on. Each is computed by an outside crate; the contracts here say what is
//! taken on trust of it.

use base64::Engine;
use ed25519_dalek::Signer;
use hmac::Mac;
use vstd::prelude::*;

verus! {

/// The HMAC-SHA256 tag of `message` under `key`.
pub uninterp spec fn hmac_sha256(key: Seq<u8>, message: Seq<u8>) -> Seq<u8>;

/// The first `length` octets of the PBKDF2-HMAC-SHA256 stream for
/// `password` and `salt` after `rounds` rounds.
pub uninterp spec fn pbkdf2_hmac_sha256(
    password: Seq<u8>,
    salt: Seq<u8>,
    rounds: u32,
    length: nat,
) -> Seq<u8>;

/// The base64 text of `data`, in the standard alphabet and padded.
pub uninterp spec fn base64_standard(data: Seq<u8>) -> Seq<char>;

/// The Ed25519 public key that belongs to the secret key `secret`.
pub uninterp spec fn ed25519_public_key(secret: Seq<u8>) -> Seq<u8>;

/// The Ed25519 signature of `message` under the secret key `secret`.
pub uninterp spec fn ed25519_signature(secret: Seq<u8>, message: Seq<u8>) -> Seq<u8>;

/// The most octets that PBKDF2 with a 32-octet hash derives: its block
/// counter is a 32-bit number.
pub open spec fn max_derived_length() -> int {
    32 * 0xffff_ffffint
}

/// The most octets whose base64 or hexadecimal text is sure to have a
/// length that the machine can count.
pub open spec fn max_encoded_length() -> int {
    usize::MAX as int / 4
}

/// The lower-case hexadecimal digit for a number below 16.
pub open spec fn hex_digit(n: int) -> char {
    if n == 0 {
        '0'
    } else if n == 1 {
        '1'
    } else if n == 2 {
        '2'
    } else if n == 3 {
        '3'
    } else if n == 4 {
        '4'
    } else if n == 5 {
        '5'
    } else if n == 6 {
        '6'
    } else if n == 7 {
        '7'
    } else if n == 8 {
        '8'
    } else if n == 9 {
        '9'
    } else if n == 10 {
        'a'
    } else if n == 11 {
        'b'
    } else if n == 12 {
        'c'
    } else if n == 13 {
        'd'
    } else if n == 14 {
        'e'
    } else {
        'f'
    }
}

/// The number that a hexadecimal digit of either case stands for.
pub open spec fn hex_value(c: char) -> Option<int> {
    if '0' <= c <= '9' {
        Some(c as int - '0' as int)
    } else if 'a' <= c <= 'f' {
        Some(c as int - 'a' as int + 10)
    } else if 'A' <= c <= 'F' {
        Some(c as int - 'A' as int + 10)
    } else {
        None
    }
}

/// Two lower-case hexadecimal digits for each octet, the high half first.
pub open spec fn hex_text(data: Seq<u8>) -> Seq<char> {
    Seq::new(
        2 * data.len(),
        |i: int|
            if i % 2 == 0 {
                hex_digit(data[i / 2] as int / 16)
            } else {
                hex_digit(data[i / 2] as int % 16)
            },
    )
}

/// Whether a text is hexadecimal: an even number of hexadecimal digits.
pub open spec fn is_hex(text: Seq<char>) -> bool {
    &&& text.len() % 2 == 0
    &&& forall|i: int| 0 <= i < text.len() ==> hex_value(#[trigger] text[i]) is Some
}

/// The octets that a hexadecimal text stands for.
pub open spec fn hex_octets(text: Seq<char>) -> Seq<u8> {
    Seq::new(
        text.len() / 2,
        |i: int| (hex_value(text[2 * i])->0 * 16 + hex_value(text[2 * i + 1])->0) as u8,
    )
}

#[verifier::external_type_specification]
#[verifier::external_body]
pub struct ExFromHexError(hex::FromHexError);

/// Computes an HMAC-SHA256 tag.
///
/// Calls `Hmac::<Sha256>::new_from_slice`, `update` and `finalize` of the
/// `hmac` crate. HMAC takes a key of any length, so the first call does not
/// fail. The tag has the 32 octets of a SHA-256 digest; it is not spelled
/// out, the contract names it.
#[verifier::external_body]
pub(crate) fn compute_hmac_sha256(key: &[u8], message: &[u8]) -> (tag: Vec<u8>)
    ensures
        tag@ == hmac_sha256(key@, message@),
        tag@.len() == 32,
{
    let mut mac = hmac::Hmac::<sha2::Sha256>::new_from_slice(key).expect("any key length");
    mac.update(message);
    mac.finalize().into_bytes().to_vec()
}

/// Derives `length` octets with PBKDF2-HMAC-SHA256.
///
/// Calls `pbkdf2_hmac::<Sha256>` of the `pbkdf2` crate on a zeroed buffer
/// of `length` octets. The function numbers the 32-octet blocks of its
/// output with a `u32`, which bounds the length. The octets are not spelled
/// out; the contract names them.
#[verifier::external_body]
pub(crate) fn compute_pbkdf2_hmac_sha256(
    password: &[u8],
    salt: &[u8],
    rounds: u32,
    length: usize,
) -> (derived: Vec<u8>)
    requires
        length <= max_derived_length(),
    ensures
        derived@ == pbkdf2_hmac_sha256(password@, salt@, rounds, length as nat),
        derived@.len() == length,
{
    let mut derived = vec![0u8; length];
    pbkdf2::pbkdf2_hmac::<sha2::Sha256>(password, salt, rounds, &mut derived);
    derived
}

/// Encodes octets as base64.
///
/// Calls `encode` on the `STANDARD` engine of the `base64` crate, which
/// panics where the length of the text overflows. The text is not spelled
/// out; the contract names it.
#[verifier::external_body]
pub(crate) fn encode_base64(data: &[u8]) -> (text: String)
    requires
        data@.len() <= max_encoded_length(),
    ensures
        text@ == base64_standard(data@),
{
    base64::engine::general_purpose::STANDARD.encode(data)
}

/// Encodes octets as lower-case hexadecimal text.
///
/// Calls `hex::encode`, which writes for each octet the digit of its high
/// half and the digit of its low half from `0123456789abcdef`.
#[verifier::external_body]
pub(crate) fn encode_hex(data: &[u8]) -> (text: String)
    requires
        data@.len() <= max_encoded_length(),
    ensures
        text@ == hex_text(data@),
{
    hex::encode(data)
}

/// Decodes hexadecimal text.
///
/// Calls `hex::decode`, which fails on an odd number of octets and on any
/// octet that is no hexadecimal digit, and else gives one octet for each
/// two digits, the high half first. A character outside ASCII is encoded
/// as octets that are no digits.
#[verifier::external_body]
pub(crate) fn decode_hex(text: &str) -> (r: Result<Vec<u8>, hex::FromHexError>)
    ensures
        match r {
            Ok(data) => is_hex(text@) && data@ == hex_octets(text@),
            Err(_) => !is_hex(text@),
        },
{
    hex::decode(text)
}

/// Decodes the hexadecimal text of a 32-octet key.
///
/// Calls `<[u8; 32] as hex::FromHex>::from_hex`, which decodes as
/// `hex::decode` does and fails as well where the text does not stand for
/// just 32 octets.
#[verifier::external_body]
pub(crate) fn decode_hex_key(text: &str) -> (r: Result<[u8; 32], hex::FromHexError>)
    ensures
        match r {
            Ok(key) => is_hex(text@) && text@.len() == 64 && key@ == hex_octets(text@),
            Err(_) => !(is_hex(text@) && text@.len() == 64),
        },
{
    <[u8; 32] as hex::FromHex>::from_hex(text)
}

/// Computes the Ed25519 public key of a secret key.
///
/// Calls `SigningKey::from_bytes` and `verifying_key` of the
/// `ed25519_dalek` crate. The key has 32 octets; it is not spelled out,
/// the contract names it.
#[verifier::external_body]
pub(crate) fn compute_ed25519_public_key(secret: &[u8; 32]) -> (public: Vec<u8>)
    ensures
        public@ == ed25519_public_key(secret@),
        public@.len() == 32,
{
    ed25519_dalek::SigningKey::from_bytes(secret).verifying_key().to_bytes().to_vec()
}

/// Signs a message with Ed25519.
///
/// Calls `SigningKey::from_bytes` and `Signer::sign` of the `ed25519_dalek`
/// crate. Signing with a key held in memory does not fail, and it draws on
/// no randomness. The signature has 64 octets; it is not spelled out, the
/// contract names it.
#[verifier::external_body]
pub(crate) fn compute_ed25519_signature(secret: &[u8; 32], message: &[u8]) -> (signature: Vec<u8>)
    ensures
        signature@ == ed25519_signature(secret@, message@),
        signature@.len() == 64,
{
    ed25519_dalek::SigningKey::from_bytes(secret).sign(message).to_bytes().to_vec()
}

} // verus!
