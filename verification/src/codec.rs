//! The boundary to the key-encoding and key-derivation crates: base64
//! (standard alphabet, padded), x25519 and the operating system's random
//! source. Each item here is trusted; its doc comment says what is claimed.

use vstd::prelude::*;

verus! {

#[verifier::external_type_specification]
#[verifier::external_body]
pub struct ExDecodeError(base64::DecodeError);

/// What the padded standard base64 engine decodes `text` to, or `None`
/// where it rejects the text.
pub uninterp spec fn base64_decoded(text: Seq<char>) -> Option<Seq<u8>>;

/// The padded standard base64 text of `bytes`.
pub uninterp spec fn base64_encoded(bytes: Seq<u8>) -> Seq<char>;

/// The x25519 public key that belongs to the (unclamped) secret `secret`:
/// the clamped scalar times the base point, in Montgomery form.
pub uninterp spec fn x25519_public(secret: Seq<u8>) -> Seq<u8>;

/// `base64::Engine::decode` on `general_purpose::STANDARD`. Claimed: the
/// call succeeds exactly where `base64_decoded` gives bytes, and then gives
/// those bytes.
#[verifier::external_body]
pub(crate) fn base64_decode(text: &str) -> (res: Result<Vec<u8>, base64::DecodeError>)
    ensures
        match res {
            Ok(bytes) => base64_decoded(text@) == Some(bytes@),
            Err(_) => base64_decoded(text@) is None,
        },
{
    base64::Engine::decode(&base64::engine::general_purpose::STANDARD, text)
}

/// The `Display` text of `base64::DecodeError`. Nothing is stated of it:
/// the error value is opaque here (it names the offending offset and byte).
#[verifier::external_body]
pub(crate) fn decode_error_text(e: &base64::DecodeError) -> String {
    format!("{e}")
}

/// `base64::Engine::encode` on `general_purpose::STANDARD`. Claimed: the
/// text is `base64_encoded(bytes)`; it is padded, four characters for each
/// started group of three bytes (`encoded_len`); and decoding it with the
/// same engine gives the bytes back (the engine's round trip).
#[verifier::external_body]
pub(crate) fn base64_encode(bytes: &[u8]) -> (res: String)
    ensures
        res@ == base64_encoded(bytes@),
        res@.len() == 4 * ((bytes@.len() + 2) / 3),
        base64_decoded(res@) == Some(bytes@),
{
    base64::Engine::encode(&base64::engine::general_purpose::STANDARD, bytes)
}

/// `x25519::StaticSecret::random_from_rng(rand::rngs::OsRng)`, taken back
/// as its 32 bytes. Nothing is stated of the bytes: they are random.
#[verifier::external_body]
pub(crate) fn random_secret_key() -> [u8; 32] {
    boringtun::x25519::StaticSecret::random_from_rng(rand::rngs::OsRng).to_bytes()
}

/// `x25519::PublicKey::from(&StaticSecret)` for the secret with the given
/// bytes. Claimed: the result is `x25519_public(secret)`.
#[verifier::external_body]
pub(crate) fn x25519_public_key(secret: &[u8; 32]) -> (res: [u8; 32])
    ensures
        res@ == x25519_public(secret@),
{
    let secret = boringtun::x25519::StaticSecret::from(*secret);
    boringtun::x25519::PublicKey::from(&secret).to_bytes()
}

/// `<[u8; N]>::try_from(Vec<u8>)` from std, on a vector of exactly `N`
/// bytes: the array holds the same bytes.
#[verifier::external_body]
pub(crate) fn bytes_to_array<const N: usize>(bytes: Vec<u8>) -> (res: [u8; N])
    requires
        bytes@.len() == N,
    ensures
        res@ == bytes@,
{
    <[u8; N]>::try_from(bytes).unwrap()
}

} // verus!
