//! Tunnel configuration: the JSON-shaped input, its validated form, and
//! WireGuard key handling.

use vstd::prelude::*;

use crate::codec::{
    base64_decode, base64_decoded, base64_encode, base64_encoded, bytes_to_array,
    decode_error_text, random_secret_key, x25519_public, x25519_public_key,
};
use crate::error::TunnelError;
use crate::text::{decimal, push_decimal};

verus! {

/// The tunnel configuration as the client hands it over (JSON fields).
#[derive(Debug, Clone)]
pub struct TunnelConfig {
    pub private_key: String,
    pub peer_public_key: String,
    pub peer_endpoint: String,
    pub addresses: Vec<String>,
    pub dns_servers: Vec<String>,
    pub mtu: u32,
    pub keepalive_seconds: u16,
}

/// A configuration whose keys have been decoded into raw x25519 keys.
pub struct ParsedConfig {
    pub private_key: [u8; 32],
    pub peer_public_key: [u8; 32],
    pub peer_endpoint: String,
    pub addresses: Vec<String>,
    pub dns_servers: Vec<String>,
    pub mtu: u32,
    pub keepalive_seconds: u16,
}

/// The raw key that `text` stands for when a key of `len` bytes is
/// expected: its base64 decoding, if there is one of exactly that length.
pub open spec fn key_bytes(text: Seq<char>, len: nat) -> Option<Seq<u8>> {
    match base64_decoded(text) {
        Some(bytes) => if bytes.len() == len { Some(bytes) } else { None },
        None => None,
    }
}

/// The message of the error for a key that decodes to the wrong length.
pub open spec fn wrong_length_message(label: Seq<char>, expected: nat, got: nat) -> Seq<char> {
    label + ": expected "@ + decimal(expected) + " bytes, got "@ + decimal(got)
}

/// The prefix of the message of the error for a key that is no base64.
pub open spec fn not_base64_prefix(label: Seq<char>) -> Seq<char> {
    label + ": base64 decode failed: "@
}

/// What `decode_base64_key` reports about `text` when it is refused.
pub open spec fn key_error_fits(text: Seq<char>, label: Seq<char>, len: nat, message: Seq<char>) -> bool {
    match base64_decoded(text) {
        None => not_base64_prefix(label).is_prefix_of(message),
        Some(bytes) => bytes.len() != len && message == wrong_length_message(label, len, bytes.len()),
    }
}

/// Takes decoded key bytes as a key of `N` bytes: the bytes themselves if
/// there are exactly `N`, else an `InvalidKey` error naming `label`, the
/// expected and the actual length.
pub fn key_from_bytes<const N: usize>(bytes: Vec<u8>, label: &str) -> (res: Result<[u8; N], TunnelError>)
    ensures
        bytes@.len() == N ==> (res matches Ok(key) && key@ == bytes@),
        bytes@.len() != N ==> (res matches Err(TunnelError::InvalidKey(message))
            && message@ == wrong_length_message(label@, N as nat, bytes@.len())),
{
    if bytes.len() != N {
        let mut message = label.to_owned();
        message.append(": expected ");
        push_decimal(&mut message, N);
        message.append(" bytes, got ");
        push_decimal(&mut message, bytes.len());
        proof {
            assert(message@ =~= wrong_length_message(label@, N as nat, bytes@.len()));
        }
        return Err(TunnelError::InvalidKey(message));
    }
    Ok(bytes_to_array::<N>(bytes))
}

/// Decodes a base64 (standard, padded) key that must be `N` bytes long.
/// `label` names the key in the error message.
pub fn decode_base64_key<const N: usize>(b64: &str, label: &str) -> (res: Result<[u8; N], TunnelError>)
    ensures
        res is Ok <==> key_bytes(b64@, N as nat) is Some,
        match res {
            Ok(key) => key_bytes(b64@, N as nat) == Some(key@),
            Err(TunnelError::InvalidKey(message)) => key_error_fits(b64@, label@, N as nat, message@),
            Err(_) => false,
        },
{
    let bytes = match base64_decode(b64) {
        Ok(bytes) => bytes,
        Err(e) => {
            let mut message = label.to_owned();
            message.append(": base64 decode failed: ");
            let detail = decode_error_text(&e);
            message.append(detail.as_str());
            proof {
                assert(not_base64_prefix(label@).is_prefix_of(message@)) by {
                    assert(message@.subrange(0, not_base64_prefix(label@).len() as int)
                        =~= not_base64_prefix(label@));
                }
            }
            return Err(TunnelError::InvalidKey(message));
        },
    };
    key_from_bytes::<N>(bytes, label)
}

/// The label under which each key of the configuration is reported.
pub open spec fn private_key_label() -> Seq<char> {
    "private_key"@
}

pub open spec fn peer_public_key_label() -> Seq<char> {
    "peer_public_key"@
}

impl ParsedConfig {
    /// Validates `cfg`: both keys must be base64 of exactly 32 bytes (the
    /// private key is checked first); every other field is carried over.
    pub fn from_config(cfg: TunnelConfig) -> (res: Result<ParsedConfig, TunnelError>)
        ensures
            res is Ok <==> key_bytes(cfg.private_key@, 32) is Some && key_bytes(cfg.peer_public_key@, 32) is Some,
            match res {
                Ok(parsed) => {
                    &&& key_bytes(cfg.private_key@, 32) == Some(parsed.private_key@)
                    &&& key_bytes(cfg.peer_public_key@, 32) == Some(parsed.peer_public_key@)
                    &&& parsed.peer_endpoint == cfg.peer_endpoint
                    &&& parsed.addresses == cfg.addresses
                    &&& parsed.dns_servers == cfg.dns_servers
                    &&& parsed.mtu == cfg.mtu
                    &&& parsed.keepalive_seconds == cfg.keepalive_seconds
                },
                Err(TunnelError::InvalidKey(message)) => if key_bytes(cfg.private_key@, 32) is None {
                    key_error_fits(cfg.private_key@, private_key_label(), 32, message@)
                } else {
                    key_error_fits(cfg.peer_public_key@, peer_public_key_label(), 32, message@)
                },
                Err(_) => false,
            },
    {
        let private_bytes = decode_base64_key::<32>(cfg.private_key.as_str(), "private_key")?;
        let peer_bytes = decode_base64_key::<32>(cfg.peer_public_key.as_str(), "peer_public_key")?;
        Ok(ParsedConfig {
            private_key: private_bytes,
            peer_public_key: peer_bytes,
            peer_endpoint: cfg.peer_endpoint,
            addresses: cfg.addresses,
            dns_servers: cfg.dns_servers,
            mtu: cfg.mtu,
            keepalive_seconds: cfg.keepalive_seconds,
        })
    }
}

/// `private_text` and `public_text` are the base64 texts of an x25519 key
/// pair: a 32-byte secret and the public key that belongs to it.
pub open spec fn is_keypair_text(private_text: Seq<char>, public_text: Seq<char>) -> bool {
    exists|secret: Seq<u8>| {
        &&& secret.len() == 32
        &&& x25519_public(secret).len() == 32
        &&& private_text == base64_encoded(secret)
        &&& public_text == base64_encoded(x25519_public(secret))
        &&& base64_decoded(private_text) == Some(secret)
        &&& base64_decoded(public_text) == Some(x25519_public(secret))
    }
}

/// The base64 texts `(private, public)` of the key pair whose secret is
/// `secret`: the secret itself and its x25519 public key, each 44
/// characters of standard padded base64.
pub fn keypair_text(secret: &[u8; 32]) -> (res: (String, String))
    ensures
        res.0@ == base64_encoded(secret@),
        res.1@ == base64_encoded(x25519_public(secret@)),
        res.0@.len() == 44,
        res.1@.len() == 44,
        is_keypair_text(res.0@, res.1@),
{
    let public = x25519_public_key(secret);
    let priv_b64 = base64_encode(secret);
    let pub_b64 = base64_encode(&public);
    proof {
        let s = secret@;
        assert(x25519_public(s).len() == 32);
    }
    (priv_b64, pub_b64)
}

/// Generates a fresh x25519 key pair from the operating system's random
/// source and returns `(private, public)`, each as standard padded base64
/// (`keypair_text` of the drawn secret).
pub fn generate_keypair() -> (res: (String, String))
    ensures
        is_keypair_text(res.0@, res.1@),
        res.0@.len() == 44,
        res.1@.len() == 44,
{
    let secret = random_secret_key();
    keypair_text(&secret)
}

/// A key pair from `generate_keypair` is accepted as a configuration's
/// keys: both texts decode to 32-byte keys, and the public one is the key
/// that belongs to the private one.
pub proof fn generated_keys_are_valid(private_text: Seq<char>, public_text: Seq<char>)
    requires
        is_keypair_text(private_text, public_text),
    ensures
        key_bytes(private_text, 32) is Some,
        key_bytes(public_text, 32) is Some,
        key_bytes(public_text, 32) == Some(x25519_public(key_bytes(private_text, 32)->0)),
{
    let secret = choose|secret: Seq<u8>| {
        &&& secret.len() == 32
        &&& x25519_public(secret).len() == 32
        &&& private_text == base64_encoded(secret)
        &&& public_text == base64_encoded(x25519_public(secret))
        &&& base64_decoded(private_text) == Some(secret)
        &&& base64_decoded(public_text) == Some(x25519_public(secret))
    };
}

} // verus!
