use base64::Engine;
use harmonyscale::config::{
    decode_base64_key, generate_keypair, key_from_bytes, keypair_text, ParsedConfig, TunnelConfig,
};
use harmonyscale::TunnelError;

fn b64(bytes: &[u8]) -> String {
    base64::engine::general_purpose::STANDARD.encode(bytes)
}

fn config_with(private_key: String, peer_public_key: String) -> TunnelConfig {
    TunnelConfig {
        private_key,
        peer_public_key,
        peer_endpoint: "100.78.229.11:41641".to_string(),
        addresses: vec!["100.64.0.2/32".to_string()],
        dns_servers: vec!["100.100.100.100".to_string()],
        mtu: 1280,
        keepalive_seconds: 25,
    }
}

#[test]
fn decode_key_of_right_length() {
    let bytes: Vec<u8> = (0u8..32).collect();
    let key = decode_base64_key::<32>(&b64(&bytes), "k").unwrap();
    assert_eq!(key.to_vec(), bytes);
}

#[test]
fn decode_key_of_wrong_length_names_both_lengths() {
    let err = decode_base64_key::<32>(&b64(&[7u8; 16]), "peer_public_key").unwrap_err();
    match err {
        TunnelError::InvalidKey(m) => assert_eq!(m, "peer_public_key: expected 32 bytes, got 16"),
        other => panic!("unexpected {:?}", other),
    }
}

#[test]
fn decode_key_reports_multi_digit_lengths() {
    let err = decode_base64_key::<100>(&b64(&[0u8; 3]), "psk").unwrap_err();
    match err {
        TunnelError::InvalidKey(m) => assert_eq!(m, "psk: expected 100 bytes, got 3"),
        other => panic!("unexpected {:?}", other),
    }
    let key = decode_base64_key::<100>(&b64(&[5u8; 100]), "psk").unwrap();
    assert_eq!(key.to_vec(), vec![5u8; 100]);
}

#[test]
fn decode_key_of_zero_bytes() {
    let err = decode_base64_key::<32>("", "k").unwrap_err();
    match err {
        TunnelError::InvalidKey(m) => assert_eq!(m, "k: expected 32 bytes, got 0"),
        other => panic!("unexpected {:?}", other),
    }
}

#[test]
fn decode_key_that_is_not_base64() {
    let err = decode_base64_key::<32>("not base64!", "private_key").unwrap_err();
    match err {
        TunnelError::InvalidKey(m) => assert!(m.starts_with("private_key: base64 decode failed: "), "{}", m),
        other => panic!("unexpected {:?}", other),
    }
}

#[test]
fn from_config_carries_fields_over() {
    let a: Vec<u8> = vec![1u8; 32];
    let b: Vec<u8> = vec![2u8; 32];
    let parsed = ParsedConfig::from_config(config_with(b64(&a), b64(&b))).unwrap();
    assert_eq!(parsed.private_key.to_vec(), a);
    assert_eq!(parsed.peer_public_key.to_vec(), b);
    assert_eq!(parsed.peer_endpoint, "100.78.229.11:41641");
    assert_eq!(parsed.addresses, vec!["100.64.0.2/32".to_string()]);
    assert_eq!(parsed.dns_servers, vec!["100.100.100.100".to_string()]);
    assert_eq!(parsed.mtu, 1280);
    assert_eq!(parsed.keepalive_seconds, 25);
}

#[test]
fn from_config_checks_private_key_first() {
    let err = ParsedConfig::from_config(config_with(b64(&[1u8; 31]), "?".to_string())).err().unwrap();
    assert_eq!(err.message(), "invalid key: private_key: expected 32 bytes, got 31");
}

#[test]
fn from_config_reports_peer_key() {
    let err = ParsedConfig::from_config(config_with(b64(&[1u8; 32]), b64(&[1u8; 33]))).err().unwrap();
    assert_eq!(err.message(), "invalid key: peer_public_key: expected 32 bytes, got 33");
}

#[test]
fn generated_keypair_is_accepted_and_consistent() {
    let (private_b64, public_b64) = generate_keypair();
    assert_eq!(private_b64.len(), 44);
    assert_eq!(public_b64.len(), 44);
    let parsed = ParsedConfig::from_config(config_with(private_b64.clone(), public_b64.clone())).unwrap();
    let secret = boringtun::x25519::StaticSecret::from(parsed.private_key);
    let public = boringtun::x25519::PublicKey::from(&secret);
    assert_eq!(public.to_bytes(), parsed.peer_public_key);
}

#[test]
fn generated_keypairs_differ() {
    let (p1, _) = generate_keypair();
    let (p2, _) = generate_keypair();
    assert_ne!(p1, p2);
}

#[test]
fn error_messages() {
    assert_eq!(TunnelError::Config("bad".to_string()).message(), "config error: bad");
    assert_eq!(TunnelError::WireGuard("InvalidMac".to_string()).message(), "wireguard error: InvalidMac");
    assert_eq!(TunnelError::InvalidKey("x".to_string()).message(), "invalid key: x");
    assert_eq!(TunnelError::TunnelClosed.message(), "tunnel closed");
    let io = std::io::Error::new(std::io::ErrorKind::Other, "boom");
    assert_eq!(TunnelError::from(io).message(), "io error: boom");
}

#[test]
fn keypair_text_encodes_the_given_secret() {
    let secret = [9u8; 32];
    let (private_b64, public_b64) = keypair_text(&secret);
    assert_eq!(private_b64, b64(&secret));
    let public = boringtun::x25519::PublicKey::from(&boringtun::x25519::StaticSecret::from(secret));
    assert_eq!(public_b64, b64(public.as_bytes()));
    assert_eq!(private_b64.len(), 44);
    assert_eq!(public_b64.len(), 44);
}

#[test]
fn key_from_bytes_checks_length() {
    let key = key_from_bytes::<4>(vec![1, 2, 3, 4], "k").unwrap();
    assert_eq!(key, [1, 2, 3, 4]);
    match key_from_bytes::<4>(vec![1, 2, 3], "k").unwrap_err() {
        TunnelError::InvalidKey(m) => assert_eq!(m, "k: expected 4 bytes, got 3"),
        other => panic!("unexpected {:?}", other),
    }
}
