use boringtun::noise::{Tunn, TunnResult};
use boringtun::x25519::{PublicKey, StaticSecret};
use harmonyscale::config::ParsedConfig;
use harmonyscale::tunnel_loop::{forward_incoming, forward_outgoing};
use harmonyscale::wireguard::TunnelManager;
use harmonyscale::TunnelError;

/// A minimal IPv4 packet of `len` bytes (header plus zero payload).
fn ipv4_packet(len: usize, tag: u8) -> Vec<u8> {
    let mut p = vec![0u8; len];
    p[0] = 0x45;
    p[2] = (len >> 8) as u8;
    p[3] = (len & 0xff) as u8;
    p[8] = 64;
    p[9] = 17;
    p[12..16].copy_from_slice(&[10, 0, 0, 2]);
    p[16..20].copy_from_slice(&[10, 0, 0, 1]);
    if len > 20 {
        p[20] = tag;
    }
    p
}

struct Pair {
    ours: TunnelManager,
    peer: Tunn,
}

fn pair() -> Pair {
    let our_secret = StaticSecret::random_from_rng(rand::rngs::OsRng);
    let peer_secret = StaticSecret::random_from_rng(rand::rngs::OsRng);
    let our_public = PublicKey::from(&our_secret);
    let peer_public = PublicKey::from(&peer_secret);
    let config = ParsedConfig {
        private_key: our_secret.to_bytes(),
        peer_public_key: peer_public.to_bytes(),
        peer_endpoint: "100.78.229.11:41641".to_string(),
        addresses: vec!["100.64.0.2/32".to_string()],
        dns_servers: vec![],
        mtu: 1280,
        keepalive_seconds: 25,
    };
    let ours = TunnelManager::new(&config).unwrap();
    let peer = Tunn::new(peer_secret, our_public, None, None, 77, None);
    Pair { ours, peer }
}

fn network_bytes(r: TunnResult) -> Vec<u8> {
    match r {
        TunnResult::WriteToNetwork(d) => d.to_vec(),
        other => panic!("expected bytes for the network, got {:?}", other),
    }
}

/// Runs the handshake: our first packet starts it, the peer answers, and
/// our reply completes it. Returns the first packet (still queued by us).
fn handshake(p: &mut Pair) -> Vec<u8> {
    let first = ipv4_packet(40, 1);
    let init = p.ours.process_outgoing(&first).unwrap().expect("handshake initiation");
    assert_eq!(init.len(), 148);
    let mut buf = vec![0u8; 2048];
    let response = network_bytes(p.peer.decapsulate(None, &init, &mut buf));
    assert_eq!(response.len(), 92);
    assert_eq!(p.ours.process_incoming(&response).unwrap(), None);
    first
}

#[test]
fn new_tunnel_is_running_and_quiet() {
    let p = pair();
    let stats = p.ours.stats().unwrap();
    assert!(!stats.handshake_completed);
    assert_eq!(stats.tx_bytes, 0);
    assert_eq!(stats.rx_bytes, 0);
    assert_eq!(stats.last_handshake, None);
    assert_eq!(stats.peer_endpoint, "100.78.229.11:41641");
    let (addresses, dns, mtu) = p.ours.config_info();
    assert_eq!(addresses, vec!["100.64.0.2/32".to_string()]);
    assert!(dns.is_empty());
    assert_eq!(mtu, 1280);
}

#[test]
fn first_packet_starts_one_handshake() {
    let mut p = pair();
    let init = p.ours.process_outgoing(&ipv4_packet(40, 1)).unwrap().unwrap();
    assert_eq!(init.len(), 148);
    assert_eq!(p.ours.stats().unwrap().tx_bytes, 148);
    // A handshake is in progress: the next packet waits.
    assert_eq!(p.ours.process_outgoing(&ipv4_packet(40, 2)).unwrap(), None);
    assert_eq!(p.ours.stats().unwrap().tx_bytes, 148);
}

#[test]
fn handshake_response_drains_queue_without_completing() {
    let mut p = pair();
    handshake(&mut p);
    let stats = p.ours.stats().unwrap();
    // initiation 148 + keepalive 32 + queued 40-byte packet sealed into 72
    assert_eq!(stats.tx_bytes, 148 + 32 + 72);
    assert_eq!(stats.rx_bytes, 0);
    assert!(!stats.handshake_completed);
    assert_eq!(stats.last_handshake, None);
}

#[test]
fn data_flows_both_ways_after_handshake() {
    let mut p = pair();
    handshake(&mut p);
    let tx_before = p.ours.stats().unwrap().tx_bytes;
    let outgoing = ipv4_packet(60, 3);
    let sealed = p.ours.process_outgoing(&outgoing).unwrap().unwrap();
    assert_eq!(sealed.len(), 60 + 32);
    assert_eq!(p.ours.stats().unwrap().tx_bytes, tx_before + 92);
    let mut buf = vec![0u8; 2048];
    match p.peer.decapsulate(None, &sealed, &mut buf) {
        TunnResult::WriteToTunnelV4(d, _) => assert_eq!(d.to_vec(), outgoing),
        other => panic!("peer could not open our packet: {:?}", other),
    }
    let reply = ipv4_packet(52, 4);
    let mut buf = vec![0u8; 2048];
    let sealed_reply = network_bytes(p.peer.encapsulate(&reply, &mut buf));
    let opened = p.ours.process_incoming(&sealed_reply).unwrap().unwrap();
    assert_eq!(opened, reply);
    let stats = p.ours.stats().unwrap();
    assert!(stats.handshake_completed);
    assert_eq!(stats.rx_bytes, 52);
    assert!(stats.last_handshake.is_some());
    // A completed handshake stays completed, whatever comes next.
    assert!(p.ours.process_incoming(&[9, 9, 9]).is_err());
    let later = p.ours.stats().unwrap();
    assert!(later.handshake_completed);
    assert!(later.last_handshake.is_some());
    assert_eq!(later.rx_bytes, 52);
}

#[test]
fn garbage_from_network_is_an_error() {
    let mut p = pair();
    match p.ours.process_incoming(&[1, 2, 3]) {
        Err(TunnelError::WireGuard(text)) => assert_eq!(text, "InvalidPacket"),
        other => panic!("unexpected {:?}", other.map(|_| ())),
    }
    assert_eq!(p.ours.stats().unwrap().rx_bytes, 0);
}

#[test]
fn stopped_tunnel_refuses_packets() {
    let mut p = pair();
    p.ours.stop();
    assert!(matches!(p.ours.process_outgoing(&ipv4_packet(40, 1)), Err(TunnelError::TunnelClosed)));
    assert!(matches!(p.ours.process_incoming(&[4, 0, 0, 0]), Err(TunnelError::TunnelClosed)));
    assert_eq!(p.ours.stats().unwrap().tx_bytes, 0);
}

#[test]
fn loop_forwarding_ignores_empty_reads() {
    let mut p = pair();
    let buf = vec![0u8; 2048];
    assert_eq!(forward_outgoing(&mut p.ours, &buf, 0), None);
    assert_eq!(forward_incoming(&mut p.ours, &buf, 0), None);
    assert_eq!(p.ours.stats().unwrap().tx_bytes, 0);
}

#[test]
fn loop_forwarding_moves_packets() {
    let mut p = pair();
    let mut buf = vec![0u8; 2048];
    let packet = ipv4_packet(40, 9);
    buf[..40].copy_from_slice(&packet);
    let init = forward_outgoing(&mut p.ours, &buf, 40).unwrap();
    assert_eq!(init.len(), 148);
    let mut pbuf = vec![0u8; 2048];
    let response = network_bytes(p.peer.decapsulate(None, &init, &mut pbuf));
    let mut net = vec![0u8; 2048];
    net[..response.len()].copy_from_slice(&response);
    assert_eq!(forward_incoming(&mut p.ours, &net, response.len()), None);
    assert_eq!(forward_incoming(&mut p.ours, &net, 3), None);
}

#[test]
fn loop_forwarding_on_stopped_tunnel_sends_nothing() {
    let mut p = pair();
    p.ours.stop();
    let mut buf = vec![0u8; 2048];
    buf[..40].copy_from_slice(&ipv4_packet(40, 5));
    assert_eq!(forward_outgoing(&mut p.ours, &buf, 40), None);
    assert_eq!(forward_incoming(&mut p.ours, &buf, 40), None);
    assert_eq!(p.ours.stats().unwrap().tx_bytes, 0);
}

#[test]
fn loop_forwarding_queues_while_handshaking() {
    let mut p = pair();
    let mut buf = vec![0u8; 2048];
    buf[..40].copy_from_slice(&ipv4_packet(40, 6));
    assert!(forward_outgoing(&mut p.ours, &buf, 40).is_some());
    // The second packet waits in the queue for the handshake in progress.
    assert_eq!(forward_outgoing(&mut p.ours, &buf, 40), None);
    assert_eq!(p.ours.stats().unwrap().tx_bytes, 148);
}

#[test]
fn stopped_tunnel_refuses_packets_of_any_length() {
    let mut p = pair();
    assert!(p.ours.is_running());
    p.ours.stop();
    assert!(!p.ours.is_running());
    let huge = vec![0u8; 70000];
    assert!(matches!(p.ours.process_outgoing(&huge), Err(TunnelError::TunnelClosed)));
    assert!(matches!(p.ours.process_incoming(&huge), Err(TunnelError::TunnelClosed)));
}

#[test]
fn short_datagrams_are_refused_by_boringtun() {
    let mut p = pair();
    for len in 1..4 {
        let datagram = vec![4u8; len];
        assert!(matches!(p.ours.process_incoming(&datagram), Err(TunnelError::WireGuard(_))));
    }
    let stats = p.ours.stats().unwrap();
    assert_eq!(stats.tx_bytes, 0);
    assert_eq!(stats.rx_bytes, 0);
}

#[test]
fn sealed_packet_is_32_bytes_longer() {
    let mut p = pair();
    handshake(&mut p);
    for len in [20usize, 100, 1280] {
        let sealed = p.ours.process_outgoing(&ipv4_packet(len, 1)).unwrap().unwrap();
        assert_eq!(sealed.len(), len + 32);
    }
}
