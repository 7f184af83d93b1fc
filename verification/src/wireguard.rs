//! The tunnel: one boringtun `Tunn` together with its traffic counters
//! and the configuration it was built from.

use vstd::prelude::*;

use std::time::Instant;

use crate::config::ParsedConfig;
use crate::error::TunnelError;
use crate::noise::{
    drain_measure, new_tunn, queue_push, queued_fit, same_link, tunn_handshake_in_progress,
    tunn_has_session, tunn_keepalive_seconds, tunn_opened, tunn_peer_public, tunn_preshared_key,
    tunn_queued, tunn_sealed, tunn_static_private, queued_fit_kept, tunn_decapsulate, tunn_encapsulate,
    Answer, TunnOutcome,
};
use boringtun::noise::Tunn;

verus! {

#[verifier::external_type_specification]
#[verifier::external_body]
pub struct ExInstant(Instant);

/// The size of the buffer the tunnel encrypts into and decrypts into.
pub const OUT_BUF_LEN: usize = 65536;

/// `rand::random::<u32>()`. Nothing is stated of the result: it is random.
#[verifier::external_body]
fn random_index() -> u32 {
    rand::random()
}

/// `Instant::now()`. Nothing is stated of the result: it is the time.
#[verifier::external_body]
fn now() -> Instant {
    Instant::now()
}

/// `Instant::elapsed(t)`. Nothing is stated of the result: it depends on
/// the time.
#[verifier::external_body]
fn elapsed_since(t: &Instant) -> std::time::Duration {
    t.elapsed()
}

/// `Duration::as_secs`: the whole seconds of a duration, which is opaque
/// here, so nothing is stated of them.
pub assume_specification[ std::time::Duration::as_secs ](d: &std::time::Duration) -> u64;

/// A snapshot of the tunnel for the client.
pub struct TunnelStats {
    pub handshake_completed: bool,
    pub tx_bytes: u64,
    pub rx_bytes: u64,
    /// Seconds since the first completed handshake, if there was one.
    pub last_handshake: Option<u64>,
    pub peer_endpoint: String,
}

/// The traffic counters of a tunnel. The byte counters wrap around at
/// `u64::MAX + 1`, as the release build's `+=` does.
#[derive(Clone, Copy, Debug)]
pub struct Traffic {
    /// A packet has come out of the tunnel, so a handshake has completed.
    pub handshake_done: bool,
    /// Bytes handed to the network.
    pub tx_bytes: u64,
    /// Bytes handed to the tunnel interface.
    pub rx_bytes: u64,
}

/// What the packet path does after one answer of boringtun.
pub enum Next {
    /// Return this result to the caller.
    Finish(Result<Option<Vec<u8>>, TunnelError>),
    /// Ask boringtun again with an empty packet.
    Again,
}

/// The decision after `encapsulate` answered `outcome` for an outgoing
/// packet of `packet_len` bytes: bytes for the network are returned and
/// counted as sent; a packet for the tunnel is counted as received (the
/// outgoing packet's length) and boringtun is asked again; `Done` returns
/// nothing; an error is reported with its text.
pub fn after_encapsulate(traffic: &mut Traffic, packet_len: usize, outcome: TunnOutcome) -> (next: Next)
    ensures
        match outcome {
            TunnOutcome::Done => next matches Next::Finish(Ok(None)) && *final(traffic) == *old(traffic),
            TunnOutcome::Network(d) => next matches Next::Finish(Ok(Some(v))) && v@ == d@
                && *final(traffic) == (Traffic {
                    tx_bytes: old(traffic).tx_bytes.wrapping_add(d@.len() as u64),
                    ..*old(traffic)
                }),
            TunnOutcome::TunnelV4(_) => next is Again && *final(traffic) == (Traffic {
                    rx_bytes: old(traffic).rx_bytes.wrapping_add(packet_len as u64),
                    ..*old(traffic)
                }),
            TunnOutcome::TunnelV6(_) => next is Again && *final(traffic) == (Traffic {
                    rx_bytes: old(traffic).rx_bytes.wrapping_add(packet_len as u64),
                    ..*old(traffic)
                }),
            TunnOutcome::Failed(text) => next matches Next::Finish(Err(TunnelError::WireGuard(m)))
                && m@ == text@ && *final(traffic) == *old(traffic),
        },
{
    match outcome {
        TunnOutcome::Done => Next::Finish(Ok(None)),
        TunnOutcome::Network(data) => {
            let len = data.len();
            traffic.tx_bytes = traffic.tx_bytes.wrapping_add(len as u64);
            Next::Finish(Ok(Some(data)))
        },
        TunnOutcome::TunnelV4(_) | TunnOutcome::TunnelV6(_) => {
            traffic.rx_bytes = traffic.rx_bytes.wrapping_add(packet_len as u64);
            Next::Again
        },
        TunnOutcome::Failed(text) => Next::Finish(Err(TunnelError::WireGuard(text))),
    }
}

/// The decision after `decapsulate` answered `outcome`: a packet for the
/// tunnel is returned, counted as received and marks the handshake as
/// done; bytes for the network are counted as sent (and dropped) and
/// boringtun is asked again; `Done` returns nothing; an error is reported.
pub fn after_decapsulate(traffic: &mut Traffic, outcome: TunnOutcome) -> (next: Next)
    ensures
        match outcome {
            TunnOutcome::Done => next matches Next::Finish(Ok(None)) && *final(traffic) == *old(traffic),
            TunnOutcome::TunnelV4(d) => next matches Next::Finish(Ok(Some(v))) && v@ == d@
                && *final(traffic) == (Traffic {
                    rx_bytes: old(traffic).rx_bytes.wrapping_add(d@.len() as u64),
                    handshake_done: true,
                    ..*old(traffic)
                }),
            TunnOutcome::TunnelV6(d) => next matches Next::Finish(Ok(Some(v))) && v@ == d@
                && *final(traffic) == (Traffic {
                    rx_bytes: old(traffic).rx_bytes.wrapping_add(d@.len() as u64),
                    handshake_done: true,
                    ..*old(traffic)
                }),
            TunnOutcome::Network(d) => next is Again && *final(traffic) == (Traffic {
                    tx_bytes: old(traffic).tx_bytes.wrapping_add(d@.len() as u64),
                    ..*old(traffic)
                }),
            TunnOutcome::Failed(text) => next matches Next::Finish(Err(TunnelError::WireGuard(m)))
                && m@ == text@ && *final(traffic) == *old(traffic),
        },
{
    match outcome {
        TunnOutcome::Done => Next::Finish(Ok(None)),
        TunnOutcome::TunnelV4(data) | TunnOutcome::TunnelV6(data) => {
            let len = data.len();
            traffic.rx_bytes = traffic.rx_bytes.wrapping_add(len as u64);
            traffic.handshake_done = true;
            Next::Finish(Ok(Some(data)))
        },
        TunnOutcome::Network(data) => {
            let len = data.len();
            traffic.tx_bytes = traffic.tx_bytes.wrapping_add(len as u64);
            Next::Again
        },
        TunnOutcome::Failed(text) => Next::Finish(Err(TunnelError::WireGuard(text))),
    }
}

struct Inner {
    tunn: Tunn,
    traffic: Traffic,
    last_handshake: Option<Instant>,
    running: bool,
    peer_endpoint: String,
    addresses: Vec<String>,
    dns_servers: Vec<String>,
    mtu: u32,
    /// Every byte ever counted as sent, without wrapping around.
    sent_total: Ghost<nat>,
    /// Every byte ever counted as received, without wrapping around.
    received_total: Ghost<nat>,
    /// boringtun's answers during the last `process_incoming`.
    incoming: Ghost<Seq<Answer>>,
}

/// A WireGuard tunnel to one peer. (The C interface shares it between
/// threads behind a mutex.)
pub struct TunnelManager {
    inner: Inner,
    out_buf: Vec<u8>,
}

/// The abstract state of a tunnel.
pub struct TunnelState {
    pub traffic: Traffic,
    /// When the first handshake completed, if one has.
    pub last_handshake: Option<Instant>,
    pub running: bool,
    pub peer_endpoint: Seq<char>,
    pub addresses: Seq<Seq<char>>,
    pub dns_servers: Seq<Seq<char>>,
    pub mtu: u32,
    /// Our static private key, as boringtun holds it.
    pub private_key: Seq<u8>,
    /// The peer's static public key, as boringtun holds it.
    pub peer_public_key: Seq<u8>,
    /// The persistent keepalive interval in seconds, as boringtun holds it.
    pub keepalive_seconds: nat,
    /// The preshared key of the WireGuard session, as boringtun holds it.
    pub preshared_key: Option<Seq<u8>>,
    /// All bytes counted as sent so far, without wrapping around.
    pub sent_total: nat,
    /// All bytes counted as received so far, without wrapping around.
    pub received_total: nat,
    /// What boringtun answered during the last `process_incoming` of a
    /// running tunnel, in order: first to the datagram, then to each empty
    /// datagram by which what it wanted sent was drained (empty before any).
    pub incoming_answers: Seq<Answer>,
}

impl View for TunnelManager {
    type V = TunnelState;

    closed spec fn view(&self) -> TunnelState {
        TunnelState {
            traffic: self.inner.traffic,
            last_handshake: self.inner.last_handshake,
            running: self.inner.running,
            peer_endpoint: self.inner.peer_endpoint@,
            addresses: self.inner.addresses.deep_view(),
            dns_servers: self.inner.dns_servers.deep_view(),
            mtu: self.inner.mtu,
            private_key: tunn_static_private(self.inner.tunn),
            peer_public_key: tunn_peer_public(self.inner.tunn),
            keepalive_seconds: tunn_keepalive_seconds(self.inner.tunn),
            preshared_key: tunn_preshared_key(self.inner.tunn),
            sent_total: self.inner.sent_total@,
            received_total: self.inner.received_total@,
            incoming_answers: self.inner.incoming@,
        }
    }
}

/// The number of values of a `u64`.
pub open spec fn u64_span() -> int {
    0x1_0000_0000_0000_0000
}

/// The byte counters are the running totals taken modulo `u64_span()`.
pub open spec fn counters_follow_totals(s: TunnelState) -> bool {
    &&& s.traffic.tx_bytes as int == s.sent_total as int % u64_span()
    &&& s.traffic.rx_bytes as int == s.received_total as int % u64_span()
}

/// A well-formed tunnel's byte counters are its never-wrapping totals of
/// bytes sent and received, taken modulo `u64_span()`; the totals only grow.
pub proof fn counters_follow_totals_law(m: &TunnelManager)
    requires
        m.wf(),
    ensures
        counters_follow_totals(m@),
{
}

/// Adding to a counter that follows a total follows the total plus the
/// same amount.
proof fn lemma_wrapping_follows(total: nat, x: u64, y: u64)
    requires
        x as int == total as int % u64_span(),
    ensures
        x.wrapping_add(y) as int == (total + y) as int % u64_span(),
{
    let m = u64_span();
    vstd::arithmetic::div_mod::lemma_add_mod_noop(total as int, y as int, m);
    vstd::arithmetic::div_mod::lemma_small_mod(y as nat, m as nat);
    if x + y > u64::MAX {
        vstd::arithmetic::div_mod::lemma_mod_add_multiples_vanish(x + y - m, m);
        vstd::arithmetic::div_mod::lemma_small_mod((x + y - m) as nat, m as nat);
    } else {
        vstd::arithmetic::div_mod::lemma_small_mod((x + y) as nat, m as nat);
    }
}

/// The time of the first handshake is known exactly when a handshake has
/// completed.
pub open spec fn handshake_stamped(s: TunnelState) -> bool {
    s.traffic.handshake_done <==> s.last_handshake is Some
}

/// The configuration part of a tunnel's state, which no operation changes:
/// the endpoint, addresses, DNS servers and MTU it reports, and the keys
/// and keepalive its WireGuard session was built with.
pub open spec fn same_config(a: TunnelState, b: TunnelState) -> bool {
    &&& a.peer_endpoint == b.peer_endpoint
    &&& a.addresses == b.addresses
    &&& a.dns_servers == b.dns_servers
    &&& a.mtu == b.mtu
    &&& a.private_key == b.private_key
    &&& a.peer_public_key == b.peer_public_key
    &&& a.keepalive_seconds == b.keepalive_seconds
    &&& a.preshared_key == b.preshared_key
}

/// The answers of one `process_incoming`: at least one; boringtun was asked
/// again (with an empty datagram) exactly after each answer that was bytes
/// for the network, so every answer but the last is such bytes and the
/// last is not; and only the first, to the datagram itself, can be an error.
pub open spec fn drained_answers(answers: Seq<Answer>) -> bool {
    &&& answers.len() >= 1
    &&& forall|i: int| 0 <= i < answers.len() - 1 ==> #[trigger] answers[i] is Network
    &&& !(answers.last() is Network)
    &&& forall|i: int| 1 <= i < answers.len() ==> !(#[trigger] answers[i] is Failed)
}

/// `a` is a handshake initiation for the network (148 bytes).
pub open spec fn is_initiation(a: Answer) -> bool {
    a matches Answer::Network(d) && d.len() == 148
}

/// A handshake is in progress after a call that found none in progress only
/// if boringtun answered with a handshake initiation during the call.
pub open spec fn started_only_by_initiation(before: bool, after: bool, answers: Seq<Answer>) -> bool {
    !before && after ==> exists|i: int| 0 <= i < answers.len() && #[trigger] is_initiation(answers[i])
}

/// The bytes for the network among `answers`, counted together.
pub open spec fn network_bytes(answers: Seq<Answer>) -> nat
    decreases answers.len(),
{
    if answers.len() == 0 {
        0
    } else {
        network_bytes(answers.drop_last()) + match answers.last() {
            Answer::Network(d) => d.len(),
            _ => 0nat,
        }
    }
}

/// What the packet path returns after boringtun's last answer `last`:
/// nothing for `Done`, the opened packet for a packet for the tunnel, and
/// boringtun's error text as a `WireGuard` error for an error.
pub open spec fn reply_for(last: Answer, res: Result<Option<Vec<u8>>, TunnelError>) -> bool {
    match last {
        Answer::Done => res matches Ok(None),
        Answer::Failed(text) => res matches Err(TunnelError::WireGuard(e)) && e@ == text,
        Answer::TunnelV4(p) => res matches Ok(Some(v)) && v@ == p,
        Answer::TunnelV6(p) => res matches Ok(Some(v)) && v@ == p,
        Answer::Network(_) => false,
    }
}

/// When boringtun answers a datagram with `Done` (nothing opened, nothing
/// to send, as for a keepalive), the packet path returns `Ok(None)`.
pub proof fn done_datagram_gives_nothing(answers: Seq<Answer>, res: Result<Option<Vec<u8>>, TunnelError>)
    requires
        drained_answers(answers),
        reply_for(answers.last(), res),
        answers[0] is Done,
    ensures
        res matches Ok(None),
{
}

/// The packet path fails exactly when boringtun reports an error for the
/// datagram, and then with boringtun's error text as a `WireGuard` error.
pub proof fn error_exactly_when_boringtun_fails(answers: Seq<Answer>, res: Result<Option<Vec<u8>>, TunnelError>)
    requires
        drained_answers(answers),
        reply_for(answers.last(), res),
    ensures
        (res is Err) <==> (answers[0] is Failed),
        answers[0] matches Answer::Failed(text) ==> (res matches Err(TunnelError::WireGuard(e)) && e@ == text),
{
    if answers.len() > 1 {
        assert(answers[0] is Network);
        assert(!(answers[answers.len() - 1] is Failed));
    }
}

/// What a tunnel reports of its configuration stays the same across any
/// number of operations: keeping the configuration is transitive.
pub proof fn config_kept_across_calls(a: TunnelState, b: TunnelState, c: TunnelState)
    requires
        same_config(a, b),
        same_config(b, c),
    ensures
        same_config(a, c),
{
}

impl TunnelManager {
    /// The boringtun session state of the tunnel.
    pub closed spec fn tunn(&self) -> Tunn {
        self.inner.tunn
    }

    /// The packets the tunnel holds queued until a session exists.
    pub closed spec fn queued(&self) -> Seq<Seq<u8>> {
        tunn_queued(self.inner.tunn)
    }

    /// Whether the tunnel has a current session to send data with.
    pub closed spec fn has_session(&self) -> bool {
        tunn_has_session(self.inner.tunn)
    }

    /// Whether the tunnel has a handshake in progress.
    pub closed spec fn handshake_in_progress(&self) -> bool {
        tunn_handshake_in_progress(self.inner.tunn)
    }

    /// The tunnel's buffer has its fixed size, every packet boringtun holds
    /// queued fits into it, the handshake time is known exactly when a
    /// handshake has completed, and the counters follow the totals.
    pub closed spec fn wf(&self) -> bool {
        &&& self.out_buf@.len() == OUT_BUF_LEN
        &&& queued_fit(self.inner.tunn, OUT_BUF_LEN as nat)
        &&& handshake_stamped(self@)
        &&& counters_follow_totals(self@)
    }

    /// Whether the tunnel still takes packets (it has not been stopped).
    pub fn is_running(&self) -> (res: bool)
        ensures
            res == self@.running,
    {
        self.inner.running
    }

    /// Builds a running tunnel from `config`: a WireGuard session with the
    /// config's private key, peer key and keepalive, no preshared key, and
    /// a random session index; no traffic yet, no session, no handshake in
    /// progress and nothing queued, so its first packet starts the handshake.
    /// It never fails.
    pub fn new(config: &ParsedConfig) -> (res: Result<Self, TunnelError>)
        ensures
            res matches Ok(m) && !m.has_session() && !m.handshake_in_progress()
                && m.queued() == Seq::<Seq<u8>>::empty(),
            res matches Ok(m) && m.wf() && m@ == (TunnelState {
                traffic: Traffic { handshake_done: false, tx_bytes: 0, rx_bytes: 0 },
                last_handshake: None,
                running: true,
                peer_endpoint: config.peer_endpoint@,
                addresses: config.addresses.deep_view(),
                dns_servers: config.dns_servers.deep_view(),
                mtu: config.mtu,
                private_key: config.private_key@,
                peer_public_key: config.peer_public_key@,
                keepalive_seconds: config.keepalive_seconds as nat,
                preshared_key: None,
                sent_total: 0,
                received_total: 0,
                incoming_answers: Seq::empty(),
            }),
    {
        let index = random_index();
        let tunn = new_tunn(config.private_key, config.peer_public_key, config.keepalive_seconds, index);
        let inner = Inner {
            tunn,
            traffic: Traffic { handshake_done: false, tx_bytes: 0, rx_bytes: 0 },
            last_handshake: None,
            running: true,
            peer_endpoint: config.peer_endpoint.clone(),
            addresses: config.addresses.clone(),
            dns_servers: config.dns_servers.clone(),
            mtu: config.mtu,
            sent_total: Ghost(0),
            received_total: Ghost(0),
            incoming: Ghost(Seq::empty()),
        };
        let out_buf = vec![0u8; OUT_BUF_LEN];
        proof {
            broadcast use vstd::std_specs::vec::vec_clone_deep_view_proof;
        }
        Ok(TunnelManager { inner, out_buf })
    }
}


/// Sets every byte of `buf` to zero.
fn zero_fill(buf: &mut Vec<u8>)
    ensures
        final(buf)@.len() == old(buf)@.len(),
        forall|i: int| 0 <= i < final(buf)@.len() ==> final(buf)@[i] == 0,
{
    let n = buf.len();
    let mut i: usize = 0;
    while i < n
        invariant
            i <= n,
            buf@.len() == n,
            forall|j: int| 0 <= j < i ==> buf@[j] == 0,
        decreases n - i,
    {
        buf.set(i, 0);
        i = i + 1;
    }
}

impl TunnelManager {
    /// Encrypts a packet read from the tunnel interface for the peer.
    /// A stopped tunnel refuses it. Otherwise the packet goes to boringtun:
    /// with a session, the data message it seals the packet into is
    /// returned; without one, the packet is queued (unless the queue is
    /// full) and either a 148-byte handshake initiation is returned (always
    /// when no handshake is in progress) or, with a handshake already in
    /// progress, `Ok(None)`. What is returned is
    /// counted as sent. A running tunnel never fails here.
    /// boringtun panics on a packet longer than the buffer less 32 bytes,
    /// which `requires` leaves out for a running tunnel.
    pub fn process_outgoing(&mut self, packet: &[u8]) -> (res: Result<Option<Vec<u8>>, TunnelError>)
        requires
            old(self).wf(),
            old(self)@.running ==> packet@.len() + 32 <= OUT_BUF_LEN,
        ensures
            final(self).wf(),
            same_config(final(self)@, old(self)@),
            final(self)@.running == old(self)@.running,
            final(self)@.last_handshake == old(self)@.last_handshake,
            final(self)@.received_total == old(self)@.received_total,
            final(self)@.incoming_answers == old(self)@.incoming_answers,
            !old(self)@.running ==> (res matches Err(TunnelError::TunnelClosed) && final(self)@ == old(self)@),
            old(self)@.running && !old(self).has_session() && !old(self).handshake_in_progress() ==> (
                res matches Ok(Some(v)) && v@.len() == 148 && final(self).handshake_in_progress()),
            old(self)@.running ==> match res {
                Ok(Some(v)) => {
                    &&& v@.len() == packet@.len() + 32 || v@.len() == 148
                    &&& v@.len() <= OUT_BUF_LEN
                    &&& final(self)@.traffic == (Traffic {
                        tx_bytes: old(self)@.traffic.tx_bytes.wrapping_add(v@.len() as u64),
                        ..old(self)@.traffic
                    })
                    &&& final(self)@.sent_total == old(self)@.sent_total + v@.len()
                },
                Ok(None) => {
                    &&& final(self)@.traffic == old(self)@.traffic
                    &&& final(self)@.sent_total == old(self)@.sent_total
                    &&& final(self).handshake_in_progress()
                    &&& final(self).queued() == queue_push(old(self).queued(), packet@)
                },
                Err(_) => false,
            },
            old(self)@.running && tunn_has_session(old(self).tunn()) ==> (res matches Ok(Some(v))
                && v@ == tunn_sealed(old(self).tunn(), packet@) && final(self).queued() == old(self).queued()),
            old(self)@.running && !tunn_has_session(old(self).tunn()) ==> {
                &&& final(self).queued() == queue_push(old(self).queued(), packet@)
                &&& res matches Ok(Some(v)) ==> v@.len() == 148
            },
    {
        if !self.inner.running {
            return Err(TunnelError::TunnelClosed);
        }
        let ghost start = self@;
        let ghost tunn0 = self.inner.tunn;
        zero_fill(&mut self.out_buf);
        let mut outcome = tunn_encapsulate(&mut self.inner.tunn, packet, &mut self.out_buf);
        proof {
            queued_fit_kept(tunn0, self.inner.tunn, packet@, OUT_BUF_LEN as nat);
        }
        loop
            invariant
                self.wf(),
                start == old(self)@,
                self@.traffic == start.traffic,
                self@.last_handshake == start.last_handshake,
                self@.running == start.running,
                self@.sent_total == start.sent_total,
                self@.received_total == start.received_total,
                self@.incoming_answers == start.incoming_answers,
                same_config(self@, start),
                start.running,
                packet@.len() + 32 <= OUT_BUF_LEN,
                !tunn_has_session(tunn0) && !tunn_handshake_in_progress(tunn0) ==> outcome is Network
                    && outcome.carried_len() == 148 && tunn_handshake_in_progress(self.inner.tunn),
                outcome is Done || outcome is Network,
                tunn0 == old(self).inner.tunn,
                outcome is Done ==> tunn_handshake_in_progress(self.inner.tunn)
                    && tunn_queued(self.inner.tunn) == queue_push(tunn_queued(tunn0), packet@),
                outcome is Network ==> outcome.carried_len() == packet@.len() + 32
                    || outcome.carried_len() == 148,
                tunn_has_session(tunn0) ==> outcome is Network && outcome.carried() == tunn_sealed(tunn0, packet@)
                    && tunn_queued(self.inner.tunn) == tunn_queued(tunn0),
                !tunn_has_session(tunn0) ==> tunn_queued(self.inner.tunn) == queue_push(tunn_queued(tunn0), packet@)
                    && (outcome is Network ==> outcome.carried_len() == 148),
                outcome.carried_len() <= OUT_BUF_LEN,
            decreases 0nat,
        {
            let ghost sent: nat = outcome.carried_len();
            let ghost tx0 = self.inner.traffic.tx_bytes;
            match after_encapsulate(&mut self.inner.traffic, packet.len(), outcome) {
                Next::Finish(r) => {
                    proof {
                        lemma_wrapping_follows(self.inner.sent_total@, tx0, sent as u64);
                    }
                    self.inner.sent_total = Ghost(self.inner.sent_total@ + sent);
                    return r;
                },
                Next::Again => {
                    let empty: [u8; 0] = [];
                    outcome = tunn_encapsulate(&mut self.inner.tunn, &empty, &mut self.out_buf);
                },
            }
        }
    }

    /// Decrypts a WireGuard datagram from the network for the tunnel
    /// interface. A stopped tunnel refuses it. Otherwise the datagram goes
    /// to boringtun; whatever it then wants sent to the network is drained
    /// by asking again with empty datagrams (counted as sent, not sent);
    /// the packet boringtun opens the datagram to (`tunn_opened`; at least
    /// 32 bytes shorter than the datagram), if it opens one, is returned, counted as received, and marks the handshake
    /// as done (stamping its time the first time); `Ok(None)` means there
    /// is nothing for the tunnel; an error of boringtun (always for a
    /// datagram of one to three bytes) is returned as `WireGuard`. Which of
    /// these it is follows boringtun's answers (`incoming_answers` after the
    /// call): `Ok(None)` when the last is `Done` (as when the datagram itself
    /// is answered `Done`, a keepalive), the error exactly when boringtun
    /// reports one for the datagram; the drained bytes are those counted as
    /// sent, and no packet is queued by the call.
    /// boringtun panics on a data packet that does not fit its buffer,
    /// which `requires` leaves out for a running tunnel.
    pub fn process_incoming(&mut self, packet: &[u8]) -> (res: Result<Option<Vec<u8>>, TunnelError>)
        requires
            old(self).wf(),
            old(self)@.running ==> packet@.len() <= OUT_BUF_LEN + 16,
        ensures
            final(self).wf(),
            same_config(final(self)@, old(self)@),
            final(self)@.running == old(self)@.running,
            final(self)@.sent_total >= old(self)@.sent_total,
            old(self)@.traffic.handshake_done ==> final(self)@.traffic.handshake_done
                && final(self)@.last_handshake == old(self)@.last_handshake,
            !old(self)@.running ==> (res matches Err(TunnelError::TunnelClosed) && final(self)@ == old(self)@),
            old(self)@.running ==> ((res matches Ok(Some(_))) <==> tunn_opened(old(self).tunn(), packet@) is Some),
            old(self)@.running ==> (res matches Ok(Some(v)) ==> tunn_opened(old(self).tunn(), packet@) == Some(v@)),
            old(self)@.running ==> {
                &&& drained_answers(final(self)@.incoming_answers)
                &&& reply_for(final(self)@.incoming_answers.last(), res)
                &&& final(self)@.incoming_answers[0] is Done ==> (res matches Ok(None))
                &&& (res is Err) <==> (final(self)@.incoming_answers[0] is Failed)
                &&& final(self)@.sent_total == old(self)@.sent_total
                    + network_bytes(final(self)@.incoming_answers.drop_last())
                &&& final(self).queued().len() <= old(self).queued().len()
                &&& forall|p: Seq<u8>| #[trigger] final(self).queued().contains(p) ==> old(self).queued().contains(p)
                &&& started_only_by_initiation(old(self).handshake_in_progress(),
                    final(self).handshake_in_progress(), final(self)@.incoming_answers)
            },
            old(self)@.running && 0 < packet@.len() < 4 ==> (res matches Err(TunnelError::WireGuard(_))
                && final(self)@.traffic == old(self)@.traffic && final(self)@.sent_total == old(self)@.sent_total),
            old(self)@.running ==> match res {
                Ok(Some(v)) => {
                    &&& v@.len() + 32 <= packet@.len()
                    &&& final(self)@.traffic.rx_bytes == old(self)@.traffic.rx_bytes.wrapping_add(v@.len() as u64)
                    &&& final(self)@.received_total == old(self)@.received_total + v@.len()
                    &&& final(self)@.traffic.handshake_done
                    &&& old(self)@.traffic.handshake_done ==> final(self)@.last_handshake == old(self)@.last_handshake
                    &&& !old(self)@.traffic.handshake_done ==> final(self)@.last_handshake is Some
                },
                Ok(None) => {
                    &&& final(self)@.traffic.rx_bytes == old(self)@.traffic.rx_bytes
                    &&& final(self)@.received_total == old(self)@.received_total
                    &&& final(self)@.traffic.handshake_done == old(self)@.traffic.handshake_done
                    &&& final(self)@.last_handshake == old(self)@.last_handshake
                },
                Err(e) => {
                    &&& e is WireGuard
                    &&& final(self)@.traffic.rx_bytes == old(self)@.traffic.rx_bytes
                    &&& final(self)@.received_total == old(self)@.received_total
                    &&& final(self)@.traffic.handshake_done == old(self)@.traffic.handshake_done
                    &&& final(self)@.last_handshake == old(self)@.last_handshake
                },
            },
    {
        if !self.inner.running {
            return Err(TunnelError::TunnelClosed);
        }
        let ghost start = self@;
        let ghost tunn0 = self.inner.tunn;
        zero_fill(&mut self.out_buf);
        let mut outcome = tunn_decapsulate(&mut self.inner.tunn, packet, &mut self.out_buf);
        self.inner.incoming = Ghost(Seq::empty().push(outcome.answer()));
        proof {
            queued_fit_kept(tunn0, self.inner.tunn, Seq::empty(), OUT_BUF_LEN as nat);
            if !tunn_handshake_in_progress(tunn0) && tunn_handshake_in_progress(self.inner.tunn) {
                assert(is_initiation(self.inner.incoming@[0]));
            }
        }
        loop
            invariant
                self.wf(),
                start == old(self)@,
                same_config(self@, start),
                self@.running == start.running,
                start.running,
                self@.last_handshake == start.last_handshake,
                self@.traffic.rx_bytes == start.traffic.rx_bytes,
                self@.received_total == start.received_total,
                self@.sent_total >= start.sent_total,
                self@.traffic.handshake_done == start.traffic.handshake_done,
                outcome.carried_len() <= OUT_BUF_LEN,
                0 < packet@.len() < 4 ==> outcome is Failed && self@.traffic == start.traffic
                    && self@.sent_total == start.sent_total,
                (outcome is TunnelV4 || outcome is TunnelV6) ==> outcome.carried_len() + 32 <= packet@.len(),
                tunn0 == old(self).inner.tunn,
                (outcome is TunnelV4 || outcome is TunnelV6) ==> tunn_opened(tunn0, packet@) == Some(outcome.carried()),
                tunn_opened(tunn0, packet@) is Some ==> (outcome is TunnelV4 || outcome is TunnelV6),
                self.inner.incoming@.len() >= 1,
                self.inner.incoming@.last() == outcome.answer(),
                forall|i: int| 0 <= i < self.inner.incoming@.len() - 1 ==> #[trigger] self.inner.incoming@[i] is Network,
                forall|i: int| 1 <= i < self.inner.incoming@.len() ==> !(#[trigger] self.inner.incoming@[i] is Failed),
                self.inner.sent_total@ == start.sent_total + network_bytes(self.inner.incoming@.drop_last()),
                tunn_queued(self.inner.tunn).len() <= tunn_queued(tunn0).len(),
                forall|p: Seq<u8>| #[trigger] tunn_queued(self.inner.tunn).contains(p) ==> tunn_queued(tunn0).contains(p),
                started_only_by_initiation(tunn_handshake_in_progress(tunn0),
                    tunn_handshake_in_progress(self.inner.tunn), self.inner.incoming@),
            decreases (if outcome is Network { drain_measure(self.inner.tunn) + 1 } else { 0 }),
        {
            let was_done = self.inner.traffic.handshake_done;
            let ghost moved: nat = outcome.carried_len();
            let ghost tx0 = self.inner.traffic.tx_bytes;
            let ghost rx0 = self.inner.traffic.rx_bytes;
            let ghost answers = self.inner.incoming@;
            match after_decapsulate(&mut self.inner.traffic, outcome) {
                Next::Finish(r) => {
                    proof {
                        lemma_wrapping_follows(self.inner.received_total@, rx0, moved as u64);
                        error_exactly_when_boringtun_fails(answers, r);
                        if answers[0] is Done {
                            done_datagram_gives_nothing(answers, r);
                        }
                    }
                    if let Ok(Some(_)) = &r {
                        self.inner.received_total = Ghost(self.inner.received_total@ + moved);
                    }
                    if !was_done && self.inner.traffic.handshake_done {
                        self.inner.last_handshake = Some(now());
                    }
                    return r;
                },
                Next::Again => {
                    proof {
                        lemma_wrapping_follows(self.inner.sent_total@, tx0, moved as u64);
                    }
                    self.inner.sent_total = Ghost(self.inner.sent_total@ + moved);
                    let empty: [u8; 0] = [];
                    let ghost tunn1 = self.inner.tunn;
                    outcome = tunn_decapsulate(&mut self.inner.tunn, &empty, &mut self.out_buf);
                    self.inner.incoming = Ghost(answers.push(outcome.answer()));
                    proof {
                        queued_fit_kept(tunn1, self.inner.tunn, Seq::empty(), OUT_BUF_LEN as nat);
                        assert(self.inner.incoming@.drop_last() =~= answers);
                        let now_log = self.inner.incoming@;
                        if !tunn_handshake_in_progress(tunn0) && tunn_handshake_in_progress(self.inner.tunn) {
                            if tunn_handshake_in_progress(tunn1) {
                                let i = choose|i: int| 0 <= i < answers.len() && #[trigger] is_initiation(answers[i]);
                                assert(now_log[i] == answers[i]);
                                assert(is_initiation(now_log[i]));
                            } else {
                                assert(is_initiation(now_log[now_log.len() - 1]));
                            }
                        }
                    }
                },
            }
        }
    }

    /// The tunnel's counters, the time since its first handshake, and its
    /// peer's endpoint. It never fails.
    pub fn stats(&self) -> (res: Result<TunnelStats, TunnelError>)
        requires
            self.wf(),
        ensures
            res matches Ok(s) && {
                &&& s.handshake_completed == self@.traffic.handshake_done
                &&& s.tx_bytes == self@.traffic.tx_bytes
                &&& s.rx_bytes == self@.traffic.rx_bytes
                &&& (s.last_handshake is Some <==> self@.last_handshake is Some)
                &&& (s.last_handshake is Some <==> s.handshake_completed)
                &&& s.peer_endpoint@ == self@.peer_endpoint
            },
    {
        let last_handshake = match &self.inner.last_handshake {
            Some(t) => Some(elapsed_since(t).as_secs()),
            None => None,
        };
        Ok(TunnelStats {
            handshake_completed: self.inner.traffic.handshake_done,
            tx_bytes: self.inner.traffic.tx_bytes,
            rx_bytes: self.inner.traffic.rx_bytes,
            last_handshake,
            peer_endpoint: self.inner.peer_endpoint.clone(),
        })
    }

    /// The addresses, DNS servers and MTU the tunnel was configured with.
    pub fn config_info(&self) -> (res: (Vec<String>, Vec<String>, u32))
        ensures
            res.0.deep_view() == self@.addresses,
            res.1.deep_view() == self@.dns_servers,
            res.2 == self@.mtu,
    {
        proof {
            broadcast use vstd::std_specs::vec::vec_clone_deep_view_proof;
        }
        (self.inner.addresses.clone(), self.inner.dns_servers.clone(), self.inner.mtu)
    }

    /// Marks the tunnel as stopped; nothing else changes.
    pub fn stop(&mut self)
        requires
            old(self).wf(),
        ensures
            final(self).wf(),
            final(self)@ == (TunnelState { running: false, ..old(self)@ }),
    {
        self.inner.running = false;
    }
}

} // verus!
