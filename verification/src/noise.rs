//! The boundary to boringtun's WireGuard state machine (`noise::Tunn`).
//!
//! A `Tunn` is opaque here. The facts about its state that the packet path
//! depends on are named: its keys and keepalive, the packets it holds
//! queued until a session exists, whether it has a session to send with,
//! whether a handshake it started is in progress, and what it seals a
//! packet into or opens a datagram to (both functions of its state and the
//! bytes alone). What rests on time or randomness (handshake messages,
//! timers) stays unstated; the wrappers promise what holds of every outcome.

use vstd::prelude::*;

use boringtun::noise::{Tunn, TunnResult};

verus! {

#[verifier::external_type_specification]
#[verifier::external_body]
pub struct ExTunn(Tunn);

/// The packets that `t` holds queued, oldest first, waiting for a session.
pub uninterp spec fn tunn_queued(t: Tunn) -> Seq<Seq<u8>>;

/// Whether `t` has a handshake in progress (its handshake state is neither
/// "none" nor "expired").
pub uninterp spec fn tunn_handshake_in_progress(t: Tunn) -> bool;

/// The bytes of `t`'s own static private key.
pub uninterp spec fn tunn_static_private(t: Tunn) -> Seq<u8>;

/// The bytes of the peer's static public key that `t` talks to.
pub uninterp spec fn tunn_peer_public(t: Tunn) -> Seq<u8>;

/// The persistent keepalive interval of `t` in seconds (0: none).
pub uninterp spec fn tunn_keepalive_seconds(t: Tunn) -> nat;

/// The preshared key that `t` mixes into its handshakes, if any.
pub uninterp spec fn tunn_preshared_key(t: Tunn) -> Option<Seq<u8>>;

/// Whether `t` has a current session to send data with.
pub uninterp spec fn tunn_has_session(t: Tunn) -> bool;

/// The data message that `t`, having a current session, seals `packet`
/// into (header, ciphertext and tag under the session's key and counter).
pub uninterp spec fn tunn_sealed(t: Tunn, packet: Seq<u8>) -> Seq<u8>;

/// The IP packet that `t` opens `datagram` to, if it opens one: only a data
/// message of one of its sessions that authenticates and holds a valid IP
/// packet does; handshake messages, keepalives and all else do not.
pub uninterp spec fn tunn_opened(t: Tunn, datagram: Seq<u8>) -> Option<Seq<u8>>;

/// `a` and `b` are the same peer-to-peer link: same keys, same keepalive.
pub open spec fn same_link(a: Tunn, b: Tunn) -> bool {
    &&& tunn_static_private(a) == tunn_static_private(b)
    &&& tunn_peer_public(a) == tunn_peer_public(b)
    &&& tunn_keepalive_seconds(a) == tunn_keepalive_seconds(b)
    &&& tunn_preshared_key(a) == tunn_preshared_key(b)
}

/// Every packet queued in `t` can be encapsulated into a buffer of `limit`
/// bytes (a data packet takes 32 bytes more than its payload).
pub open spec fn queued_fit(t: Tunn, limit: nat) -> bool {
    forall|i: int| 0 <= i < tunn_queued(t).len() ==> #[trigger] tunn_queued(t)[i].len() + 32 <= limit
}

/// The queue after `t` takes `packet` for later: appended, unless the
/// queue already holds its maximum of 256 packets (then it is dropped).
pub open spec fn queue_push(queue: Seq<Seq<u8>>, packet: Seq<u8>) -> Seq<Seq<u8>> {
    if queue.len() < 256 { queue.push(packet) } else { queue }
}

/// A bound on the number of further packets that repeated empty
/// `decapsulate` calls can still write to the network: each such packet
/// either takes one queued packet or starts a handshake.
pub open spec fn drain_measure(t: Tunn) -> nat {
    2 * tunn_queued(t).len() + if tunn_handshake_in_progress(t) { 0nat } else { 1nat }
}

/// What one call of `Tunn::encapsulate` or `Tunn::decapsulate` answered,
/// with the bytes it wrote taken out of the buffer.
pub enum TunnOutcome {
    /// Nothing to do.
    Done,
    /// The call failed; the text is the `Debug` form of boringtun's error.
    Failed(String),
    /// These bytes are to be sent to the peer.
    Network(Vec<u8>),
    /// These bytes are an IPv4 packet for the tunnel interface.
    TunnelV4(Vec<u8>),
    /// These bytes are an IPv6 packet for the tunnel interface.
    TunnelV6(Vec<u8>),
}

/// What boringtun answered to one call, as plain values.
pub enum Answer {
    Done,
    Failed(Seq<char>),
    Network(Seq<u8>),
    TunnelV4(Seq<u8>),
    TunnelV6(Seq<u8>),
}

impl TunnOutcome {
    /// The answer this outcome stands for.
    pub open spec fn answer(&self) -> Answer {
        match self {
            TunnOutcome::Done => Answer::Done,
            TunnOutcome::Failed(s) => Answer::Failed(s@),
            TunnOutcome::Network(d) => Answer::Network(d@),
            TunnOutcome::TunnelV4(d) => Answer::TunnelV4(d@),
            TunnOutcome::TunnelV6(d) => Answer::TunnelV6(d@),
        }
    }

    /// The bytes the outcome carries (none for `Done` and `Failed`).
    pub open spec fn carried(&self) -> Seq<u8> {
        match self {
            TunnOutcome::Network(d) => d@,
            TunnOutcome::TunnelV4(d) => d@,
            TunnOutcome::TunnelV6(d) => d@,
            _ => Seq::empty(),
        }
    }

    /// The number of bytes the outcome carries, if it carries a packet.
    pub open spec fn carried_len(&self) -> nat {
        match self {
            TunnOutcome::Network(d) => d@.len(),
            TunnOutcome::TunnelV4(d) => d@.len(),
            TunnOutcome::TunnelV6(d) => d@.len(),
            _ => 0,
        }
    }
}

/// `Tunn::new(StaticSecret::from(private_key), PublicKey::from(peer_public_key),
/// None, Some(keepalive_seconds), index, None)`. Claimed (from its source):
/// the new tunnel holds the given keys and keepalive and no preshared key,
/// has no session, an empty queue and no handshake in progress.
#[verifier::external_body]
pub(crate) fn new_tunn(private_key: [u8; 32], peer_public_key: [u8; 32], keepalive_seconds: u16, index: u32) -> (t: Tunn)
    ensures
        tunn_static_private(t) == private_key@,
        tunn_peer_public(t) == peer_public_key@,
        tunn_keepalive_seconds(t) == keepalive_seconds as nat,
        tunn_preshared_key(t) is None,
        !tunn_has_session(t),
        tunn_queued(t) == Seq::<Seq<u8>>::empty(),
        !tunn_handshake_in_progress(t),
{
    let secret = boringtun::x25519::StaticSecret::from(private_key);
    let peer = boringtun::x25519::PublicKey::from(peer_public_key);
    Tunn::new(secret, peer, None, Some(keepalive_seconds), index, None)
}

/// `Tunn::encapsulate(src, dst)`, which panics when `dst` is shorter than
/// `src` plus 32 bytes. Claimed (from its source): it answers `Done`, an
/// error or bytes for the network, never a packet for the tunnel, and no
/// error when `dst` holds a handshake initiation (148 bytes); the bytes fit
/// in `dst`; bytes for the network are a data message (`src` plus 32
/// bytes) or a handshake initiation (148 bytes); the buffer keeps its
/// length; keys and keepalive stay; with a current session it seals `src`
/// (`tunn_sealed`) and queues nothing; without one it queues `src`
/// (`queue_push`) and answers a handshake initiation (starting the
/// handshake), or `Done` when a handshake is already in progress.
#[verifier::external_body]
pub(crate) fn tunn_encapsulate(t: &mut Tunn, src: &[u8], dst: &mut Vec<u8>) -> (res: TunnOutcome)
    requires
        src@.len() + 32 <= old(dst)@.len(),
    ensures
        final(dst)@.len() == old(dst)@.len(),
        res is Done || res is Failed || res is Network,
        old(dst)@.len() >= 148 ==> !(res is Failed),
        res is Network ==> res.carried_len() == src@.len() + 32 || res.carried_len() == 148,
        same_link(*old(t), *final(t)),
        res is Done ==> tunn_handshake_in_progress(*final(t))
            && tunn_queued(*final(t)) == queue_push(tunn_queued(*old(t)), src@),
        !tunn_has_session(*old(t)) && !tunn_handshake_in_progress(*old(t)) && old(dst)@.len() >= 148
            ==> res is Network && res.carried_len() == 148 && tunn_handshake_in_progress(*final(t)),
        tunn_has_session(*old(t)) ==> res is Network && res.carried() == tunn_sealed(*old(t), src@)
            && tunn_queued(*final(t)) == tunn_queued(*old(t)),
        !tunn_has_session(*old(t)) ==> tunn_queued(*final(t)) == queue_push(tunn_queued(*old(t)), src@)
            && (res is Network ==> res.carried_len() == 148),
        res.carried_len() <= old(dst)@.len(),
        forall|p: Seq<u8>| #[trigger] tunn_queued(*final(t)).contains(p)
            ==> tunn_queued(*old(t)).contains(p) || p == src@,
{
    match t.encapsulate(src, dst.as_mut_slice()) {
        TunnResult::Done => TunnOutcome::Done,
        TunnResult::Err(e) => TunnOutcome::Failed(format!("{e:?}")),
        TunnResult::WriteToNetwork(d) => TunnOutcome::Network(d.to_vec()),
        TunnResult::WriteToTunnelV4(d, _) => TunnOutcome::TunnelV4(d.to_vec()),
        TunnResult::WriteToTunnelV6(d, _) => TunnOutcome::TunnelV6(d.to_vec()),
    }
}

/// `Tunn::decapsulate(None, datagram, dst)`. It panics on a data packet
/// that does not fit `dst`, and (for an empty datagram, which sends the
/// oldest queued packet) on a queued packet that does not. Claimed (from
/// its source): the bytes fit in `dst`; the buffer keeps its length; keys
/// and keepalive stay; a datagram of one to three bytes is refused; it
/// answers a packet for the tunnel exactly when it opens the datagram
/// (`tunn_opened`), and that packet is at least 32 bytes (header and tag)
/// shorter than the datagram; it queues nothing new and never lengthens the
/// queue, and a non-empty datagram leaves the queue as it was; it starts a
/// handshake only by answering an empty datagram with its initiation (a
/// received initiation is answered at once and leaves none in progress);
/// and for an empty
/// datagram it answers `Done` or bytes for the network, the latter only by sending a
/// queued packet (the queue shrinks by one) or by starting a handshake
/// (the queue keeps its length and a handshake is now in progress).
#[verifier::external_body]
pub(crate) fn tunn_decapsulate(t: &mut Tunn, datagram: &[u8], dst: &mut Vec<u8>) -> (res: TunnOutcome)
    requires
        old(dst)@.len() >= 148,
        datagram@.len() <= old(dst)@.len() + 16,
        queued_fit(*old(t), old(dst)@.len() as nat),
    ensures
        final(dst)@.len() == old(dst)@.len(),
        res.carried_len() <= old(dst)@.len(),
        forall|p: Seq<u8>| #[trigger] tunn_queued(*final(t)).contains(p) ==> tunn_queued(*old(t)).contains(p),
        tunn_queued(*final(t)).len() <= tunn_queued(*old(t)).len(),
        datagram@.len() > 0 ==> tunn_queued(*final(t)) == tunn_queued(*old(t)),
        !tunn_handshake_in_progress(*old(t)) && tunn_handshake_in_progress(*final(t))
            ==> datagram@.len() == 0 && res is Network && res.carried_len() == 148,
        same_link(*old(t), *final(t)),
        0 < datagram@.len() < 4 ==> res is Failed,
        (res is TunnelV4 || res is TunnelV6) ==> res.carried_len() + 32 <= datagram@.len(),
        (res is TunnelV4 || res is TunnelV6) <==> tunn_opened(*old(t), datagram@) is Some,
        (res is TunnelV4 || res is TunnelV6) ==> tunn_opened(*old(t), datagram@) == Some(res.carried()),
        datagram@.len() == 0 ==> (res is Done || res is Network),
        datagram@.len() == 0 && res is Network ==> {
            ||| tunn_queued(*final(t)).len() + 1 == tunn_queued(*old(t)).len()
                && tunn_handshake_in_progress(*final(t)) == tunn_handshake_in_progress(*old(t))
            ||| tunn_queued(*final(t)).len() == tunn_queued(*old(t)).len()
                && !tunn_handshake_in_progress(*old(t)) && tunn_handshake_in_progress(*final(t))
        },
{
    match t.decapsulate(None, datagram, dst.as_mut_slice()) {
        TunnResult::Done => TunnOutcome::Done,
        TunnResult::Err(e) => TunnOutcome::Failed(format!("{e:?}")),
        TunnResult::WriteToNetwork(d) => TunnOutcome::Network(d.to_vec()),
        TunnResult::WriteToTunnelV4(d, _) => TunnOutcome::TunnelV4(d.to_vec()),
        TunnResult::WriteToTunnelV6(d, _) => TunnOutcome::TunnelV6(d.to_vec()),
    }
}

/// A queue whose packets all fit `limit` still fits after an operation
/// that only kept packets of it or added one that fits.
pub(crate) proof fn queued_fit_kept(before: Tunn, after: Tunn, added: Seq<u8>, limit: nat)
    requires
        queued_fit(before, limit),
        added.len() + 32 <= limit,
        forall|p: Seq<u8>| #[trigger] tunn_queued(after).contains(p)
            ==> tunn_queued(before).contains(p) || p == added,
    ensures
        queued_fit(after, limit),
{
    assert forall|i: int| 0 <= i < tunn_queued(after).len() implies #[trigger] tunn_queued(after)[i].len() + 32 <= limit by {
        let p = tunn_queued(after)[i];
        assert(tunn_queued(after).contains(p));
        if tunn_queued(before).contains(p) {
            let j = choose|j: int| 0 <= j < tunn_queued(before).len() && tunn_queued(before)[j] == p;
            assert(tunn_queued(before)[j].len() + 32 <= limit);
        }
    }
}

} // verus!
