//! The decisions of the background loop that moves packets between the
//! tunnel interface and the UDP socket; the polling, reading and writing
//! themselves are done by the caller.

use vstd::prelude::*;

use crate::noise::{queue_push, tunn_has_session, tunn_opened, tunn_sealed, Answer};
use crate::wireguard::{drained_answers, network_bytes, started_only_by_initiation, Traffic, TunnelManager};

verus! {

/// The size of the buffers the loop reads packets into.
pub const LOOP_BUF_LEN: usize = 2048;

/// The first `n` bytes of `buf` were read from the tunnel interface: if
/// there are any and the tunnel runs, they are encrypted, and what is to be
/// written to the socket (the sealed packet, with a session) is returned;
/// when nothing is to be written, the packet waits in the tunnel's queue for
/// the handshake in progress. With neither a session nor a handshake in
/// progress, the handshake initiation is returned to be written.
pub fn forward_outgoing(tunnel: &mut TunnelManager, buf: &[u8], n: usize) -> (res: Option<Vec<u8>>)
    requires
        old(tunnel).wf(),
        n <= buf@.len(),
        n <= LOOP_BUF_LEN,
    ensures
        final(tunnel).wf(),
        n == 0 ==> res is None && final(tunnel)@ == old(tunnel)@,
        final(tunnel)@.running == old(tunnel)@.running,
        final(tunnel)@.last_handshake == old(tunnel)@.last_handshake,
        final(tunnel)@.received_total == old(tunnel)@.received_total,
        final(tunnel)@.incoming_answers == old(tunnel)@.incoming_answers,
        n > 0 && old(tunnel)@.running && !old(tunnel).has_session() && !old(tunnel).handshake_in_progress()
            ==> (res matches Some(v) && v@.len() == 148 && final(tunnel).handshake_in_progress()),
        match res {
            Some(v) => {
                &&& old(tunnel)@.running
                &&& v@.len() == n + 32 || v@.len() == 148
                &&& final(tunnel)@.traffic == (Traffic {
                    tx_bytes: old(tunnel)@.traffic.tx_bytes.wrapping_add(v@.len() as u64),
                    ..old(tunnel)@.traffic
                })
                &&& final(tunnel)@.sent_total == old(tunnel)@.sent_total + v@.len()
            },
            None => {
                &&& final(tunnel)@.traffic == old(tunnel)@.traffic
                &&& final(tunnel)@.sent_total == old(tunnel)@.sent_total
            },
        },
        n > 0 && !old(tunnel)@.running ==> res is None && final(tunnel)@ == old(tunnel)@,
        n > 0 && old(tunnel)@.running && tunn_has_session(old(tunnel).tunn()) ==> (res matches Some(v)
            && v@ == tunn_sealed(old(tunnel).tunn(), buf@.subrange(0, n as int))),
        n > 0 && old(tunnel)@.running && res is None ==> {
            &&& final(tunnel).handshake_in_progress()
            &&& final(tunnel).queued() == queue_push(old(tunnel).queued(), buf@.subrange(0, n as int))
        },
{
    if n == 0 {
        return None;
    }
    let packet = vstd::slice::slice_subrange(buf, 0, n);
    match tunnel.process_outgoing(packet) {
        Ok(Some(encrypted)) => Some(encrypted),
        _ => None,
    }
}

/// The first `n` bytes of `buf` were read from the socket: if there are
/// any and the tunnel runs, they are decrypted, and the packet they open to,
/// if any, is returned to be written to the tunnel interface. Only that
/// decryption touches the tunnel: what boringtun answered is recorded as by
/// `process_incoming`, only the drained bytes are counted as sent, no
/// packet is queued, and a handshake is started only by an initiation
/// among them.
pub fn forward_incoming(tunnel: &mut TunnelManager, buf: &[u8], n: usize) -> (res: Option<Vec<u8>>)
    requires
        old(tunnel).wf(),
        n <= buf@.len(),
        n <= LOOP_BUF_LEN,
    ensures
        final(tunnel).wf(),
        n == 0 ==> res is None && final(tunnel)@ == old(tunnel)@,
        final(tunnel)@.running == old(tunnel)@.running,
        final(tunnel)@.sent_total >= old(tunnel)@.sent_total,
        match res {
            Some(v) => {
                &&& old(tunnel)@.running
                &&& v@.len() + 32 <= n
                &&& final(tunnel)@.traffic.handshake_done
                &&& final(tunnel)@.traffic.rx_bytes == old(tunnel)@.traffic.rx_bytes.wrapping_add(v@.len() as u64)
                &&& final(tunnel)@.received_total == old(tunnel)@.received_total + v@.len()
            },
            None => {
                &&& final(tunnel)@.traffic.rx_bytes == old(tunnel)@.traffic.rx_bytes
                &&& final(tunnel)@.received_total == old(tunnel)@.received_total
                &&& final(tunnel)@.traffic.handshake_done == old(tunnel)@.traffic.handshake_done
            },
        },
        n > 0 && old(tunnel)@.running ==> ((res is Some)
            <==> tunn_opened(old(tunnel).tunn(), buf@.subrange(0, n as int)) is Some),
        n > 0 && old(tunnel)@.running ==> (res matches Some(v)
            ==> tunn_opened(old(tunnel).tunn(), buf@.subrange(0, n as int)) == Some(v@)),
        n > 0 && old(tunnel)@.running ==> {
            &&& drained_answers(final(tunnel)@.incoming_answers)
            &&& match final(tunnel)@.incoming_answers.last() {
                Answer::TunnelV4(p) => res matches Some(v) && v@ == p,
                Answer::TunnelV6(p) => res matches Some(v) && v@ == p,
                _ => res is None,
            }
            &&& final(tunnel)@.incoming_answers[0] is Done ==> res is None
            &&& final(tunnel)@.sent_total == old(tunnel)@.sent_total
                + network_bytes(final(tunnel)@.incoming_answers.drop_last())
            &&& final(tunnel).queued().len() <= old(tunnel).queued().len()
            &&& forall|p: Seq<u8>| #[trigger] final(tunnel).queued().contains(p) ==> old(tunnel).queued().contains(p)
            &&& started_only_by_initiation(old(tunnel).handshake_in_progress(),
                final(tunnel).handshake_in_progress(), final(tunnel)@.incoming_answers)
        },
        n > 0 && n < 4 ==> res is None && final(tunnel)@.traffic == old(tunnel)@.traffic
            && final(tunnel)@.sent_total == old(tunnel)@.sent_total,
        n > 0 && !old(tunnel)@.running ==> res is None && final(tunnel)@ == old(tunnel)@,
{
    if n == 0 {
        return None;
    }
    let packet = vstd::slice::slice_subrange(buf, 0, n);
    match tunnel.process_incoming(packet) {
        Ok(Some(decrypted)) => Some(decrypted),
        _ => None,
    }
}

} // verus!
