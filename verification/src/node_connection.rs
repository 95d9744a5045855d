//! One peer connection: the handshake phase machine and, once the
//! handshake completes, the encrypted transport session with its
//! per-direction keys and strictly increasing nonce counters.
//!
//! The cryptographic primitives themselves (key agreement, the AEAD
//! cipher) are services of the surrounding application; this module
//! owns the state that must be kept exactly right around them: which
//! phase the connection is in, which nonce each direction uses next,
//! and the byte layout of a transport frame.

use vstd::prelude::*;
use vstd::slice::slice_to_vec;
use crate::config::PING_INTERVAL_MS;
use crate::messages::Message;
use crate::messages::spec_encode_fields;
use crate::wire::SerializationError;
use crate::wire::spec_be16;
use crate::wire::spec_u16_to_bytes;
use crate::wire::read_be16;
use crate::wire::write_be16;

verus! {

/// Failure of a peer connection: creating it, driving the three-act
/// handshake, or using the established transport.
#[derive(Debug, Clone, Copy, PartialEq, Eq, Structural)]
pub enum NodeConnectionError {
    /// The underlying byte stream could not be opened.
    ConnectFailed,
    /// An act of the key exchange was malformed or its authentication
    /// failed.
    HandshakeFailed,
    /// Decryption or authentication of a received frame failed.
    DecryptionFailed,
    /// The underlying byte stream failed while sending or receiving.
    IoFailed,
}

/// The lifecycle phase of a peer connection.
#[derive(Debug, Clone, Copy, PartialEq, Eq, Structural)]
pub enum ConnectionPhase {
    /// Created, no handshake started.
    Unauthenticated,
    /// The three-act key exchange is in flight.
    Handshaking,
    /// The handshake completed: the connection carries encrypted
    /// frames.
    Transport,
    /// Closed by failure or on purpose; never usable again.
    Closed,
}

/// The encrypted transport session: one symmetric key and one strictly
/// increasing nonce counter per direction.  The ghost nonce logs
/// record every nonce handed out, so that their strict monotonicity is
/// a provable invariant of the state.
pub struct TransportState {
    pub write_key: Vec<u8>,
    pub read_key: Vec<u8>,
    pub write_nonce: u64,
    pub read_nonce: u64,
    pub sent_nonces: Ghost<Seq<u64>>,
    pub received_nonces: Ghost<Seq<u64>>,
}

impl TransportState {
    /// The transport invariant: 32-byte keys, and each direction's
    /// nonce log holds exactly the nonces 0, 1, ... up to the counter,
    /// in order.
    pub open spec fn wf(&self) -> bool {
        &&& self.write_key@.len() == 32
        &&& self.read_key@.len() == 32
        &&& self.sent_nonces@.len() == self.write_nonce
        &&& (forall|i: int| 0 <= i < self.sent_nonces@.len() ==> self.sent_nonces@[i] == i)
        &&& self.received_nonces@.len() == self.read_nonce
        &&& (forall|i: int| 0 <= i < self.received_nonces@.len() ==> self.received_nonces@[i] == i)
    }

    /// A fresh session under the two directional keys the handshake
    /// derived, both nonce counters reset to zero.
    pub fn new(write_key: Vec<u8>, read_key: Vec<u8>) -> (r: Self)
        requires
            write_key@.len() == 32,
            read_key@.len() == 32,
        ensures
            r.wf(),
            r.write_key@ == write_key@,
            r.read_key@ == read_key@,
            r.write_nonce == 0,
            r.read_nonce == 0,
            r.sent_nonces@ == Seq::<u64>::empty(),
            r.received_nonces@ == Seq::<u64>::empty(),
    {
        TransportState {
            write_key,
            read_key,
            write_nonce: 0,
            read_nonce: 0,
            sent_nonces: Ghost(Seq::empty()),
            received_nonces: Ghost(Seq::empty()),
        }
    }

    /// Hands out the nonce for the next outbound frame and advances
    /// the counter; the nonce is recorded in the log and never handed
    /// out again.
    pub fn next_write_nonce(&mut self) -> (n: u64)
        requires
            old(self).wf(),
            old(self).write_nonce < u64::MAX,
        ensures
            final(self).wf(),
            n == old(self).write_nonce,
            final(self).write_nonce == old(self).write_nonce + 1,
            final(self).sent_nonces@ == old(self).sent_nonces@.push(n),
            final(self).read_nonce == old(self).read_nonce,
            final(self).received_nonces@ == old(self).received_nonces@,
            final(self).write_key@ == old(self).write_key@,
            final(self).read_key@ == old(self).read_key@,
    {
        let n = self.write_nonce;
        self.write_nonce = self.write_nonce + 1;
        proof {
            self.sent_nonces@ = self.sent_nonces@.push(n);
        }
        n
    }

    /// Hands out the nonce for the next inbound frame and advances the
    /// counter; the nonce is recorded in the log and never handed out
    /// again.
    pub fn next_read_nonce(&mut self) -> (n: u64)
        requires
            old(self).wf(),
            old(self).read_nonce < u64::MAX,
        ensures
            final(self).wf(),
            n == old(self).read_nonce,
            final(self).read_nonce == old(self).read_nonce + 1,
            final(self).received_nonces@ == old(self).received_nonces@.push(n),
            final(self).write_nonce == old(self).write_nonce,
            final(self).sent_nonces@ == old(self).sent_nonces@,
            final(self).write_key@ == old(self).write_key@,
            final(self).read_key@ == old(self).read_key@,
    {
        let n = self.read_nonce;
        self.read_nonce = self.read_nonce + 1;
        proof {
            self.received_nonces@ = self.received_nonces@.push(n);
        }
        n
    }
}

/// Nonce monotonicity: across consecutive sends on one transport
/// session, the sequence of nonces used is strictly increasing, with
/// no repeats.
pub proof fn lemma_send_nonces_strictly_increasing(t: &TransportState, i: int, j: int)
    requires
        t.wf(),
        0 <= i < j < t.sent_nonces@.len(),
    ensures
        t.sent_nonces@[i] < t.sent_nonces@[j],
{
}

/// Nonce monotonicity for the inbound direction: the nonces used to
/// receive are strictly increasing, with no repeats.
pub proof fn lemma_receive_nonces_strictly_increasing(t: &TransportState, i: int, j: int)
    requires
        t.wf(),
        0 <= i < j < t.received_nonces@.len(),
    ensures
        t.received_nonces@[i] < t.received_nonces@[j],
{
}

/// Builds one transport frame: the 2-byte big-endian length of the
/// ciphertext, then the ciphertext itself.
pub fn build_frame(ciphertext: &[u8]) -> (r: Vec<u8>)
    requires
        ciphertext@.len() <= u16::MAX,
    ensures
        r@ == spec_u16_to_bytes(ciphertext@.len() as u16) + ciphertext@,
{
    let mut r = write_be16(ciphertext.len() as u16);
    let mut body = slice_to_vec(ciphertext);
    r.append(&mut body);
    proof {
        assert(r@ =~= spec_u16_to_bytes(ciphertext@.len() as u16) + ciphertext@);
    }
    r
}

/// Reads the ciphertext length from a frame's 2-byte big-endian
/// header.
pub fn frame_ciphertext_len(header: &[u8]) -> (r: Result<u16, SerializationError>)
    ensures
        match r {
            Ok(l) => header@.len() >= 2 && l == spec_be16(header@[0], header@[1]),
            Err(e) => header@.len() < 2 && e == SerializationError::TooFewBytes,
        },
{
    if header.len() < 2 {
        return Err(SerializationError::TooFewBytes);
    }
    Ok(read_be16(header[0], header[1]))
}

/// One peer connection: the remote identity, the lifecycle phase, the
/// transport session once established, and the time of the last
/// outbound traffic for keepalive scheduling.
pub struct NodeConnection {
    pub public_key: Vec<u8>,
    pub phase: ConnectionPhase,
    pub transport: TransportState,
    pub last_write_ms: u64,
}

impl NodeConnection {
    /// The connection invariant: a 33-byte identity, and a well-formed
    /// transport session whenever the connection is in the transport
    /// phase.
    pub open spec fn wf(&self) -> bool {
        &&& self.public_key@.len() == 33
        &&& (self.phase == ConnectionPhase::Transport ==> self.transport.wf())
    }

    /// A fresh, unauthenticated connection to the given identity.
    pub fn new(public_key: Vec<u8>) -> (r: Self)
        requires
            public_key@.len() == 33,
        ensures
            r.wf(),
            r.public_key@ == public_key@,
            r.phase == ConnectionPhase::Unauthenticated,
    {
        NodeConnection {
            public_key,
            phase: ConnectionPhase::Unauthenticated,
            transport: TransportState {
                write_key: Vec::new(),
                read_key: Vec::new(),
                write_nonce: 0,
                read_nonce: 0,
                sent_nonces: Ghost(Seq::empty()),
                received_nonces: Ghost(Seq::empty()),
            },
            last_write_ms: 0,
        }
    }

    /// Starts the three-act key exchange.
    pub fn begin_handshake(&mut self)
        requires
            old(self).wf(),
            old(self).phase == ConnectionPhase::Unauthenticated,
        ensures
            final(self).wf(),
            final(self).phase == ConnectionPhase::Handshaking,
            final(self).public_key@ == old(self).public_key@,
    {
        self.phase = ConnectionPhase::Handshaking;
    }

    /// Completes the key exchange: installs the two directional keys
    /// it derived and resets both nonce counters to zero.
    pub fn complete_handshake(&mut self, write_key: Vec<u8>, read_key: Vec<u8>, now_ms: u64)
        requires
            old(self).wf(),
            old(self).phase == ConnectionPhase::Handshaking,
            write_key@.len() == 32,
            read_key@.len() == 32,
        ensures
            final(self).wf(),
            final(self).phase == ConnectionPhase::Transport,
            final(self).public_key@ == old(self).public_key@,
            final(self).transport.write_nonce == 0,
            final(self).transport.read_nonce == 0,
            final(self).transport.write_key@ == write_key@,
            final(self).transport.read_key@ == read_key@,
            final(self).last_write_ms == now_ms,
    {
        self.transport = TransportState::new(write_key, read_key);
        self.phase = ConnectionPhase::Transport;
        self.last_write_ms = now_ms;
    }

    /// Closes the connection: after a handshake failure, a transport
    /// authentication failure, or a stream failure, it must never be
    /// used for messaging again.
    pub fn close(&mut self)
        requires
            old(self).wf(),
        ensures
            final(self).wf(),
            final(self).phase == ConnectionPhase::Closed,
            final(self).public_key@ == old(self).public_key@,
    {
        self.phase = ConnectionPhase::Closed;
    }

    /// Whether the connection is in the transport phase and may carry
    /// frames.
    pub fn is_transport(&self) -> (r: bool)
        ensures
            r == (self.phase == ConnectionPhase::Transport),
    {
        self.phase == ConnectionPhase::Transport
    }

    /// Whether the idle interval has elapsed since the last outbound
    /// traffic, so a keepalive ping is due.
    pub fn ready_for_ping(&self, now_ms: u64) -> (r: bool)
        ensures
            r == (self.last_write_ms + PING_INTERVAL_MS <= now_ms),
    {
        now_ms >= PING_INTERVAL_MS && now_ms - PING_INTERVAL_MS >= self.last_write_ms
    }

    /// Hands out the nonce for the next outbound frame, advances the
    /// write counter and records the time of the send.
    pub fn begin_send(&mut self, now_ms: u64) -> (n: u64)
        requires
            old(self).wf(),
            old(self).phase == ConnectionPhase::Transport,
            old(self).transport.write_nonce < u64::MAX,
        ensures
            final(self).wf(),
            final(self).phase == ConnectionPhase::Transport,
            final(self).public_key@ == old(self).public_key@,
            n == old(self).transport.write_nonce,
            final(self).transport.write_nonce == old(self).transport.write_nonce + 1,
            final(self).transport.sent_nonces@ == old(self).transport.sent_nonces@.push(n),
            final(self).transport.read_nonce == old(self).transport.read_nonce,
            final(self).transport.received_nonces@ == old(self).transport.received_nonces@,
            final(self).last_write_ms == now_ms,
    {
        let n = self.transport.next_write_nonce();
        self.last_write_ms = now_ms;
        n
    }

    /// Prepares one outbound message: encodes it and hands out the
    /// nonce to encrypt it under.  The application encrypts the
    /// plaintext under the write key and this nonce, frames the
    /// ciphertext and writes the frame to the stream.
    pub fn prepare_send(&mut self, msg: &Message, now_ms: u64) -> (r: (Vec<u8>, u64))
        requires
            old(self).wf(),
            old(self).phase == ConnectionPhase::Transport,
            old(self).transport.write_nonce < u64::MAX,
            msg.wf(),
        ensures
            final(self).wf(),
            final(self).phase == ConnectionPhase::Transport,
            final(self).public_key@ == old(self).public_key@,
            r.0@ == spec_encode_fields(msg@.1),
            r.1 == old(self).transport.write_nonce,
            final(self).transport.write_nonce == old(self).transport.write_nonce + 1,
            final(self).transport.sent_nonces@ == old(self).transport.sent_nonces@.push(r.1),
            final(self).transport.read_nonce == old(self).transport.read_nonce,
            final(self).last_write_ms == now_ms,
    {
        let plaintext = msg.to_bytes();
        let nonce = self.begin_send(now_ms);
        (plaintext, nonce)
    }

    /// Hands out the nonce for the next inbound frame and advances the
    /// read counter.
    pub fn begin_receive(&mut self) -> (n: u64)
        requires
            old(self).wf(),
            old(self).phase == ConnectionPhase::Transport,
            old(self).transport.read_nonce < u64::MAX,
        ensures
            final(self).wf(),
            final(self).phase == ConnectionPhase::Transport,
            final(self).public_key@ == old(self).public_key@,
            n == old(self).transport.read_nonce,
            final(self).transport.read_nonce == old(self).transport.read_nonce + 1,
            final(self).transport.received_nonces@ == old(self).transport.received_nonces@.push(
                n,
            ),
            final(self).transport.write_nonce == old(self).transport.write_nonce,
            final(self).transport.sent_nonces@ == old(self).transport.sent_nonces@,
            final(self).last_write_ms == old(self).last_write_ms,
    {
        self.transport.next_read_nonce()
    }
}

} // verus!
