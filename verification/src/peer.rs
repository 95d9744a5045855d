//! The peer orchestrator's policy: the connection table keyed by
//! remote identity, and the dispatch decisions for inbound messages
//! (ping/pong keepalive, peer discovery from node announcements,
//! gossip-filter echo).  The surrounding application drives the event
//! loop: it performs the stream I/O and the cryptography, and carries
//! out the action each decision names.

use vstd::prelude::*;
use vstd::slice::slice_to_vec;
use crate::config::DO_CONNECT_TO_NEW_NODES;
use crate::messages::ElementMap;
use crate::messages::Message;
use crate::messages::MessageTypeEnum;
use crate::messages::spec_map_lookup;
use crate::messages::spec_message_type_code;
use crate::node::Node;
use crate::node_connection::NodeConnection;
use crate::node_connection::NodeConnectionError;
use crate::wire::ElemValue;
use crate::wire::MessageTypeWire;
use crate::wire::SerializableElement;
use crate::wire::U16IntWire;
use crate::wire::U16SizedBytesWire;
use crate::wire::U32SerializedElement;

verus! {

/// Failure while opening and registering a connection: either the
/// connection could not be created, or its handshake failed.
#[derive(Debug)]
pub enum MessageHandlerError {
    NodeConnectionError(NodeConnectionError),
    NodeHandshakeError(NodeConnectionError),
}

impl MessageHandlerError {
    /// Wraps a connection error by the phase it arose in, as the
    /// orchestrator reports it: handshake failures are distinguished
    /// from connection-creation failures.
    pub fn from_connection_error(err: NodeConnectionError, during_handshake: bool) -> (r: Self)
        ensures
            during_handshake ==> r == MessageHandlerError::NodeHandshakeError(err),
            !during_handshake ==> r == MessageHandlerError::NodeConnectionError(err),
    {
        if during_handshake {
            MessageHandlerError::NodeHandshakeError(err)
        } else {
            MessageHandlerError::NodeConnectionError(err)
        }
    }
}

/// The action the orchestrator decides on for one inbound message.
/// The application carries it out: it encrypts and sends the reply, or
/// dials and handshakes the new node.
#[derive(Debug)]
pub enum DispatchAction {
    /// Send this reply to the peer with this identity: the one the
    /// message came from.
    SendReply(Vec<u8>, Message),
    /// Open a connection to this newly discovered node.
    Connect(Node),
    /// No action.
    Nothing,
}

/// A sequence of zero bytes.
pub open spec fn spec_zeros(n: nat) -> Seq<u8> {
    Seq::new(n, |i: int| 0u8)
}

/// The model of the pong that answers a ping requesting `n` pong
/// bytes: its padding block holds exactly `n` zero bytes.
pub open spec fn spec_pong_model(n: u16) -> (MessageTypeEnum, Seq<(Seq<char>, ElemValue)>) {
    (
        MessageTypeEnum::Pong,
        seq![
            (
                "type"@,
                ElemValue::MsgType(spec_message_type_code(MessageTypeEnum::Pong)),
            ),
            ("ignored"@, ElemValue::U16Sized(spec_zeros(n as nat))),
        ],
    )
}

/// The model of the filter echoed back for a gossip timestamp filter:
/// the same fields, with the starting timestamp reset to the epoch
/// origin and everything else unchanged.
pub open spec fn spec_filter_echo(elems: Seq<(Seq<char>, ElemValue)>) -> Seq<
    (Seq<char>, ElemValue),
> {
    Seq::new(
        elems.len(),
        |i: int|
            if elems[i].0 == "first_timestamp"@ {
                (elems[i].0, ElemValue::U32(0))
            } else {
                elems[i]
            },
    )
}

/// Builds the pong message answering a ping that requested `n` pong
/// bytes.
pub fn make_pong(n: u16) -> (r: Message)
    ensures
        r.wf(),
        r@ == spec_pong_model(n),
{
    let mut padding: Vec<u8> = Vec::new();
    let mut i: usize = 0;
    while i < n as usize
        invariant
            0 <= i <= n,
            padding@ =~= spec_zeros(i as nat),
        decreases n as usize - i,
    {
        padding.push(0u8);
        i += 1;
    }
    let mut elements = ElementMap::new();
    elements.push(
        "type".to_owned(),
        SerializableElement::MessageType(MessageTypeWire::new(MessageTypeEnum::Pong)),
    );
    elements.push(
        "ignored".to_owned(),
        SerializableElement::U16SizedBytes(U16SizedBytesWire::new(padding)),
    );
    let r = Message { message_type: MessageTypeEnum::Pong, elements };
    proof {
        assert(r.elements@ =~= spec_pong_model(n).1);
        crate::messages::lemma_schema_names_unique(MessageTypeEnum::Pong);
        let schema = crate::messages::spec_schema(MessageTypeEnum::Pong);
        assert(schema[0].0 == "type"@ && schema[1].0 == "ignored"@);
    }
    r
}

/// The model of a keepalive ping requesting `n` pong bytes and
/// carrying no padding of its own.
pub open spec fn spec_ping_model(n: u16) -> (MessageTypeEnum, Seq<(Seq<char>, ElemValue)>) {
    (
        MessageTypeEnum::Ping,
        seq![
            (
                "type"@,
                ElemValue::MsgType(spec_message_type_code(MessageTypeEnum::Ping)),
            ),
            ("num_pong_bytes"@, ElemValue::U16(n)),
            ("ignored"@, ElemValue::U16Sized(Seq::empty())),
        ],
    )
}

/// Builds the keepalive ping the orchestrator sends on an idle
/// connection, requesting `n` pong bytes.
pub fn make_ping(n: u16) -> (r: Message)
    ensures
        r.wf(),
        r@ == spec_ping_model(n),
{
    let mut elements = ElementMap::new();
    elements.push(
        "type".to_owned(),
        SerializableElement::MessageType(MessageTypeWire::new(MessageTypeEnum::Ping)),
    );
    elements.push(
        "num_pong_bytes".to_owned(),
        SerializableElement::U16Int(U16IntWire::new(n)),
    );
    elements.push(
        "ignored".to_owned(),
        SerializableElement::U16SizedBytes(U16SizedBytesWire::new(Vec::new())),
    );
    let r = Message { message_type: MessageTypeEnum::Ping, elements };
    proof {
        assert(r.elements@ =~= spec_ping_model(n).1);
        crate::messages::lemma_schema_names_unique(MessageTypeEnum::Ping);
        let schema = crate::messages::spec_schema(MessageTypeEnum::Ping);
        assert(schema[0].0 == "type"@ && schema[1].0 == "num_pong_bytes"@ && schema[2].0
            == "ignored"@);
    }
    r
}

/// Every pong the orchestrator builds is composed from the modeled
/// pong schema, so the round-trip law applies to it: a peer decoding
/// the reply recovers exactly this model.
pub proof fn lemma_pong_model_conforms(n: u16)
    ensures
        crate::messages::spec_msg_conforms(spec_pong_model(n).0, spec_pong_model(n).1),
{
}

/// Every keepalive ping the orchestrator builds is composed from the
/// modeled ping schema, so the round-trip law applies to it.
pub proof fn lemma_ping_model_conforms(n: u16)
    ensures
        crate::messages::spec_msg_conforms(spec_ping_model(n).0, spec_ping_model(n).1),
{
}

/// Builds the reply to a gossip timestamp filter: a copy of the
/// received filter whose starting timestamp is reset to the epoch
/// origin, asking the peer for the complete gossip history.
pub fn make_filter_echo(msg: &Message) -> (r: Message)
    requires
        msg.wf(),
    ensures
        r.wf(),
        r.message_type == msg.message_type,
        r@.1 == spec_filter_echo(msg@.1),
{
    let key = "first_timestamp".to_owned();
    let mut elements = ElementMap::new();
    let n = msg.elements.items.len();
    let mut i: usize = 0;
    while i < n
        invariant
            msg.wf(),
            n == msg.elements.items@.len(),
            0 <= i <= n,
            key@ == "first_timestamp"@,
            elements@ =~= spec_filter_echo(msg.elements@).take(i as int),
            elements.items@.len() == i,
            forall|j: int| 0 <= j < i ==> (#[trigger] elements.items@[j]).1.wf(),
            forall|j: int| 0 <= j < i ==> (#[trigger] elements@[j]).0 == msg.elements@[j].0,
        decreases n - i,
    {
        let ghost pre = elements@;
        if msg.elements.items[i].0 == key {
            let name = msg.elements.items[i].0.clone();
            elements.push(name, SerializableElement::U32Int(U32SerializedElement::new(0)));
        } else {
            let name = msg.elements.items[i].0.clone();
            let copy = msg.elements.items[i].1.duplicate();
            elements.push(name, copy);
        }
        proof {
            assert(elements@ =~= spec_filter_echo(msg.elements@).take(i as int + 1));
        }
        i += 1;
    }
    let r = Message { message_type: msg.message_type, elements };
    proof {
        assert(r.elements@ =~= spec_filter_echo(msg.elements@));
    }
    r
}

/// Compares two byte strings.
fn bytes_equal(a: &[u8], b: &[u8]) -> (r: bool)
    ensures
        r == (a@ == b@),
{
    if a.len() != b.len() {
        return false;
    }
    let n = a.len();
    let mut i: usize = 0;
    while i < n
        invariant
            n == a@.len(),
            n == b@.len(),
            0 <= i <= n,
            forall|j: int| 0 <= j < i ==> a@[j] == b@[j],
        decreases n - i,
    {
        if a[i] != b[i] {
            return false;
        }
        i += 1;
    }
    proof {
        assert(a@ =~= b@);
    }
    true
}

/// The peer orchestrator: the local secret key, the connection table
/// keyed by remote identity, and the discovery policy.
pub struct MiniPeer {
    pub secret_key: Vec<u8>,
    pub node_connections: Vec<NodeConnection>,
    pub auto_connect: bool,
}

/// Whether the connection table holds an entry for the given identity.
pub open spec fn spec_table_contains(table: Seq<NodeConnection>, id: Seq<u8>) -> bool {
    exists|i: int| 0 <= i < table.len() && (#[trigger] table[i]).public_key@ == id
}

impl MiniPeer {
    /// The orchestrator invariant: a 32-byte secret key, well-formed
    /// connections, and no two table entries under the same identity.
    pub open spec fn wf(&self) -> bool {
        &&& self.secret_key@.len() == 32
        &&& (forall|i: int|
            0 <= i < self.node_connections@.len() ==> (#[trigger] self.node_connections@[i]).wf())
        &&& (forall|i: int, j: int|
            0 <= i < j < self.node_connections@.len()
                ==> (#[trigger] self.node_connections@[i]).public_key@ != (
            #[trigger] self.node_connections@[j]).public_key@)
    }

    /// A fresh orchestrator with an empty connection table, under the
    /// configured discovery policy.
    pub fn new(secret_key: Vec<u8>) -> (r: Self)
        requires
            secret_key@.len() == 32,
        ensures
            r.wf(),
            r.secret_key@ == secret_key@,
            r.node_connections@.len() == 0,
            r.auto_connect == DO_CONNECT_TO_NEW_NODES,
    {
        MiniPeer { secret_key, node_connections: Vec::new(), auto_connect: DO_CONNECT_TO_NEW_NODES }
    }

    /// A fresh orchestrator with an explicit discovery policy.
    pub fn with_auto_connect(secret_key: Vec<u8>, auto_connect: bool) -> (r: Self)
        requires
            secret_key@.len() == 32,
        ensures
            r.wf(),
            r.secret_key@ == secret_key@,
            r.node_connections@.len() == 0,
            r.auto_connect == auto_connect,
    {
        MiniPeer { secret_key, node_connections: Vec::new(), auto_connect }
    }

    /// Whether the table holds a connection to the given identity.
    pub fn contains_connection(&self, public_key: &[u8]) -> (r: bool)
        ensures
            r == spec_table_contains(self.node_connections@, public_key@),
    {
        let n = self.node_connections.len();
        let mut i: usize = 0;
        while i < n
            invariant
                n == self.node_connections@.len(),
                0 <= i <= n,
                forall|j: int|
                    0 <= j < i ==> (#[trigger] self.node_connections@[j]).public_key@
                        != public_key@,
            decreases n - i,
        {
            if bytes_equal(self.node_connections[i].public_key.as_slice(), public_key) {
                return true;
            }
            i += 1;
        }
        false
    }

    /// The table index of the connection to the given identity, if
    /// any.
    pub fn find_connection(&self, public_key: &[u8]) -> (r: Option<usize>)
        ensures
            match r {
                Some(i) => i < self.node_connections@.len()
                    && self.node_connections@[i as int].public_key@ == public_key@,
                None => !spec_table_contains(self.node_connections@, public_key@),
            },
    {
        let n = self.node_connections.len();
        let mut i: usize = 0;
        while i < n
            invariant
                n == self.node_connections@.len(),
                0 <= i <= n,
                forall|j: int|
                    0 <= j < i ==> (#[trigger] self.node_connections@[j]).public_key@
                        != public_key@,
            decreases n - i,
        {
            if bytes_equal(self.node_connections[i].public_key.as_slice(), public_key) {
                return Some(i);
            }
            i += 1;
        }
        None
    }

    /// Registers a connection under its identity.  The orchestrator
    /// adds an entry only after a successful handshake, and never a
    /// second entry for an identity already present.
    pub fn register_connection(&mut self, conn: NodeConnection)
        requires
            old(self).wf(),
            conn.wf(),
            !spec_table_contains(old(self).node_connections@, conn.public_key@),
        ensures
            final(self).wf(),
            final(self).node_connections@ == old(self).node_connections@.push(conn),
            final(self).secret_key@ == old(self).secret_key@,
            final(self).auto_connect == old(self).auto_connect,
    {
        self.node_connections.push(conn);
    }

    /// Removes the connection at a table index, after a fatal failure
    /// on it: no further send or receive is attempted against a
    /// removed entry.
    pub fn remove_connection(&mut self, i: usize) -> (r: NodeConnection)
        requires
            old(self).wf(),
            i < old(self).node_connections@.len(),
        ensures
            final(self).wf(),
            r == old(self).node_connections@[i as int],
            final(self).node_connections@ == old(self).node_connections@.remove(i as int),
            final(self).secret_key@ == old(self).secret_key@,
            final(self).auto_connect == old(self).auto_connect,
    {
        self.node_connections.remove(i)
    }

    /// Decides the action for one inbound message from the peer with
    /// the given identity:
    ///
    /// - a ping requesting `n` pong bytes is answered by a pong whose
    ///   padding holds exactly `n` bytes;
    /// - a gossip timestamp filter is answered by the same filter with
    ///   its starting timestamp reset to the epoch origin, all other
    ///   fields unchanged;
    /// - a node announcement of an identity not yet in the table leads
    ///   to exactly one connection attempt, and only when the
    ///   discovery policy permits it; an identity already present, or
    ///   a disabled policy, leads to none;
    /// - every other message is an explicit no-op.
    pub fn handle_inbound_message(&self, msg: &Message, from: &[u8]) -> (r: DispatchAction)
        requires
            self.wf(),
            msg.wf(),
        ensures
            msg@.0 == MessageTypeEnum::Ping ==> (match spec_map_lookup(msg@.1, "num_pong_bytes"@) {
                Some(ElemValue::U16(n)) => r matches DispatchAction::SendReply(to, p) && to@
                    == from@ && p.wf() && p@ == spec_pong_model(n),
                _ => r is Nothing,
            }),
            msg@.0 == MessageTypeEnum::GossipTimestampFilter ==> (r matches DispatchAction::SendReply(
                to,
                p,
            ) && to@ == from@ && p.wf() && p@.0 == MessageTypeEnum::GossipTimestampFilter && p@.1
                == spec_filter_echo(msg@.1)),
            msg@.0 == MessageTypeEnum::NodeAnnouncement ==> (match spec_map_lookup(
                msg@.1,
                "node_id"@,
            ) {
                Some(ElemValue::B33(id)) => {
                    if self.auto_connect && !spec_table_contains(self.node_connections@, id) {
                        r matches DispatchAction::Connect(node) && node.wf() && node.public_key@
                            == id && node.address@ == (match spec_map_lookup(
                            msg@.1,
                            "addresses"@,
                        ) {
                            Some(ElemValue::U16Sized(a)) => a,
                            _ => Seq::<u8>::empty(),
                        })
                    } else {
                        r is Nothing
                    }
                },
                _ => r is Nothing,
            }),
            msg@.0 != MessageTypeEnum::Ping && msg@.0 != MessageTypeEnum::GossipTimestampFilter
                && msg@.0 != MessageTypeEnum::NodeAnnouncement ==> r is Nothing,
    {
        if msg.message_type == MessageTypeEnum::Ping {
            match msg.elements.get("num_pong_bytes") {
                Some(SerializableElement::U16Int(w)) => {
                    DispatchAction::SendReply(slice_to_vec(from), make_pong(w.value))
                },
                _ => DispatchAction::Nothing,
            }
        } else if msg.message_type == MessageTypeEnum::GossipTimestampFilter {
            DispatchAction::SendReply(slice_to_vec(from), make_filter_echo(msg))
        } else if msg.message_type == MessageTypeEnum::NodeAnnouncement {
            match msg.elements.get("node_id") {
                Some(SerializableElement::Bytes33(w)) => {
                    let id = slice_to_vec(w.data.as_slice());
                    if self.auto_connect && !self.contains_connection(id.as_slice()) {
                        let address = match msg.elements.get("addresses") {
                            Some(SerializableElement::U16SizedBytes(a)) => slice_to_vec(
                                a.data.as_slice(),
                            ),
                            _ => Vec::new(),
                        };
                        proof {
                            assert(address@ =~= (match spec_map_lookup(msg@.1, "addresses"@) {
                                Some(ElemValue::U16Sized(a)) => a,
                                _ => Seq::<u8>::empty(),
                            }));
                        }
                        DispatchAction::Connect(Node::new(id, address))
                    } else {
                        DispatchAction::Nothing
                    }
                },
                _ => DispatchAction::Nothing,
            }
        } else {
            DispatchAction::Nothing
        }
    }
}

} // verus!
