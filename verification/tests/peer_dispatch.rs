use minipeer::config::PING_INTERVAL_MS;
use minipeer::messages::MessageDecoder;
use minipeer::messages::MessageTypeEnum;
use minipeer::node_connection::build_frame;
use minipeer::node_connection::frame_ciphertext_len;
use minipeer::node_connection::ConnectionPhase;
use minipeer::node_connection::NodeConnection;
use minipeer::node_connection::TransportState;
use minipeer::peer::make_filter_echo;
use minipeer::peer::make_ping;
use minipeer::peer::make_pong;
use minipeer::peer::DispatchAction;
use minipeer::peer::MiniPeer;
use minipeer::wire::SerializableElement;

fn ping_bytes(num_pong_bytes: u16) -> Vec<u8> {
    let mut bytes = vec![0x00u8, 0x12];
    bytes.extend_from_slice(&num_pong_bytes.to_be_bytes());
    bytes.extend_from_slice(&[0x00, 0x02, 0xaa, 0xbb]);
    bytes
}

fn node_announcement_bytes(node_id: &[u8; 33]) -> Vec<u8> {
    let mut bytes = vec![0x01u8, 0x01];
    bytes.extend_from_slice(&[7u8; 64]);
    bytes.extend_from_slice(&[0x00, 0x00]);
    bytes.extend_from_slice(&[0x00, 0x00, 0x00, 0x2a]);
    bytes.extend_from_slice(node_id);
    bytes.extend_from_slice(&[0x10, 0x20, 0x30]);
    bytes.extend_from_slice(&[3u8; 32]);
    bytes.extend_from_slice(&[0x00, 0x03, 1, 2, 3]);
    bytes
}

fn gossip_filter_bytes(first_timestamp: u32) -> Vec<u8> {
    let mut bytes = vec![0x01u8, 0x09];
    bytes.extend((0..32).map(|i| i as u8));
    bytes.extend_from_slice(&first_timestamp.to_be_bytes());
    bytes.extend_from_slice(&[0xff, 0xff, 0xff, 0xff]);
    bytes
}

#[test]
fn ping_is_answered_by_pong_with_requested_padding() {
    let peer = MiniPeer::new(vec![9u8; 32]);
    let from = [0x02u8; 33];
    let bytes = ping_bytes(5);
    let (msg, _) = MessageDecoder::from_bytes(&bytes).unwrap();
    match peer.handle_inbound_message(&msg, &from) {
        DispatchAction::SendReply(to, pong) => {
            assert_eq!(to, from.to_vec());
            assert_eq!(pong.message_type, MessageTypeEnum::Pong);
            match pong.elements.get("ignored") {
                Some(SerializableElement::U16SizedBytes(w)) => {
                    assert_eq!(w.data.len(), 5);
                    assert!(w.data.iter().all(|b| *b == 0));
                }
                _ => panic!("pong without padding block"),
            }
            assert_eq!(pong.to_bytes(), vec![0x00, 0x13, 0x00, 0x05, 0, 0, 0, 0, 0]);
        }
        _ => panic!("ping not answered"),
    }
}

#[test]
fn make_pong_padding_matches_request_exactly() {
    let pong = make_pong(0);
    assert_eq!(pong.to_bytes(), vec![0x00, 0x13, 0x00, 0x00]);
    let big = make_pong(300);
    match big.elements.get("ignored") {
        Some(SerializableElement::U16SizedBytes(w)) => assert_eq!(w.data.len(), 300),
        _ => panic!("pong without padding block"),
    }
}

#[test]
fn make_ping_carries_requested_pong_count() {
    let ping = make_ping(7);
    assert_eq!(ping.message_type, MessageTypeEnum::Ping);
    assert_eq!(ping.to_bytes(), vec![0x00, 0x12, 0x00, 0x07, 0x00, 0x00]);
}

#[test]
fn gossip_filter_is_echoed_with_timestamp_reset() {
    let peer = MiniPeer::new(vec![9u8; 32]);
    let from = [0x02u8; 33];
    let bytes = gossip_filter_bytes(123456);
    let (msg, _) = MessageDecoder::from_bytes(&bytes).unwrap();
    match peer.handle_inbound_message(&msg, &from) {
        DispatchAction::SendReply(to, reply) => {
            assert_eq!(to, from.to_vec());
            assert_eq!(reply.message_type, MessageTypeEnum::GossipTimestampFilter);
            match reply.elements.get("first_timestamp") {
                Some(SerializableElement::U32Int(w)) => assert_eq!(w.value, 0),
                _ => panic!("echo without first_timestamp"),
            }
            match reply.elements.get("timestamp_range") {
                Some(SerializableElement::U32Int(w)) => assert_eq!(w.value, 0xffffffff),
                _ => panic!("echo without timestamp_range"),
            }
            match reply.elements.get("chain_hash") {
                Some(SerializableElement::Bytes32(w)) => {
                    assert_eq!(w.data, (0..32).map(|i| i as u8).collect::<Vec<u8>>())
                }
                _ => panic!("echo without chain_hash"),
            }
        }
        _ => panic!("filter not echoed"),
    }
}

#[test]
fn make_filter_echo_keeps_other_fields() {
    let bytes = gossip_filter_bytes(77);
    let (msg, _) = MessageDecoder::from_bytes(&bytes).unwrap();
    let echo = make_filter_echo(&msg);
    let expected = gossip_filter_bytes(0);
    assert_eq!(echo.to_bytes(), expected);
}

#[test]
fn new_node_triggers_one_connection_attempt_when_enabled() {
    let peer = MiniPeer::with_auto_connect(vec![9u8; 32], true);
    let from = [0x02u8; 33];
    let mut node_id = [0u8; 33];
    node_id[0] = 0x03;
    let bytes = node_announcement_bytes(&node_id);
    let (msg, _) = MessageDecoder::from_bytes(&bytes).unwrap();
    match peer.handle_inbound_message(&msg, &from) {
        DispatchAction::Connect(node) => {
            assert_eq!(node.public_key, node_id.to_vec());
            assert_eq!(node.address, vec![1, 2, 3]);
        }
        _ => panic!("new node not connected"),
    }
}

#[test]
fn known_node_triggers_no_connection_attempt() {
    let mut peer = MiniPeer::with_auto_connect(vec![9u8; 32], true);
    let mut node_id = [0u8; 33];
    node_id[0] = 0x03;
    peer.register_connection(NodeConnection::new(node_id.to_vec()));
    let from = [0x02u8; 33];
    let bytes = node_announcement_bytes(&node_id);
    let (msg, _) = MessageDecoder::from_bytes(&bytes).unwrap();
    assert!(matches!(
        peer.handle_inbound_message(&msg, &from),
        DispatchAction::Nothing
    ));
}

#[test]
fn disabled_policy_triggers_no_connection_attempt() {
    let peer = MiniPeer::with_auto_connect(vec![9u8; 32], false);
    let from = [0x02u8; 33];
    let mut node_id = [0u8; 33];
    node_id[0] = 0x03;
    let bytes = node_announcement_bytes(&node_id);
    let (msg, _) = MessageDecoder::from_bytes(&bytes).unwrap();
    assert!(matches!(
        peer.handle_inbound_message(&msg, &from),
        DispatchAction::Nothing
    ));
}

#[test]
fn unhandled_messages_are_no_ops() {
    let peer = MiniPeer::new(vec![9u8; 32]);
    let from = [0x02u8; 33];
    let bytes = [0x00u8, 0x20, 0xde, 0xad];
    let (msg, _) = MessageDecoder::from_bytes(&bytes).unwrap();
    assert!(matches!(
        peer.handle_inbound_message(&msg, &from),
        DispatchAction::Nothing
    ));
}

#[test]
fn send_nonces_increase_strictly_and_start_at_zero() {
    let mut t = TransportState::new(vec![0u8; 32], vec![1u8; 32]);
    assert_eq!(t.next_write_nonce(), 0);
    assert_eq!(t.next_write_nonce(), 1);
    assert_eq!(t.next_write_nonce(), 2);
    assert_eq!(t.write_nonce, 3);
    assert_eq!(t.read_nonce, 0);
    assert_eq!(t.next_read_nonce(), 0);
    assert_eq!(t.next_read_nonce(), 1);
    assert_eq!(t.write_nonce, 3);
}

#[test]
fn connection_lifecycle_and_nonces() {
    let mut conn = NodeConnection::new(vec![2u8; 33]);
    assert_eq!(conn.phase, ConnectionPhase::Unauthenticated);
    conn.begin_handshake();
    assert_eq!(conn.phase, ConnectionPhase::Handshaking);
    conn.complete_handshake(vec![0u8; 32], vec![1u8; 32], 1000);
    assert_eq!(conn.phase, ConnectionPhase::Transport);
    let mut nonces = Vec::new();
    for _ in 0..4 {
        nonces.push(conn.begin_send(1000));
    }
    assert_eq!(nonces, vec![0, 1, 2, 3]);
    assert!(nonces.windows(2).all(|w| w[0] < w[1]));
    conn.close();
    assert_eq!(conn.phase, ConnectionPhase::Closed);
}

#[test]
fn prepare_send_encodes_and_advances_the_nonce() {
    let mut conn = NodeConnection::new(vec![2u8; 33]);
    conn.begin_handshake();
    conn.complete_handshake(vec![0u8; 32], vec![1u8; 32], 1000);
    let ping = make_ping(3);
    let (plaintext, nonce) = conn.prepare_send(&ping, 2000);
    assert_eq!(plaintext, vec![0x00, 0x12, 0x00, 0x03, 0x00, 0x00]);
    assert_eq!(nonce, 0);
    let (_, nonce2) = conn.prepare_send(&ping, 3000);
    assert_eq!(nonce2, 1);
}

#[test]
fn ready_for_ping_after_idle_interval() {
    let mut conn = NodeConnection::new(vec![2u8; 33]);
    conn.begin_handshake();
    conn.complete_handshake(vec![0u8; 32], vec![1u8; 32], 1000);
    assert!(!conn.ready_for_ping(1000));
    assert!(!conn.ready_for_ping(1000 + PING_INTERVAL_MS - 1));
    assert!(conn.ready_for_ping(1000 + PING_INTERVAL_MS));
    conn.begin_send(5000);
    assert!(!conn.ready_for_ping(5000 + PING_INTERVAL_MS - 1));
    assert!(conn.ready_for_ping(5000 + PING_INTERVAL_MS));
}

#[test]
fn frames_carry_a_big_endian_length_prefix() {
    let frame = build_frame(&[1, 2, 3]);
    assert_eq!(frame, vec![0, 3, 1, 2, 3]);
    assert_eq!(frame_ciphertext_len(&frame).unwrap(), 3);
    assert!(frame_ciphertext_len(&[0]).is_err());
    let empty = build_frame(&[]);
    assert_eq!(empty, vec![0, 0]);
}

#[test]
fn table_membership_by_identity() {
    let mut peer = MiniPeer::new(vec![9u8; 32]);
    let id_a = vec![2u8; 33];
    let id_b = vec![3u8; 33];
    assert!(!peer.contains_connection(&id_a));
    peer.register_connection(NodeConnection::new(id_a.clone()));
    assert!(peer.contains_connection(&id_a));
    assert!(!peer.contains_connection(&id_b));
    let i = peer.find_connection(&id_a).unwrap();
    let removed = peer.remove_connection(i);
    assert_eq!(removed.public_key, id_a);
    assert!(!peer.contains_connection(&id_a));
}
