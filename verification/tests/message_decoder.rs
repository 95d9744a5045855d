use minipeer::messages::Message;
use minipeer::messages::MessageDecodeError;
use minipeer::messages::MessageDecoder;
use minipeer::messages::MessageTypeEnum;
use minipeer::wire::SerializableElement;
use minipeer::wire::SerializableTypes;

#[test]
fn test_decode_init_message() {
    let bytes = hex::decode("001000021100000708a0880a8a59a1012006226e46111a0b59caaf126043eb5bbf28c34f3a5e332a1fc7b2b73cf188910f2d7ef99482067a1b72fe9e411d37be8c").unwrap();
    let (msg, _remainder) = MessageDecoder::from_bytes(&bytes).unwrap();
    assert_eq!(msg.message_type, MessageTypeEnum::Init);
    // check that "type" is contained in msg.elements
    assert!(msg.elements.contains_key("type"));
    assert!(msg.elements.contains_key("globalfeatures"));
    assert!(msg.elements.contains_key("localfeatures"));
}

#[test]
fn init_message_field_values() {
    let bytes = hex::decode("001000021100000708a0880a8a59a101aabb").unwrap();
    let (msg, remainder) = MessageDecoder::from_bytes(&bytes).unwrap();
    assert_eq!(msg.message_type, MessageTypeEnum::Init);
    match msg.elements.get("type") {
        Some(SerializableElement::MessageType(w)) => assert_eq!(w.id, 0x0010),
        _ => panic!("missing type tag"),
    }
    match msg.elements.get("globalfeatures") {
        Some(SerializableElement::U16SizedBytes(w)) => assert_eq!(w.data, vec![0x11, 0x00]),
        _ => panic!("missing globalfeatures"),
    }
    match msg.elements.get("localfeatures") {
        Some(SerializableElement::U16SizedBytes(w)) => {
            assert_eq!(w.data, vec![0x08, 0xa0, 0x88, 0x0a, 0x8a, 0x59, 0xa1])
        }
        _ => panic!("missing localfeatures"),
    }
    assert_eq!(remainder, &[0x01u8, 0xaa, 0xbb][..]);
    assert_eq!(msg.elements.len(), 3);
}

#[test]
fn encode_restores_consumed_bytes() {
    let bytes = hex::decode("001000021100000708a0880a8a59a101aabb").unwrap();
    let (msg, remainder) = MessageDecoder::from_bytes(&bytes).unwrap();
    let mut rebuilt = msg.to_bytes();
    rebuilt.extend_from_slice(remainder);
    assert_eq!(rebuilt, bytes);
}

#[test]
fn ping_message_decodes_structured() {
    let bytes = [0x00u8, 0x12, 0x00, 0x05, 0x00, 0x02, 0xaa, 0xbb];
    let (msg, rest) = MessageDecoder::from_bytes(&bytes).unwrap();
    assert_eq!(msg.message_type, MessageTypeEnum::Ping);
    match msg.elements.get("num_pong_bytes") {
        Some(SerializableElement::U16Int(w)) => assert_eq!(w.value, 5),
        _ => panic!("missing num_pong_bytes"),
    }
    match msg.elements.get("ignored") {
        Some(SerializableElement::U16SizedBytes(w)) => assert_eq!(w.data, vec![0xaa, 0xbb]),
        _ => panic!("missing ignored block"),
    }
    assert!(rest.is_empty());
}

#[test]
fn recognized_but_unmodeled_code_decodes_as_unknown() {
    // an open-channel message: recognized, but its structure is not
    // modeled, so nothing of the payload is interpreted
    let bytes = [0x00u8, 0x20, 0xde, 0xad, 0xbe, 0xef];
    let (msg, rest) = MessageDecoder::from_bytes(&bytes).unwrap();
    assert_eq!(msg.message_type, MessageTypeEnum::Unknown);
    assert!(!msg.elements.contains_key("type"));
    assert_eq!(rest, &bytes[..]);
}

#[test]
fn unrecognized_code_is_a_decode_error() {
    let bytes = [0x00u8, 0x02, 0x01];
    let r = MessageDecoder::from_bytes(&bytes);
    assert!(matches!(r, Err(MessageDecodeError::Error)));
}

#[test]
fn truncated_type_tag_is_a_decode_error() {
    let r = MessageDecoder::from_bytes(&[0x05]);
    assert!(matches!(r, Err(MessageDecodeError::Error)));
}

#[test]
fn truncated_field_is_a_decode_error() {
    // an init message whose globalfeatures length promises more bytes
    // than the buffer holds
    let bytes = [0x00u8, 0x10, 0x00, 0x09, 0x11];
    let r = MessageDecoder::from_bytes(&bytes);
    assert!(matches!(r, Err(MessageDecodeError::Error)));
}

#[test]
fn get_structure_init_schema() {
    let (t, structure) = MessageDecoder::get_structure(16).unwrap();
    assert_eq!(t, MessageTypeEnum::Init);
    let names: Vec<&str> = structure.iter().map(|p| p.0.as_str()).collect();
    assert_eq!(names, vec!["type", "globalfeatures", "localfeatures"]);
    assert_eq!(structure[0].1, SerializableTypes::MessageType);
    assert_eq!(structure[1].1, SerializableTypes::U16SizedBytes);
    assert_eq!(structure[2].1, SerializableTypes::U16SizedBytes);
}

#[test]
fn get_structure_unmodeled_is_empty() {
    let (t, structure) = MessageDecoder::get_structure(17).unwrap();
    assert_eq!(t, MessageTypeEnum::Unknown);
    assert!(structure.is_empty());
}

#[test]
fn get_structure_unrecognized_fails() {
    let r = MessageDecoder::get_structure(2);
    assert!(matches!(r, Err(MessageDecodeError::Error)));
}

#[test]
fn gossip_timestamp_filter_decodes_structured() {
    let mut bytes = vec![0x01u8, 0x09];
    bytes.extend((0..32).map(|i| i as u8)); // chain hash
    bytes.extend_from_slice(&[0x00, 0x00, 0x00, 0x2a]); // first timestamp 42
    bytes.extend_from_slice(&[0xff, 0xff, 0xff, 0xff]); // full range
    let (msg, rest) = MessageDecoder::from_bytes(&bytes).unwrap();
    assert_eq!(msg.message_type, MessageTypeEnum::GossipTimestampFilter);
    match msg.elements.get("first_timestamp") {
        Some(SerializableElement::U32Int(w)) => assert_eq!(w.value, 42),
        _ => panic!("missing first_timestamp"),
    }
    match msg.elements.get("timestamp_range") {
        Some(SerializableElement::U32Int(w)) => assert_eq!(w.value, 0xffffffff),
        _ => panic!("missing timestamp_range"),
    }
    assert!(rest.is_empty());
}

fn node_announcement_bytes(node_id: &[u8; 33]) -> Vec<u8> {
    let mut bytes = vec![0x01u8, 0x01];
    bytes.extend_from_slice(&[7u8; 64]); // signature
    bytes.extend_from_slice(&[0x00, 0x00]); // empty features
    bytes.extend_from_slice(&[0x00, 0x00, 0x00, 0x2a]); // timestamp
    bytes.extend_from_slice(node_id);
    bytes.extend_from_slice(&[0x10, 0x20, 0x30]); // rgb colour
    bytes.extend_from_slice(&[3u8; 32]); // alias
    bytes.extend_from_slice(&[0x00, 0x03, 1, 2, 3]); // addresses
    bytes
}

#[test]
fn node_announcement_decodes_structured() {
    let mut node_id = [0u8; 33];
    node_id[0] = 0x02;
    let bytes = node_announcement_bytes(&node_id);
    let (msg, rest) = MessageDecoder::from_bytes(&bytes).unwrap();
    assert_eq!(msg.message_type, MessageTypeEnum::NodeAnnouncement);
    match msg.elements.get("node_id") {
        Some(SerializableElement::Bytes33(w)) => assert_eq!(w.data, node_id.to_vec()),
        _ => panic!("missing node_id"),
    }
    match msg.elements.get("rgb_color") {
        Some(SerializableElement::RGBColor(w)) => assert_eq!(w.bytes, vec![0x10, 0x20, 0x30]),
        _ => panic!("missing rgb_color"),
    }
    match msg.elements.get("addresses") {
        Some(SerializableElement::U16SizedBytes(w)) => assert_eq!(w.data, vec![1, 2, 3]),
        _ => panic!("missing addresses"),
    }
    assert!(rest.is_empty());
}

#[test]
fn element_map_lookup_misses() {
    let bytes = [0x00u8, 0x12, 0x00, 0x00, 0x00, 0x00];
    let (msg, _) = MessageDecoder::from_bytes(&bytes).unwrap();
    assert!(!msg.elements.contains_key("no_such_field"));
    assert!(msg.elements.get("no_such_field").is_none());
}

#[test]
fn message_view_is_type_and_fields() {
    // a freshly decoded message exposes its type and its field count
    let bytes = [0x00u8, 0x13, 0x00, 0x01, 0x55];
    let (msg, _) = MessageDecoder::from_bytes(&bytes).unwrap();
    let Message { message_type, elements } = msg;
    assert_eq!(message_type, MessageTypeEnum::Pong);
    assert_eq!(elements.len(), 2);
}
