use minipeer::wire::BytesSerializable;
use minipeer::wire::Bytes8Element;
use minipeer::wire::MessageTypeWire;
use minipeer::wire::RGBColorWire;
use minipeer::wire::RemainderTypeWire;
use minipeer::wire::SerializationError;
use minipeer::wire::SingleByteWire;
use minipeer::wire::U16IntWire;
use minipeer::wire::U16SizedBytesWire;
use minipeer::wire::U32SerializedElement;
use minipeer::wire::Wire32Bytes;
use minipeer::wire::Wire33Bytes;
use minipeer::wire::Wire64Bytes;
use minipeer::messages::MessageTypeEnum;

#[test]
fn message_type_wire_decodes_big_endian() {
    let bytes = [0x01u8, 0x02, 0xff];
    let (w, rest) = MessageTypeWire::from_bytes(&bytes).unwrap();
    assert_eq!(w.id, 258);
    assert_eq!(rest, &[0xffu8][..]);
}

#[test]
fn message_type_wire_round_trip() {
    let w = MessageTypeWire::new(MessageTypeEnum::Init);
    assert_eq!(w.id, 16);
    let bytes = w.to_bytes();
    assert_eq!(bytes, vec![0x00, 0x10]);
    let (back, rest) = MessageTypeWire::from_bytes(&bytes).unwrap();
    assert_eq!(back.id, 16);
    assert!(rest.is_empty());
}

#[test]
fn message_type_wire_too_few_bytes() {
    let r = MessageTypeWire::from_bytes(&[0x07]);
    assert!(matches!(r, Err(SerializationError::TooFewBytes)));
}

#[test]
fn u16_sized_bytes_decodes_prefix_and_body() {
    let bytes = [0x00u8, 0x03, 9, 8, 7, 1];
    let (w, rest) = U16SizedBytesWire::from_bytes(&bytes).unwrap();
    assert_eq!(w.data, vec![9, 8, 7]);
    assert_eq!(rest, &[1u8][..]);
}

#[test]
fn u16_sized_bytes_round_trip() {
    let w = U16SizedBytesWire::new(vec![9, 8, 7]);
    let bytes = w.to_bytes();
    assert_eq!(bytes, vec![0, 3, 9, 8, 7]);
    let (back, rest) = U16SizedBytesWire::from_bytes(&bytes).unwrap();
    assert_eq!(back.data, vec![9, 8, 7]);
    assert!(rest.is_empty());
}

#[test]
fn u16_sized_bytes_short_header_fails() {
    let r = U16SizedBytesWire::from_bytes(&[0x00]);
    assert!(matches!(r, Err(SerializationError::TooFewBytes)));
}

#[test]
fn u16_sized_bytes_short_body_fails() {
    let r = U16SizedBytesWire::from_bytes(&[0x00, 0x05, 1]);
    assert!(matches!(r, Err(SerializationError::TooFewBytes)));
}

#[test]
fn single_byte_round_trip() {
    let bytes = [42u8, 1];
    let (w, rest) = SingleByteWire::from_bytes(&bytes).unwrap();
    assert_eq!(w.value, 42);
    assert_eq!(rest, &[1u8][..]);
    assert_eq!(w.to_bytes(), vec![42]);
    let r = SingleByteWire::from_bytes(&[]);
    assert!(matches!(r, Err(SerializationError::TooFewBytes)));
}

#[test]
fn rgb_color_round_trip() {
    let bytes = [1u8, 2, 3, 4];
    let (w, rest) = RGBColorWire::from_bytes(&bytes).unwrap();
    assert_eq!(w.bytes, vec![1, 2, 3]);
    assert_eq!(rest, &[4u8][..]);
    assert_eq!(w.to_bytes(), vec![1, 2, 3]);
    let r = RGBColorWire::from_bytes(&[1, 2]);
    assert!(matches!(r, Err(SerializationError::TooFewBytes)));
}

#[test]
fn u16_int_round_trip() {
    let (w, rest) = U16IntWire::from_bytes(&[1, 0]).unwrap();
    assert_eq!(w.value, 256);
    assert!(rest.is_empty());
    let big = U16IntWire::new(65535);
    assert_eq!(big.to_bytes(), vec![255, 255]);
    let r = U16IntWire::from_bytes(&[9]);
    assert!(matches!(r, Err(SerializationError::TooFewBytes)));
}

#[test]
fn u32_element_round_trip() {
    let (w, rest) = U32SerializedElement::from_bytes(&[0, 0, 1, 0, 9]).unwrap();
    assert_eq!(w.value, 256);
    assert_eq!(rest, &[9u8][..]);
    assert_eq!(w.to_bytes(), vec![0, 0, 1, 0]);
    let r = U32SerializedElement::from_bytes(&[1, 2, 3]);
    assert!(matches!(r, Err(SerializationError::TooFewBytes)));
}

#[test]
fn fixed_blocks_round_trip() {
    let mut bytes64: Vec<u8> = (0..64).map(|i| i as u8).collect();
    bytes64.push(0xaa);
    let (w, rest) = Wire64Bytes::from_bytes(&bytes64).unwrap();
    assert_eq!(w.data.len(), 64);
    assert_eq!(rest, &[0xaau8][..]);
    assert_eq!(w.to_bytes(), &bytes64[..64]);

    let bytes32: Vec<u8> = (0..33).map(|i| i as u8).collect();
    let (w, rest) = Wire32Bytes::from_bytes(&bytes32).unwrap();
    assert_eq!(w.data, &bytes32[..32]);
    assert_eq!(rest, &[32u8][..]);

    let bytes33: Vec<u8> = (0..34).map(|i| i as u8).collect();
    let (w, rest) = Wire33Bytes::from_bytes(&bytes33).unwrap();
    assert_eq!(w.data, &bytes33[..33]);
    assert_eq!(rest, &[33u8][..]);

    let bytes8: Vec<u8> = vec![1, 2, 3, 4, 5, 6, 7, 8, 9];
    let (w, rest) = Bytes8Element::from_bytes(&bytes8).unwrap();
    assert_eq!(w.data, vec![1, 2, 3, 4, 5, 6, 7, 8]);
    assert_eq!(rest, &[9u8][..]);
}

#[test]
fn fixed_blocks_too_few_bytes() {
    assert!(matches!(
        Wire64Bytes::from_bytes(&[0u8; 63]),
        Err(SerializationError::TooFewBytes)
    ));
    assert!(matches!(
        Wire32Bytes::from_bytes(&[0u8; 31]),
        Err(SerializationError::TooFewBytes)
    ));
    assert!(matches!(
        Wire33Bytes::from_bytes(&[0u8; 32]),
        Err(SerializationError::TooFewBytes)
    ));
    assert!(matches!(
        Bytes8Element::from_bytes(&[0u8; 7]),
        Err(SerializationError::TooFewBytes)
    ));
}

#[test]
fn remainder_consumes_everything() {
    let (w, rest) = RemainderTypeWire::from_bytes(&[5, 6]).unwrap();
    assert_eq!(w.data, vec![5, 6]);
    assert!(rest.is_empty());
    assert_eq!(w.to_bytes(), vec![5, 6]);
}

#[test]
fn remainder_succeeds_on_empty_input() {
    let (w, rest) = RemainderTypeWire::from_bytes(&[]).unwrap();
    assert!(w.data.is_empty());
    assert!(rest.is_empty());
    let again = RemainderTypeWire::new(Vec::new());
    assert!(again.to_bytes().is_empty());
}
