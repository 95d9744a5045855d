//! Wire element codec: the primitive, independently round-trippable
//! elements of the wire protocol.  Every element kind offers
//! `from_bytes` (decode a prefix of a buffer, returning the value and
//! the unconsumed rest) and `to_bytes` (encode), related by the
//! round-trip law and failing with `TooFewBytes` — never a panic —
//! when the buffer is too short.

use vstd::prelude::*;
use vstd::slice::slice_subrange;
use vstd::slice::slice_to_vec;
use crate::messages::MessageTypeEnum;
use crate::messages::spec_message_type_code;

verus! {

/// Failure of a wire element decode: the buffer held fewer bytes than
/// the element requires.
#[derive(Debug, Clone, Copy, PartialEq, Eq, Structural)]
pub enum SerializationError {
    TooFewBytes,
}

/// The big-endian 16-bit integer read from two bytes.
pub open spec fn spec_be16(b0: u8, b1: u8) -> u16 {
    (b0 * 256 + b1) as u16
}

/// The two big-endian bytes of a 16-bit integer.
pub open spec fn spec_u16_to_bytes(v: u16) -> Seq<u8> {
    seq![(v / 256) as u8, (v % 256) as u8]
}

/// The big-endian 32-bit integer read from four bytes.
pub open spec fn spec_be32(b0: u8, b1: u8, b2: u8, b3: u8) -> u32 {
    (b0 * 0x1000000 + b1 * 0x10000 + b2 * 256 + b3) as u32
}

/// The four big-endian bytes of a 32-bit integer.
pub open spec fn spec_u32_to_bytes(v: u32) -> Seq<u8> {
    seq![
        (v / 0x1000000) as u8,
        ((v / 0x10000) % 256) as u8,
        ((v / 256) % 256) as u8,
        (v % 256) as u8,
    ]
}

pub proof fn lemma_be16_round_trip(v: u16)
    ensures
        spec_be16(spec_u16_to_bytes(v)[0], spec_u16_to_bytes(v)[1]) == v,
{
}

pub proof fn lemma_be32_round_trip(v: u32)
    ensures
        spec_be32(
            spec_u32_to_bytes(v)[0],
            spec_u32_to_bytes(v)[1],
            spec_u32_to_bytes(v)[2],
            spec_u32_to_bytes(v)[3],
        ) == v,
{
}

/// Reads a big-endian 16-bit integer from two bytes.
pub fn read_be16(b0: u8, b1: u8) -> (v: u16)
    ensures
        v == spec_be16(b0, b1),
{
    (b0 as u16) * 256 + (b1 as u16)
}

/// Reads a big-endian 32-bit integer from four bytes.
pub fn read_be32(b0: u8, b1: u8, b2: u8, b3: u8) -> (v: u32)
    ensures
        v == spec_be32(b0, b1, b2, b3),
{
    (b0 as u32) * 0x1000000 + (b1 as u32) * 0x10000 + (b2 as u32) * 256 + (b3 as u32)
}

/// Writes a 16-bit integer as two big-endian bytes.
pub fn write_be16(v: u16) -> (r: Vec<u8>)
    ensures
        r@ == spec_u16_to_bytes(v),
{
    let mut r: Vec<u8> = Vec::new();
    r.push((v / 256) as u8);
    r.push((v % 256) as u8);
    proof {
        assert(r@ =~= spec_u16_to_bytes(v));
    }
    r
}

/// Writes a 32-bit integer as four big-endian bytes.
pub fn write_be32(v: u32) -> (r: Vec<u8>)
    ensures
        r@ == spec_u32_to_bytes(v),
{
    let mut r: Vec<u8> = Vec::new();
    r.push((v / 0x1000000) as u8);
    r.push(((v / 0x10000) % 256) as u8);
    r.push(((v / 256) % 256) as u8);
    r.push((v % 256) as u8);
    proof {
        assert(r@ =~= spec_u32_to_bytes(v));
    }
    r
}

/// A wire element: a value that can be read from the front of a byte
/// buffer and written back as bytes.
///
/// The model of an element (its `View`) is the mathematical value it
/// carries; `spec_dec` and `spec_enc` say what decoding and encoding
/// mean on models, and the executable `from_bytes` / `to_bytes` are
/// proved against them.  Every implementation also proves the two
/// laws every element kind obeys: the round-trip law and the
/// insufficient-input law.
pub trait BytesSerializable: View + Sized {
    /// Which models are valid values of this element kind.
    spec fn spec_inv(m: Self::V) -> bool;

    /// The value's internal invariant.
    spec fn wf(&self) -> bool;

    /// The encoding of a model.
    spec fn spec_enc(m: Self::V) -> Seq<u8>;

    /// The decode of a buffer: the model read from its prefix, and the
    /// unconsumed rest; or the error.
    spec fn spec_dec(data: Seq<u8>) -> Result<(Self::V, Seq<u8>), SerializationError>;

    /// The least number of bytes this element kind requires.
    spec fn spec_min_len() -> nat;

    /// Whether the element consumes the whole buffer.  Such an element
    /// leaves no room for trailing bytes, so the round-trip law admits
    /// none for it.
    spec fn spec_takes_all() -> bool;

    /// A well-formed value carries a valid model.
    proof fn lemma_wf_inv(&self)
        requires
            self.wf(),
        ensures
            Self::spec_inv(self@),
    ;

    /// Round-trip law: decoding an encoding yields the value back and
    /// leaves exactly the trailing bytes unconsumed.
    proof fn lemma_round_trip(m: Self::V, trailing: Seq<u8>)
        requires
            Self::spec_inv(m),
            Self::spec_takes_all() ==> trailing == Seq::<u8>::empty(),
        ensures
            Self::spec_dec(Self::spec_enc(m) + trailing) == Ok::<
                (Self::V, Seq<u8>),
                SerializationError,
            >((m, trailing)),
    ;

    /// Insufficient-input law: a buffer shorter than the minimum
    /// requirement decodes to `TooFewBytes`, never anything else.
    proof fn lemma_too_few_bytes(data: Seq<u8>)
        requires
            data.len() < Self::spec_min_len(),
        ensures
            Self::spec_dec(data) == Err::<(Self::V, Seq<u8>), SerializationError>(
                SerializationError::TooFewBytes,
            ),
    ;

    /// Decodes a value from the front of `data`, returning it with the
    /// unconsumed rest of the buffer.
    fn from_bytes(data: &[u8]) -> (r: Result<(Self, &[u8]), SerializationError>)
        ensures
            match r {
                Ok(pair) => pair.0.wf() && Self::spec_dec(data@) == Ok::<
                    (Self::V, Seq<u8>),
                    SerializationError,
                >((pair.0@, pair.1@)),
                Err(e) => Self::spec_dec(data@) == Err::<(Self::V, Seq<u8>), SerializationError>(
                    e,
                ),
            },
    ;

    /// Encodes the value as bytes.
    fn to_bytes(&self) -> (r: Vec<u8>)
        requires
            self.wf(),
        ensures
            r@ == Self::spec_enc(self@),
    ;
}

/// The 2-byte big-endian message type tag that prefixes every message.
#[derive(Debug)]
pub struct MessageTypeWire {
    pub id: u16,
}

impl MessageTypeWire {
    /// Wraps the wire code of a message type.
    pub fn new(mtype: MessageTypeEnum) -> (r: Self)
        ensures
            r.wf(),
            r.id == spec_message_type_code(mtype),
    {
        MessageTypeWire { id: mtype.as_u16() }
    }
}

impl View for MessageTypeWire {
    type V = u16;

    open spec fn view(&self) -> u16 {
        self.id
    }
}

impl BytesSerializable for MessageTypeWire {
    open spec fn spec_inv(m: u16) -> bool {
        true
    }

    open spec fn wf(&self) -> bool {
        true
    }

    open spec fn spec_enc(m: u16) -> Seq<u8> {
        spec_u16_to_bytes(m)
    }

    open spec fn spec_dec(data: Seq<u8>) -> Result<(u16, Seq<u8>), SerializationError> {
        if data.len() < 2 {
            Err(SerializationError::TooFewBytes)
        } else {
            Ok((spec_be16(data[0], data[1]), data.skip(2)))
        }
    }

    open spec fn spec_min_len() -> nat {
        2
    }

    open spec fn spec_takes_all() -> bool {
        false
    }

    proof fn lemma_wf_inv(&self) {
    }

    proof fn lemma_round_trip(m: u16, trailing: Seq<u8>) {
        let data = Self::spec_enc(m) + trailing;
        lemma_be16_round_trip(m);
        assert(data.skip(2) =~= trailing);
    }

    proof fn lemma_too_few_bytes(data: Seq<u8>) {
    }

    fn from_bytes(data: &[u8]) -> (r: Result<(Self, &[u8]), SerializationError>) {
        if data.len() < 2 {
            return Err(SerializationError::TooFewBytes);
        }
        let id = read_be16(data[0], data[1]);
        let rest = slice_subrange(data, 2, data.len());
        proof {
            assert(rest@ =~= data@.skip(2));
        }
        Ok((MessageTypeWire { id }, rest))
    }

    fn to_bytes(&self) -> (r: Vec<u8>) {
        write_be16(self.id)
    }
}

/// A variable-length byte block prefixed by its 2-byte big-endian
/// length.
#[derive(Debug)]
pub struct U16SizedBytesWire {
    pub num_bytes: u16,
    pub data: Vec<u8>,
}

impl U16SizedBytesWire {
    /// Wraps a byte block, recording its length in the prefix field.
    pub fn new(data: Vec<u8>) -> (r: Self)
        requires
            data@.len() <= u16::MAX,
        ensures
            r.wf(),
            r@ == data@,
    {
        let num_bytes = data.len() as u16;
        U16SizedBytesWire { num_bytes, data }
    }
}

impl View for U16SizedBytesWire {
    type V = Seq<u8>;

    open spec fn view(&self) -> Seq<u8> {
        self.data@
    }
}

impl BytesSerializable for U16SizedBytesWire {
    open spec fn spec_inv(m: Seq<u8>) -> bool {
        m.len() <= u16::MAX
    }

    open spec fn wf(&self) -> bool {
        self.num_bytes == self.data@.len()
    }

    open spec fn spec_enc(m: Seq<u8>) -> Seq<u8> {
        spec_u16_to_bytes(m.len() as u16) + m
    }

    open spec fn spec_dec(data: Seq<u8>) -> Result<(Seq<u8>, Seq<u8>), SerializationError> {
        if data.len() < 2 {
            Err(SerializationError::TooFewBytes)
        } else {
            let l = spec_be16(data[0], data[1]) as int;
            if data.len() < 2 + l {
                Err(SerializationError::TooFewBytes)
            } else {
                Ok((data.subrange(2, 2 + l), data.skip(2 + l)))
            }
        }
    }

    open spec fn spec_min_len() -> nat {
        2
    }

    open spec fn spec_takes_all() -> bool {
        false
    }

    proof fn lemma_wf_inv(&self) {
    }

    proof fn lemma_round_trip(m: Seq<u8>, trailing: Seq<u8>) {
        let data = Self::spec_enc(m) + trailing;
        lemma_be16_round_trip(m.len() as u16);
        let l = spec_be16(data[0], data[1]) as int;
        assert(l == m.len());
        assert(data.subrange(2, 2 + l) =~= m);
        assert(data.skip(2 + l) =~= trailing);
    }

    proof fn lemma_too_few_bytes(data: Seq<u8>) {
    }

    fn from_bytes(data: &[u8]) -> (r: Result<(Self, &[u8]), SerializationError>) {
        if data.len() < 2 {
            return Err(SerializationError::TooFewBytes);
        }
        let num_bytes = read_be16(data[0], data[1]);
        let end: usize = 2 + num_bytes as usize;
        if data.len() < end {
            return Err(SerializationError::TooFewBytes);
        }
        let our_data = slice_to_vec(slice_subrange(data, 2, end));
        let rest = slice_subrange(data, end, data.len());
        proof {
            assert(rest@ =~= data@.skip(2 + num_bytes as int));
        }
        Ok((U16SizedBytesWire { num_bytes, data: our_data }, rest))
    }

    fn to_bytes(&self) -> (r: Vec<u8>) {
        let mut bytes = write_be16(self.num_bytes);
        let mut body = slice_to_vec(self.data.as_slice());
        bytes.append(&mut body);
        proof {
            assert(bytes@ =~= Self::spec_enc(self@));
        }
        bytes
    }
}

/// A single byte.
#[derive(Debug)]
pub struct SingleByteWire {
    pub value: u8,
}

impl View for SingleByteWire {
    type V = u8;

    open spec fn view(&self) -> u8 {
        self.value
    }
}

impl BytesSerializable for SingleByteWire {
    open spec fn spec_inv(m: u8) -> bool {
        true
    }

    open spec fn wf(&self) -> bool {
        true
    }

    open spec fn spec_enc(m: u8) -> Seq<u8> {
        seq![m]
    }

    open spec fn spec_dec(data: Seq<u8>) -> Result<(u8, Seq<u8>), SerializationError> {
        if data.len() < 1 {
            Err(SerializationError::TooFewBytes)
        } else {
            Ok((data[0], data.skip(1)))
        }
    }

    open spec fn spec_min_len() -> nat {
        1
    }

    open spec fn spec_takes_all() -> bool {
        false
    }

    proof fn lemma_wf_inv(&self) {
    }

    proof fn lemma_round_trip(m: u8, trailing: Seq<u8>) {
        let data = Self::spec_enc(m) + trailing;
        assert(data.skip(1) =~= trailing);
    }

    proof fn lemma_too_few_bytes(data: Seq<u8>) {
    }

    fn from_bytes(data: &[u8]) -> (r: Result<(Self, &[u8]), SerializationError>) {
        if data.len() < 1 {
            return Err(SerializationError::TooFewBytes);
        }
        let value = data[0];
        let rest = slice_subrange(data, 1, data.len());
        proof {
            assert(rest@ =~= data@.skip(1));
        }
        Ok((SingleByteWire { value }, rest))
    }

    fn to_bytes(&self) -> (r: Vec<u8>) {
        let mut r: Vec<u8> = Vec::new();
        r.push(self.value);
        proof {
            assert(r@ =~= Self::spec_enc(self@));
        }
        r
    }
}

/// A 3-byte red-green-blue colour block.
#[derive(Debug)]
pub struct RGBColorWire {
    pub bytes: Vec<u8>,
}

impl View for RGBColorWire {
    type V = Seq<u8>;

    open spec fn view(&self) -> Seq<u8> {
        self.bytes@
    }
}

impl BytesSerializable for RGBColorWire {
    open spec fn spec_inv(m: Seq<u8>) -> bool {
        m.len() == 3
    }

    open spec fn wf(&self) -> bool {
        self.bytes@.len() == 3
    }

    open spec fn spec_enc(m: Seq<u8>) -> Seq<u8> {
        m
    }

    open spec fn spec_dec(data: Seq<u8>) -> Result<(Seq<u8>, Seq<u8>), SerializationError> {
        if data.len() < 3 {
            Err(SerializationError::TooFewBytes)
        } else {
            Ok((data.take(3), data.skip(3)))
        }
    }

    open spec fn spec_min_len() -> nat {
        3
    }

    open spec fn spec_takes_all() -> bool {
        false
    }

    proof fn lemma_wf_inv(&self) {
    }

    proof fn lemma_round_trip(m: Seq<u8>, trailing: Seq<u8>) {
        let data = Self::spec_enc(m) + trailing;
        assert(data.take(3) =~= m);
        assert(data.skip(3) =~= trailing);
    }

    proof fn lemma_too_few_bytes(data: Seq<u8>) {
    }

    fn from_bytes(data: &[u8]) -> (r: Result<(Self, &[u8]), SerializationError>) {
        if data.len() < 3 {
            return Err(SerializationError::TooFewBytes);
        }
        let bytes = slice_to_vec(slice_subrange(data, 0, 3));
        let rest = slice_subrange(data, 3, data.len());
        proof {
            assert(bytes@ =~= data@.take(3));
            assert(rest@ =~= data@.skip(3));
        }
        Ok((RGBColorWire { bytes }, rest))
    }

    fn to_bytes(&self) -> (r: Vec<u8>) {
        slice_to_vec(self.bytes.as_slice())
    }
}

/// A big-endian 16-bit integer element.
#[derive(Debug)]
pub struct U16IntWire {
    pub value: u16,
}

impl U16IntWire {
    /// Wraps a 16-bit integer value.
    pub fn new(value: u16) -> (r: Self)
        ensures
            r.wf(),
            r@ == value,
    {
        U16IntWire { value }
    }
}

impl View for U16IntWire {
    type V = u16;

    open spec fn view(&self) -> u16 {
        self.value
    }
}

impl BytesSerializable for U16IntWire {
    open spec fn spec_inv(m: u16) -> bool {
        true
    }

    open spec fn wf(&self) -> bool {
        true
    }

    open spec fn spec_enc(m: u16) -> Seq<u8> {
        spec_u16_to_bytes(m)
    }

    open spec fn spec_dec(data: Seq<u8>) -> Result<(u16, Seq<u8>), SerializationError> {
        if data.len() < 2 {
            Err(SerializationError::TooFewBytes)
        } else {
            Ok((spec_be16(data[0], data[1]), data.skip(2)))
        }
    }

    open spec fn spec_min_len() -> nat {
        2
    }

    open spec fn spec_takes_all() -> bool {
        false
    }

    proof fn lemma_wf_inv(&self) {
    }

    proof fn lemma_round_trip(m: u16, trailing: Seq<u8>) {
        let data = Self::spec_enc(m) + trailing;
        lemma_be16_round_trip(m);
        assert(data.skip(2) =~= trailing);
    }

    proof fn lemma_too_few_bytes(data: Seq<u8>) {
    }

    fn from_bytes(data: &[u8]) -> (r: Result<(Self, &[u8]), SerializationError>) {
        if data.len() < 2 {
            return Err(SerializationError::TooFewBytes);
        }
        let value = read_be16(data[0], data[1]);
        let rest = slice_subrange(data, 2, data.len());
        proof {
            assert(rest@ =~= data@.skip(2));
        }
        Ok((U16IntWire { value }, rest))
    }

    fn to_bytes(&self) -> (r: Vec<u8>) {
        write_be16(self.value)
    }
}

/// A big-endian 32-bit integer element.
#[derive(Debug)]
pub struct U32SerializedElement {
    pub value: u32,
}

impl U32SerializedElement {
    /// Wraps a 32-bit integer value.
    pub fn new(value: u32) -> (r: Self)
        ensures
            r.wf(),
            r@ == value,
    {
        U32SerializedElement { value }
    }
}

impl View for U32SerializedElement {
    type V = u32;

    open spec fn view(&self) -> u32 {
        self.value
    }
}

impl BytesSerializable for U32SerializedElement {
    open spec fn spec_inv(m: u32) -> bool {
        true
    }

    open spec fn wf(&self) -> bool {
        true
    }

    open spec fn spec_enc(m: u32) -> Seq<u8> {
        spec_u32_to_bytes(m)
    }

    open spec fn spec_dec(data: Seq<u8>) -> Result<(u32, Seq<u8>), SerializationError> {
        if data.len() < 4 {
            Err(SerializationError::TooFewBytes)
        } else {
            Ok((spec_be32(data[0], data[1], data[2], data[3]), data.skip(4)))
        }
    }

    open spec fn spec_min_len() -> nat {
        4
    }

    open spec fn spec_takes_all() -> bool {
        false
    }

    proof fn lemma_wf_inv(&self) {
    }

    proof fn lemma_round_trip(m: u32, trailing: Seq<u8>) {
        let data = Self::spec_enc(m) + trailing;
        lemma_be32_round_trip(m);
        assert(data.skip(4) =~= trailing);
    }

    proof fn lemma_too_few_bytes(data: Seq<u8>) {
    }

    fn from_bytes(data: &[u8]) -> (r: Result<(Self, &[u8]), SerializationError>) {
        if data.len() < 4 {
            return Err(SerializationError::TooFewBytes);
        }
        let value = read_be32(data[0], data[1], data[2], data[3]);
        let rest = slice_subrange(data, 4, data.len());
        proof {
            assert(rest@ =~= data@.skip(4));
        }
        Ok((U32SerializedElement { value }, rest))
    }

    fn to_bytes(&self) -> (r: Vec<u8>) {
        write_be32(self.value)
    }
}

/// A fixed-width block of 64 bytes (a signature).
#[derive(Debug)]
pub struct Wire64Bytes {
    pub data: Vec<u8>,
}

impl View for Wire64Bytes {
    type V = Seq<u8>;

    open spec fn view(&self) -> Seq<u8> {
        self.data@
    }
}

impl BytesSerializable for Wire64Bytes {
    open spec fn spec_inv(m: Seq<u8>) -> bool {
        m.len() == 64
    }

    open spec fn wf(&self) -> bool {
        self.data@.len() == 64
    }

    open spec fn spec_enc(m: Seq<u8>) -> Seq<u8> {
        m
    }

    open spec fn spec_dec(data: Seq<u8>) -> Result<(Seq<u8>, Seq<u8>), SerializationError> {
        if data.len() < 64 {
            Err(SerializationError::TooFewBytes)
        } else {
            Ok((data.take(64), data.skip(64)))
        }
    }

    open spec fn spec_min_len() -> nat {
        64
    }

    open spec fn spec_takes_all() -> bool {
        false
    }

    proof fn lemma_wf_inv(&self) {
    }

    proof fn lemma_round_trip(m: Seq<u8>, trailing: Seq<u8>) {
        let data = Self::spec_enc(m) + trailing;
        assert(data.take(64) =~= m);
        assert(data.skip(64) =~= trailing);
    }

    proof fn lemma_too_few_bytes(data: Seq<u8>) {
    }

    fn from_bytes(data: &[u8]) -> (r: Result<(Self, &[u8]), SerializationError>) {
        if data.len() < 64 {
            return Err(SerializationError::TooFewBytes);
        }
        let bytes = slice_to_vec(slice_subrange(data, 0, 64));
        let rest = slice_subrange(data, 64, data.len());
        proof {
            assert(bytes@ =~= data@.take(64));
            assert(rest@ =~= data@.skip(64));
        }
        Ok((Wire64Bytes { data: bytes }, rest))
    }

    fn to_bytes(&self) -> (r: Vec<u8>) {
        slice_to_vec(self.data.as_slice())
    }
}

/// A fixed-width block of 32 bytes (a chain hash or a node alias).
#[derive(Debug)]
pub struct Wire32Bytes {
    pub data: Vec<u8>,
}

impl View for Wire32Bytes {
    type V = Seq<u8>;

    open spec fn view(&self) -> Seq<u8> {
        self.data@
    }
}

impl BytesSerializable for Wire32Bytes {
    open spec fn spec_inv(m: Seq<u8>) -> bool {
        m.len() == 32
    }

    open spec fn wf(&self) -> bool {
        self.data@.len() == 32
    }

    open spec fn spec_enc(m: Seq<u8>) -> Seq<u8> {
        m
    }

    open spec fn spec_dec(data: Seq<u8>) -> Result<(Seq<u8>, Seq<u8>), SerializationError> {
        if data.len() < 32 {
            Err(SerializationError::TooFewBytes)
        } else {
            Ok((data.take(32), data.skip(32)))
        }
    }

    open spec fn spec_min_len() -> nat {
        32
    }

    open spec fn spec_takes_all() -> bool {
        false
    }

    proof fn lemma_wf_inv(&self) {
    }

    proof fn lemma_round_trip(m: Seq<u8>, trailing: Seq<u8>) {
        let data = Self::spec_enc(m) + trailing;
        assert(data.take(32) =~= m);
        assert(data.skip(32) =~= trailing);
    }

    proof fn lemma_too_few_bytes(data: Seq<u8>) {
    }

    fn from_bytes(data: &[u8]) -> (r: Result<(Self, &[u8]), SerializationError>) {
        if data.len() < 32 {
            return Err(SerializationError::TooFewBytes);
        }
        let bytes = slice_to_vec(slice_subrange(data, 0, 32));
        let rest = slice_subrange(data, 32, data.len());
        proof {
            assert(bytes@ =~= data@.take(32));
            assert(rest@ =~= data@.skip(32));
        }
        Ok((Wire32Bytes { data: bytes }, rest))
    }

    fn to_bytes(&self) -> (r: Vec<u8>) {
        slice_to_vec(self.data.as_slice())
    }
}

/// A fixed-width block of 33 bytes (a compressed public key).
#[derive(Debug)]
pub struct Wire33Bytes {
    pub data: Vec<u8>,
}

impl View for Wire33Bytes {
    type V = Seq<u8>;

    open spec fn view(&self) -> Seq<u8> {
        self.data@
    }
}

impl BytesSerializable for Wire33Bytes {
    open spec fn spec_inv(m: Seq<u8>) -> bool {
        m.len() == 33
    }

    open spec fn wf(&self) -> bool {
        self.data@.len() == 33
    }

    open spec fn spec_enc(m: Seq<u8>) -> Seq<u8> {
        m
    }

    open spec fn spec_dec(data: Seq<u8>) -> Result<(Seq<u8>, Seq<u8>), SerializationError> {
        if data.len() < 33 {
            Err(SerializationError::TooFewBytes)
        } else {
            Ok((data.take(33), data.skip(33)))
        }
    }

    open spec fn spec_min_len() -> nat {
        33
    }

    open spec fn spec_takes_all() -> bool {
        false
    }

    proof fn lemma_wf_inv(&self) {
    }

    proof fn lemma_round_trip(m: Seq<u8>, trailing: Seq<u8>) {
        let data = Self::spec_enc(m) + trailing;
        assert(data.take(33) =~= m);
        assert(data.skip(33) =~= trailing);
    }

    proof fn lemma_too_few_bytes(data: Seq<u8>) {
    }

    fn from_bytes(data: &[u8]) -> (r: Result<(Self, &[u8]), SerializationError>) {
        if data.len() < 33 {
            return Err(SerializationError::TooFewBytes);
        }
        let bytes = slice_to_vec(slice_subrange(data, 0, 33));
        let rest = slice_subrange(data, 33, data.len());
        proof {
            assert(bytes@ =~= data@.take(33));
            assert(rest@ =~= data@.skip(33));
        }
        Ok((Wire33Bytes { data: bytes }, rest))
    }

    fn to_bytes(&self) -> (r: Vec<u8>) {
        slice_to_vec(self.data.as_slice())
    }
}

/// A fixed-width block of 8 bytes (a short channel identifier).
#[derive(Debug)]
pub struct Bytes8Element {
    pub data: Vec<u8>,
}

impl View for Bytes8Element {
    type V = Seq<u8>;

    open spec fn view(&self) -> Seq<u8> {
        self.data@
    }
}

impl BytesSerializable for Bytes8Element {
    open spec fn spec_inv(m: Seq<u8>) -> bool {
        m.len() == 8
    }

    open spec fn wf(&self) -> bool {
        self.data@.len() == 8
    }

    open spec fn spec_enc(m: Seq<u8>) -> Seq<u8> {
        m
    }

    open spec fn spec_dec(data: Seq<u8>) -> Result<(Seq<u8>, Seq<u8>), SerializationError> {
        if data.len() < 8 {
            Err(SerializationError::TooFewBytes)
        } else {
            Ok((data.take(8), data.skip(8)))
        }
    }

    open spec fn spec_min_len() -> nat {
        8
    }

    open spec fn spec_takes_all() -> bool {
        false
    }

    proof fn lemma_wf_inv(&self) {
    }

    proof fn lemma_round_trip(m: Seq<u8>, trailing: Seq<u8>) {
        let data = Self::spec_enc(m) + trailing;
        assert(data.take(8) =~= m);
        assert(data.skip(8) =~= trailing);
    }

    proof fn lemma_too_few_bytes(data: Seq<u8>) {
    }

    fn from_bytes(data: &[u8]) -> (r: Result<(Self, &[u8]), SerializationError>) {
        if data.len() < 8 {
            return Err(SerializationError::TooFewBytes);
        }
        let bytes = slice_to_vec(slice_subrange(data, 0, 8));
        let rest = slice_subrange(data, 8, data.len());
        proof {
            assert(bytes@ =~= data@.take(8));
            assert(rest@ =~= data@.skip(8));
        }
        Ok((Bytes8Element { data: bytes }, rest))
    }

    fn to_bytes(&self) -> (r: Vec<u8>) {
        slice_to_vec(self.data.as_slice())
    }
}

/// A remainder block: consumes every byte left in the buffer, leaving
/// it empty.  By construction this kind is only valid as the final
/// field of a schema.
#[derive(Debug)]
pub struct RemainderTypeWire {
    pub data: Vec<u8>,
}

impl RemainderTypeWire {
    /// Wraps a byte block.
    pub fn new(data: Vec<u8>) -> (r: Self)
        ensures
            r.wf(),
            r@ == data@,
    {
        RemainderTypeWire { data }
    }
}

impl View for RemainderTypeWire {
    type V = Seq<u8>;

    open spec fn view(&self) -> Seq<u8> {
        self.data@
    }
}

impl BytesSerializable for RemainderTypeWire {
    open spec fn spec_inv(m: Seq<u8>) -> bool {
        true
    }

    open spec fn wf(&self) -> bool {
        true
    }

    open spec fn spec_enc(m: Seq<u8>) -> Seq<u8> {
        m
    }

    open spec fn spec_dec(data: Seq<u8>) -> Result<(Seq<u8>, Seq<u8>), SerializationError> {
        Ok((data, Seq::empty()))
    }

    open spec fn spec_min_len() -> nat {
        0
    }

    open spec fn spec_takes_all() -> bool {
        true
    }

    proof fn lemma_wf_inv(&self) {
    }

    proof fn lemma_round_trip(m: Seq<u8>, trailing: Seq<u8>) {
        assert(Self::spec_enc(m) + trailing =~= m);
    }

    proof fn lemma_too_few_bytes(data: Seq<u8>) {
    }

    fn from_bytes(data: &[u8]) -> (r: Result<(Self, &[u8]), SerializationError>) {
        let bytes = slice_to_vec(data);
        let rest = slice_subrange(data, data.len(), data.len());
        proof {
            assert(rest@ =~= Seq::<u8>::empty());
        }
        Ok((RemainderTypeWire { data: bytes }, rest))
    }

    fn to_bytes(&self) -> (r: Vec<u8>) {
        slice_to_vec(self.data.as_slice())
    }
}


/// The element kinds a message schema can name.
#[derive(Debug, Clone, Copy, PartialEq, Eq, Structural)]
pub enum SerializableTypes {
    MessageType,
    U16SizedBytes,
    SingleByte,
    RGBColor,
    U16Int,
    U32Int,
    Bytes8,
    Bytes32,
    Bytes33,
    Bytes64,
    Remainder,
}

/// The model of a wire element: the mathematical value one
/// `SerializableElement` carries, tagged by its kind.
pub enum ElemValue {
    MsgType(u16),
    U16Sized(Seq<u8>),
    Byte(u8),
    Rgb(Seq<u8>),
    U16(u16),
    U32(u32),
    B8(Seq<u8>),
    B32(Seq<u8>),
    B33(Seq<u8>),
    B64(Seq<u8>),
    Remainder(Seq<u8>),
}

/// A decoded wire element of any kind.
#[derive(Debug)]
pub enum SerializableElement {
    MessageType(MessageTypeWire),
    U16SizedBytes(U16SizedBytesWire),
    SingleByte(SingleByteWire),
    RGBColor(RGBColorWire),
    U16Int(U16IntWire),
    U32Int(U32SerializedElement),
    Bytes8(Bytes8Element),
    Bytes32(Wire32Bytes),
    Bytes33(Wire33Bytes),
    Bytes64(Wire64Bytes),
    Remainder(RemainderTypeWire),
}

impl View for SerializableElement {
    type V = ElemValue;

    open spec fn view(&self) -> ElemValue {
        match self {
            SerializableElement::MessageType(w) => ElemValue::MsgType(w@),
            SerializableElement::U16SizedBytes(w) => ElemValue::U16Sized(w@),
            SerializableElement::SingleByte(w) => ElemValue::Byte(w@),
            SerializableElement::RGBColor(w) => ElemValue::Rgb(w@),
            SerializableElement::U16Int(w) => ElemValue::U16(w@),
            SerializableElement::U32Int(w) => ElemValue::U32(w@),
            SerializableElement::Bytes8(w) => ElemValue::B8(w@),
            SerializableElement::Bytes32(w) => ElemValue::B32(w@),
            SerializableElement::Bytes33(w) => ElemValue::B33(w@),
            SerializableElement::Bytes64(w) => ElemValue::B64(w@),
            SerializableElement::Remainder(w) => ElemValue::Remainder(w@),
        }
    }
}

/// The kind an element model belongs to.
pub open spec fn spec_elem_kind(v: ElemValue) -> SerializableTypes {
    match v {
        ElemValue::MsgType(_) => SerializableTypes::MessageType,
        ElemValue::U16Sized(_) => SerializableTypes::U16SizedBytes,
        ElemValue::Byte(_) => SerializableTypes::SingleByte,
        ElemValue::Rgb(_) => SerializableTypes::RGBColor,
        ElemValue::U16(_) => SerializableTypes::U16Int,
        ElemValue::U32(_) => SerializableTypes::U32Int,
        ElemValue::B8(_) => SerializableTypes::Bytes8,
        ElemValue::B32(_) => SerializableTypes::Bytes32,
        ElemValue::B33(_) => SerializableTypes::Bytes33,
        ElemValue::B64(_) => SerializableTypes::Bytes64,
        ElemValue::Remainder(_) => SerializableTypes::Remainder,
    }
}

/// Validity of an element model, by its kind.
pub open spec fn spec_elem_inv(v: ElemValue) -> bool {
    match v {
        ElemValue::MsgType(m) => MessageTypeWire::spec_inv(m),
        ElemValue::U16Sized(m) => U16SizedBytesWire::spec_inv(m),
        ElemValue::Byte(m) => SingleByteWire::spec_inv(m),
        ElemValue::Rgb(m) => RGBColorWire::spec_inv(m),
        ElemValue::U16(m) => U16IntWire::spec_inv(m),
        ElemValue::U32(m) => U32SerializedElement::spec_inv(m),
        ElemValue::B8(m) => Bytes8Element::spec_inv(m),
        ElemValue::B32(m) => Wire32Bytes::spec_inv(m),
        ElemValue::B33(m) => Wire33Bytes::spec_inv(m),
        ElemValue::B64(m) => Wire64Bytes::spec_inv(m),
        ElemValue::Remainder(m) => RemainderTypeWire::spec_inv(m),
    }
}

/// The encoding of an element model.
pub open spec fn spec_elem_enc(v: ElemValue) -> Seq<u8> {
    match v {
        ElemValue::MsgType(m) => MessageTypeWire::spec_enc(m),
        ElemValue::U16Sized(m) => U16SizedBytesWire::spec_enc(m),
        ElemValue::Byte(m) => SingleByteWire::spec_enc(m),
        ElemValue::Rgb(m) => RGBColorWire::spec_enc(m),
        ElemValue::U16(m) => U16IntWire::spec_enc(m),
        ElemValue::U32(m) => U32SerializedElement::spec_enc(m),
        ElemValue::B8(m) => Bytes8Element::spec_enc(m),
        ElemValue::B32(m) => Wire32Bytes::spec_enc(m),
        ElemValue::B33(m) => Wire33Bytes::spec_enc(m),
        ElemValue::B64(m) => Wire64Bytes::spec_enc(m),
        ElemValue::Remainder(m) => RemainderTypeWire::spec_enc(m),
    }
}

/// The decode of one element of the given kind from the front of a
/// buffer.
pub open spec fn spec_elem_dec(kind: SerializableTypes, data: Seq<u8>) -> Result<
    (ElemValue, Seq<u8>),
    SerializationError,
> {
    match kind {
        SerializableTypes::MessageType => match MessageTypeWire::spec_dec(data) {
            Ok(p) => Ok((ElemValue::MsgType(p.0), p.1)),
            Err(e) => Err(e),
        },
        SerializableTypes::U16SizedBytes => match U16SizedBytesWire::spec_dec(data) {
            Ok(p) => Ok((ElemValue::U16Sized(p.0), p.1)),
            Err(e) => Err(e),
        },
        SerializableTypes::SingleByte => match SingleByteWire::spec_dec(data) {
            Ok(p) => Ok((ElemValue::Byte(p.0), p.1)),
            Err(e) => Err(e),
        },
        SerializableTypes::RGBColor => match RGBColorWire::spec_dec(data) {
            Ok(p) => Ok((ElemValue::Rgb(p.0), p.1)),
            Err(e) => Err(e),
        },
        SerializableTypes::U16Int => match U16IntWire::spec_dec(data) {
            Ok(p) => Ok((ElemValue::U16(p.0), p.1)),
            Err(e) => Err(e),
        },
        SerializableTypes::U32Int => match U32SerializedElement::spec_dec(data) {
            Ok(p) => Ok((ElemValue::U32(p.0), p.1)),
            Err(e) => Err(e),
        },
        SerializableTypes::Bytes8 => match Bytes8Element::spec_dec(data) {
            Ok(p) => Ok((ElemValue::B8(p.0), p.1)),
            Err(e) => Err(e),
        },
        SerializableTypes::Bytes32 => match Wire32Bytes::spec_dec(data) {
            Ok(p) => Ok((ElemValue::B32(p.0), p.1)),
            Err(e) => Err(e),
        },
        SerializableTypes::Bytes33 => match Wire33Bytes::spec_dec(data) {
            Ok(p) => Ok((ElemValue::B33(p.0), p.1)),
            Err(e) => Err(e),
        },
        SerializableTypes::Bytes64 => match Wire64Bytes::spec_dec(data) {
            Ok(p) => Ok((ElemValue::B64(p.0), p.1)),
            Err(e) => Err(e),
        },
        SerializableTypes::Remainder => match RemainderTypeWire::spec_dec(data) {
            Ok(p) => Ok((ElemValue::Remainder(p.0), p.1)),
            Err(e) => Err(e),
        },
    }
}

/// The least number of bytes an element of the given kind requires.
pub open spec fn spec_elem_min_len(kind: SerializableTypes) -> nat {
    match kind {
        SerializableTypes::MessageType => MessageTypeWire::spec_min_len(),
        SerializableTypes::U16SizedBytes => U16SizedBytesWire::spec_min_len(),
        SerializableTypes::SingleByte => SingleByteWire::spec_min_len(),
        SerializableTypes::RGBColor => RGBColorWire::spec_min_len(),
        SerializableTypes::U16Int => U16IntWire::spec_min_len(),
        SerializableTypes::U32Int => U32SerializedElement::spec_min_len(),
        SerializableTypes::Bytes8 => Bytes8Element::spec_min_len(),
        SerializableTypes::Bytes32 => Wire32Bytes::spec_min_len(),
        SerializableTypes::Bytes33 => Wire33Bytes::spec_min_len(),
        SerializableTypes::Bytes64 => Wire64Bytes::spec_min_len(),
        SerializableTypes::Remainder => RemainderTypeWire::spec_min_len(),
    }
}

/// Whether elements of the given kind consume the whole buffer.
pub open spec fn spec_kind_takes_all(kind: SerializableTypes) -> bool {
    kind == SerializableTypes::Remainder
}

impl SerializableElement {
    /// Well-formedness of a decoded element: its inner value's
    /// invariant.
    pub open spec fn wf(&self) -> bool {
        match self {
            SerializableElement::MessageType(w) => w.wf(),
            SerializableElement::U16SizedBytes(w) => w.wf(),
            SerializableElement::SingleByte(w) => w.wf(),
            SerializableElement::RGBColor(w) => w.wf(),
            SerializableElement::U16Int(w) => w.wf(),
            SerializableElement::U32Int(w) => w.wf(),
            SerializableElement::Bytes8(w) => w.wf(),
            SerializableElement::Bytes32(w) => w.wf(),
            SerializableElement::Bytes33(w) => w.wf(),
            SerializableElement::Bytes64(w) => w.wf(),
            SerializableElement::Remainder(w) => w.wf(),
        }
    }

    /// A well-formed element carries a valid model.
    pub proof fn lemma_wf_inv(&self)
        requires
            self.wf(),
        ensures
            spec_elem_inv(self@),
    {
        match self {
            SerializableElement::MessageType(w) => w.lemma_wf_inv(),
            SerializableElement::U16SizedBytes(w) => w.lemma_wf_inv(),
            SerializableElement::SingleByte(w) => w.lemma_wf_inv(),
            SerializableElement::RGBColor(w) => w.lemma_wf_inv(),
            SerializableElement::U16Int(w) => w.lemma_wf_inv(),
            SerializableElement::U32Int(w) => w.lemma_wf_inv(),
            SerializableElement::Bytes8(w) => w.lemma_wf_inv(),
            SerializableElement::Bytes32(w) => w.lemma_wf_inv(),
            SerializableElement::Bytes33(w) => w.lemma_wf_inv(),
            SerializableElement::Bytes64(w) => w.lemma_wf_inv(),
            SerializableElement::Remainder(w) => w.lemma_wf_inv(),
        }
    }

    /// Decodes one element of the given kind from the front of `data`.
    pub fn decode(kind: SerializableTypes, data: &[u8]) -> (r: Result<
        (Self, &[u8]),
        SerializationError,
    >)
        ensures
            match r {
                Ok(pair) => pair.0.wf() && spec_elem_kind(pair.0@) == kind && spec_elem_dec(
                    kind,
                    data@,
                ) == Ok::<(ElemValue, Seq<u8>), SerializationError>((pair.0@, pair.1@)),
                Err(e) => spec_elem_dec(kind, data@) == Err::<
                    (ElemValue, Seq<u8>),
                    SerializationError,
                >(e),
            },
    {
        match kind {
            SerializableTypes::MessageType => {
                let (w, rest) = MessageTypeWire::from_bytes(data)?;
                Ok((SerializableElement::MessageType(w), rest))
            },
            SerializableTypes::U16SizedBytes => {
                let (w, rest) = U16SizedBytesWire::from_bytes(data)?;
                Ok((SerializableElement::U16SizedBytes(w), rest))
            },
            SerializableTypes::SingleByte => {
                let (w, rest) = SingleByteWire::from_bytes(data)?;
                Ok((SerializableElement::SingleByte(w), rest))
            },
            SerializableTypes::RGBColor => {
                let (w, rest) = RGBColorWire::from_bytes(data)?;
                Ok((SerializableElement::RGBColor(w), rest))
            },
            SerializableTypes::U16Int => {
                let (w, rest) = U16IntWire::from_bytes(data)?;
                Ok((SerializableElement::U16Int(w), rest))
            },
            SerializableTypes::U32Int => {
                let (w, rest) = U32SerializedElement::from_bytes(data)?;
                Ok((SerializableElement::U32Int(w), rest))
            },
            SerializableTypes::Bytes8 => {
                let (w, rest) = Bytes8Element::from_bytes(data)?;
                Ok((SerializableElement::Bytes8(w), rest))
            },
            SerializableTypes::Bytes32 => {
                let (w, rest) = Wire32Bytes::from_bytes(data)?;
                Ok((SerializableElement::Bytes32(w), rest))
            },
            SerializableTypes::Bytes33 => {
                let (w, rest) = Wire33Bytes::from_bytes(data)?;
                Ok((SerializableElement::Bytes33(w), rest))
            },
            SerializableTypes::Bytes64 => {
                let (w, rest) = Wire64Bytes::from_bytes(data)?;
                Ok((SerializableElement::Bytes64(w), rest))
            },
            SerializableTypes::Remainder => {
                let (w, rest) = RemainderTypeWire::from_bytes(data)?;
                Ok((SerializableElement::Remainder(w), rest))
            },
        }
    }

    /// An element carrying the same value: decoded elements are
    /// immutable, so a reply that reuses a received field copies it.
    pub fn duplicate(&self) -> (r: Self)
        ensures
            r@ == self@,
            r.wf() == self.wf(),
    {
        match self {
            SerializableElement::MessageType(w) => SerializableElement::MessageType(
                MessageTypeWire { id: w.id },
            ),
            SerializableElement::U16SizedBytes(w) => SerializableElement::U16SizedBytes(
                U16SizedBytesWire { num_bytes: w.num_bytes, data: slice_to_vec(w.data.as_slice()) },
            ),
            SerializableElement::SingleByte(w) => SerializableElement::SingleByte(
                SingleByteWire { value: w.value },
            ),
            SerializableElement::RGBColor(w) => SerializableElement::RGBColor(
                RGBColorWire { bytes: slice_to_vec(w.bytes.as_slice()) },
            ),
            SerializableElement::U16Int(w) => SerializableElement::U16Int(
                U16IntWire { value: w.value },
            ),
            SerializableElement::U32Int(w) => SerializableElement::U32Int(
                U32SerializedElement { value: w.value },
            ),
            SerializableElement::Bytes8(w) => SerializableElement::Bytes8(
                Bytes8Element { data: slice_to_vec(w.data.as_slice()) },
            ),
            SerializableElement::Bytes32(w) => SerializableElement::Bytes32(
                Wire32Bytes { data: slice_to_vec(w.data.as_slice()) },
            ),
            SerializableElement::Bytes33(w) => SerializableElement::Bytes33(
                Wire33Bytes { data: slice_to_vec(w.data.as_slice()) },
            ),
            SerializableElement::Bytes64(w) => SerializableElement::Bytes64(
                Wire64Bytes { data: slice_to_vec(w.data.as_slice()) },
            ),
            SerializableElement::Remainder(w) => SerializableElement::Remainder(
                RemainderTypeWire { data: slice_to_vec(w.data.as_slice()) },
            ),
        }
    }

    /// Encodes the element as bytes.
    pub fn to_bytes(&self) -> (r: Vec<u8>)
        requires
            self.wf(),
        ensures
            r@ == spec_elem_enc(self@),
    {
        match self {
            SerializableElement::MessageType(w) => w.to_bytes(),
            SerializableElement::U16SizedBytes(w) => w.to_bytes(),
            SerializableElement::SingleByte(w) => w.to_bytes(),
            SerializableElement::RGBColor(w) => w.to_bytes(),
            SerializableElement::U16Int(w) => w.to_bytes(),
            SerializableElement::U32Int(w) => w.to_bytes(),
            SerializableElement::Bytes8(w) => w.to_bytes(),
            SerializableElement::Bytes32(w) => w.to_bytes(),
            SerializableElement::Bytes33(w) => w.to_bytes(),
            SerializableElement::Bytes64(w) => w.to_bytes(),
            SerializableElement::Remainder(w) => w.to_bytes(),
        }
    }
}

/// Round-trip law over the element universe: decoding the encoding of
/// a valid element model of any kind yields the model back with
/// exactly the trailing bytes unconsumed (a remainder element admits
/// no trailing bytes, since it consumes the whole buffer).
pub proof fn lemma_elem_round_trip(v: ElemValue, trailing: Seq<u8>)
    requires
        spec_elem_inv(v),
        spec_kind_takes_all(spec_elem_kind(v)) ==> trailing == Seq::<u8>::empty(),
    ensures
        spec_elem_dec(spec_elem_kind(v), spec_elem_enc(v) + trailing) == Ok::<
            (ElemValue, Seq<u8>),
            SerializationError,
        >((v, trailing)),
{
    match v {
        ElemValue::MsgType(m) => MessageTypeWire::lemma_round_trip(m, trailing),
        ElemValue::U16Sized(m) => U16SizedBytesWire::lemma_round_trip(m, trailing),
        ElemValue::Byte(m) => SingleByteWire::lemma_round_trip(m, trailing),
        ElemValue::Rgb(m) => RGBColorWire::lemma_round_trip(m, trailing),
        ElemValue::U16(m) => U16IntWire::lemma_round_trip(m, trailing),
        ElemValue::U32(m) => U32SerializedElement::lemma_round_trip(m, trailing),
        ElemValue::B8(m) => Bytes8Element::lemma_round_trip(m, trailing),
        ElemValue::B32(m) => Wire32Bytes::lemma_round_trip(m, trailing),
        ElemValue::B33(m) => Wire33Bytes::lemma_round_trip(m, trailing),
        ElemValue::B64(m) => Wire64Bytes::lemma_round_trip(m, trailing),
        ElemValue::Remainder(m) => RemainderTypeWire::lemma_round_trip(m, trailing),
    }
}

/// Insufficient-input law over the element universe: a buffer shorter
/// than a kind's minimum requirement decodes to `TooFewBytes`.
pub proof fn lemma_elem_too_few_bytes(kind: SerializableTypes, data: Seq<u8>)
    requires
        data.len() < spec_elem_min_len(kind),
    ensures
        spec_elem_dec(kind, data) == Err::<(ElemValue, Seq<u8>), SerializationError>(
            SerializationError::TooFewBytes,
        ),
{
    match kind {
        SerializableTypes::MessageType => MessageTypeWire::lemma_too_few_bytes(data),
        SerializableTypes::U16SizedBytes => U16SizedBytesWire::lemma_too_few_bytes(data),
        SerializableTypes::SingleByte => SingleByteWire::lemma_too_few_bytes(data),
        SerializableTypes::RGBColor => RGBColorWire::lemma_too_few_bytes(data),
        SerializableTypes::U16Int => U16IntWire::lemma_too_few_bytes(data),
        SerializableTypes::U32Int => U32SerializedElement::lemma_too_few_bytes(data),
        SerializableTypes::Bytes8 => Bytes8Element::lemma_too_few_bytes(data),
        SerializableTypes::Bytes32 => Wire32Bytes::lemma_too_few_bytes(data),
        SerializableTypes::Bytes33 => Wire33Bytes::lemma_too_few_bytes(data),
        SerializableTypes::Bytes64 => Wire64Bytes::lemma_too_few_bytes(data),
        SerializableTypes::Remainder => RemainderTypeWire::lemma_too_few_bytes(data),
    }
}

/// The element kind of a message body that the schema leaves opaque.
pub type IgnoredStruct = RemainderTypeWire;

/// The element kind of the pong-byte count a ping requests.
pub type NumPongBytesStruct = U16IntWire;

/// The element kind of the global features block of an init message.
pub type GlobalFeaturesStruct = U16SizedBytesWire;

/// The element kind of the local features block of an init message.
pub type LocalFeaturesStruct = U16SizedBytesWire;

/// The element kind of a trailing stream of extension records.
pub type TLVStreamElement = RemainderTypeWire;

/// The element kind of a short channel identifier.
pub type ShortChannelIDElement = Bytes8Element;

/// The element kind of a signature.
pub type SignatureElement = Wire64Bytes;

/// The element kind of a chain hash.
pub type ChainHashElement = Wire32Bytes;

/// The element kind of a node alias.
pub type NodeAliasElement = Wire32Bytes;

/// The element kind of a compressed public key.
pub type PointElement = Wire33Bytes;

} // verus!
