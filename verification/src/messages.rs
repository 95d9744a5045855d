//! Message schema registry and decoder: maps a 16-bit message type
//! code to an ordered list of named, typed fields, and decodes an
//! opaque byte stream into a typed, named field collection by applying
//! the wire element codec field by field.

use vstd::prelude::*;
use crate::wire::ElemValue;
use crate::wire::MessageTypeWire;
use crate::wire::SerializableElement;
use crate::wire::SerializableTypes;
use crate::wire::BytesSerializable;
use crate::wire::spec_elem_dec;
use crate::wire::spec_elem_enc;
use crate::wire::spec_elem_inv;
use crate::wire::spec_elem_kind;
use crate::wire::spec_kind_takes_all;
use crate::wire::lemma_elem_round_trip;

verus! {

/// The message types of the protocol.  The channel-lifecycle types are
/// recognized but carry no modeled structure; a code with no variant
/// at all is a decode error.
#[derive(Debug, Clone, Copy, PartialEq, Eq, Structural)]
pub enum MessageTypeEnum {
    Warning,
    Init,
    Error,
    Ping,
    Pong,
    OpenChannel,
    AcceptChannel,
    FundingCreated,
    FundingSigned,
    ChannelReady,
    Shutdown,
    ClosingSigned,
    UpdateAddHTLC,
    UpdateFulfillHTLC,
    UpdateFailHTLC,
    UpdateFailMalformedHTLC,
    CommitmentSigned,
    RevokeAndACK,
    UpdateFee,
    ChannelReestablish,
    ChannelAnnouncement,
    NodeAnnouncement,
    ChannelUpdate,
    AnnouncementSignatures,
    QueryShortChannelIds,
    ReplyShortChannelIdsEnd,
    QueryChannelRange,
    ReplyChannelRange,
    GossipTimestampFilter,
    Unknown,
}

/// The 16-bit wire code of a message type.
pub open spec fn spec_message_type_code(t: MessageTypeEnum) -> u16 {
    match t {
        MessageTypeEnum::Warning => 1,
        MessageTypeEnum::Init => 16,
        MessageTypeEnum::Error => 17,
        MessageTypeEnum::Ping => 18,
        MessageTypeEnum::Pong => 19,
        MessageTypeEnum::OpenChannel => 32,
        MessageTypeEnum::AcceptChannel => 33,
        MessageTypeEnum::FundingCreated => 34,
        MessageTypeEnum::FundingSigned => 35,
        MessageTypeEnum::ChannelReady => 36,
        MessageTypeEnum::Shutdown => 38,
        MessageTypeEnum::ClosingSigned => 39,
        MessageTypeEnum::UpdateAddHTLC => 128,
        MessageTypeEnum::UpdateFulfillHTLC => 130,
        MessageTypeEnum::UpdateFailHTLC => 131,
        MessageTypeEnum::CommitmentSigned => 132,
        MessageTypeEnum::RevokeAndACK => 133,
        MessageTypeEnum::UpdateFee => 134,
        MessageTypeEnum::UpdateFailMalformedHTLC => 135,
        MessageTypeEnum::ChannelReestablish => 136,
        MessageTypeEnum::ChannelAnnouncement => 256,
        MessageTypeEnum::NodeAnnouncement => 257,
        MessageTypeEnum::ChannelUpdate => 258,
        MessageTypeEnum::AnnouncementSignatures => 259,
        MessageTypeEnum::QueryShortChannelIds => 261,
        MessageTypeEnum::ReplyShortChannelIdsEnd => 262,
        MessageTypeEnum::QueryChannelRange => 263,
        MessageTypeEnum::ReplyChannelRange => 264,
        MessageTypeEnum::GossipTimestampFilter => 265,
        MessageTypeEnum::Unknown => 0,
    }
}

/// The message type a 16-bit wire code maps to, if any.
pub open spec fn spec_u16_to_message_type(code: u16) -> Option<MessageTypeEnum> {
    if code == 1 {
        Some(MessageTypeEnum::Warning)
    } else if code == 16 {
        Some(MessageTypeEnum::Init)
    } else if code == 17 {
        Some(MessageTypeEnum::Error)
    } else if code == 18 {
        Some(MessageTypeEnum::Ping)
    } else if code == 19 {
        Some(MessageTypeEnum::Pong)
    } else if code == 32 {
        Some(MessageTypeEnum::OpenChannel)
    } else if code == 33 {
        Some(MessageTypeEnum::AcceptChannel)
    } else if code == 34 {
        Some(MessageTypeEnum::FundingCreated)
    } else if code == 35 {
        Some(MessageTypeEnum::FundingSigned)
    } else if code == 36 {
        Some(MessageTypeEnum::ChannelReady)
    } else if code == 38 {
        Some(MessageTypeEnum::Shutdown)
    } else if code == 39 {
        Some(MessageTypeEnum::ClosingSigned)
    } else if code == 128 {
        Some(MessageTypeEnum::UpdateAddHTLC)
    } else if code == 130 {
        Some(MessageTypeEnum::UpdateFulfillHTLC)
    } else if code == 131 {
        Some(MessageTypeEnum::UpdateFailHTLC)
    } else if code == 132 {
        Some(MessageTypeEnum::CommitmentSigned)
    } else if code == 133 {
        Some(MessageTypeEnum::RevokeAndACK)
    } else if code == 134 {
        Some(MessageTypeEnum::UpdateFee)
    } else if code == 135 {
        Some(MessageTypeEnum::UpdateFailMalformedHTLC)
    } else if code == 136 {
        Some(MessageTypeEnum::ChannelReestablish)
    } else if code == 256 {
        Some(MessageTypeEnum::ChannelAnnouncement)
    } else if code == 257 {
        Some(MessageTypeEnum::NodeAnnouncement)
    } else if code == 258 {
        Some(MessageTypeEnum::ChannelUpdate)
    } else if code == 259 {
        Some(MessageTypeEnum::AnnouncementSignatures)
    } else if code == 261 {
        Some(MessageTypeEnum::QueryShortChannelIds)
    } else if code == 262 {
        Some(MessageTypeEnum::ReplyShortChannelIdsEnd)
    } else if code == 263 {
        Some(MessageTypeEnum::QueryChannelRange)
    } else if code == 264 {
        Some(MessageTypeEnum::ReplyChannelRange)
    } else if code == 265 {
        Some(MessageTypeEnum::GossipTimestampFilter)
    } else {
        None
    }
}

impl MessageTypeEnum {
    /// The 16-bit wire code of this message type.
    pub fn as_u16(&self) -> (r: u16)
        ensures
            r == spec_message_type_code(*self),
    {
        match self {
            MessageTypeEnum::Warning => 1,
            MessageTypeEnum::Init => 16,
            MessageTypeEnum::Error => 17,
            MessageTypeEnum::Ping => 18,
            MessageTypeEnum::Pong => 19,
            MessageTypeEnum::OpenChannel => 32,
            MessageTypeEnum::AcceptChannel => 33,
            MessageTypeEnum::FundingCreated => 34,
            MessageTypeEnum::FundingSigned => 35,
            MessageTypeEnum::ChannelReady => 36,
            MessageTypeEnum::Shutdown => 38,
            MessageTypeEnum::ClosingSigned => 39,
            MessageTypeEnum::UpdateAddHTLC => 128,
            MessageTypeEnum::UpdateFulfillHTLC => 130,
            MessageTypeEnum::UpdateFailHTLC => 131,
            MessageTypeEnum::CommitmentSigned => 132,
            MessageTypeEnum::RevokeAndACK => 133,
            MessageTypeEnum::UpdateFee => 134,
            MessageTypeEnum::UpdateFailMalformedHTLC => 135,
            MessageTypeEnum::ChannelReestablish => 136,
            MessageTypeEnum::ChannelAnnouncement => 256,
            MessageTypeEnum::NodeAnnouncement => 257,
            MessageTypeEnum::ChannelUpdate => 258,
            MessageTypeEnum::AnnouncementSignatures => 259,
            MessageTypeEnum::QueryShortChannelIds => 261,
            MessageTypeEnum::ReplyShortChannelIdsEnd => 262,
            MessageTypeEnum::QueryChannelRange => 263,
            MessageTypeEnum::ReplyChannelRange => 264,
            MessageTypeEnum::GossipTimestampFilter => 265,
            MessageTypeEnum::Unknown => 0,
        }
    }

    /// The message type of a 16-bit wire code, if the code is
    /// recognized.
    pub fn try_from_u16(code: u16) -> (r: Option<MessageTypeEnum>)
        ensures
            r == spec_u16_to_message_type(code),
    {
        if code == 1 {
            Some(MessageTypeEnum::Warning)
        } else if code == 16 {
            Some(MessageTypeEnum::Init)
        } else if code == 17 {
            Some(MessageTypeEnum::Error)
        } else if code == 18 {
            Some(MessageTypeEnum::Ping)
        } else if code == 19 {
            Some(MessageTypeEnum::Pong)
        } else if code == 32 {
            Some(MessageTypeEnum::OpenChannel)
        } else if code == 33 {
            Some(MessageTypeEnum::AcceptChannel)
        } else if code == 34 {
            Some(MessageTypeEnum::FundingCreated)
        } else if code == 35 {
            Some(MessageTypeEnum::FundingSigned)
        } else if code == 36 {
            Some(MessageTypeEnum::ChannelReady)
        } else if code == 38 {
            Some(MessageTypeEnum::Shutdown)
        } else if code == 39 {
            Some(MessageTypeEnum::ClosingSigned)
        } else if code == 128 {
            Some(MessageTypeEnum::UpdateAddHTLC)
        } else if code == 130 {
            Some(MessageTypeEnum::UpdateFulfillHTLC)
        } else if code == 131 {
            Some(MessageTypeEnum::UpdateFailHTLC)
        } else if code == 132 {
            Some(MessageTypeEnum::CommitmentSigned)
        } else if code == 133 {
            Some(MessageTypeEnum::RevokeAndACK)
        } else if code == 134 {
            Some(MessageTypeEnum::UpdateFee)
        } else if code == 135 {
            Some(MessageTypeEnum::UpdateFailMalformedHTLC)
        } else if code == 136 {
            Some(MessageTypeEnum::ChannelReestablish)
        } else if code == 256 {
            Some(MessageTypeEnum::ChannelAnnouncement)
        } else if code == 257 {
            Some(MessageTypeEnum::NodeAnnouncement)
        } else if code == 258 {
            Some(MessageTypeEnum::ChannelUpdate)
        } else if code == 259 {
            Some(MessageTypeEnum::AnnouncementSignatures)
        } else if code == 261 {
            Some(MessageTypeEnum::QueryShortChannelIds)
        } else if code == 262 {
            Some(MessageTypeEnum::ReplyShortChannelIdsEnd)
        } else if code == 263 {
            Some(MessageTypeEnum::QueryChannelRange)
        } else if code == 264 {
            Some(MessageTypeEnum::ReplyChannelRange)
        } else if code == 265 {
            Some(MessageTypeEnum::GossipTimestampFilter)
        } else {
            None
        }
    }
}

/// A recognized code maps back to its own variant.
pub proof fn lemma_code_type_inverse(t: MessageTypeEnum)
    requires
        t != MessageTypeEnum::Unknown,
    ensures
        spec_u16_to_message_type(spec_message_type_code(t)) == Some(t),
{
}

/// Failure of a message decode: a malformed type tag, an unrecognized
/// type code, or a field that did not decode.
#[derive(Debug, Clone, Copy, PartialEq, Eq, Structural)]
pub enum MessageDecodeError {
    Error,
}

/// One named, typed field of a message schema.
pub type MessageStructurePair = (String, SerializableTypes);

/// The ordered field list of one message schema.
pub type StructurePairList = Vec<MessageStructurePair>;

/// The message types with a modeled field layout.
pub open spec fn spec_structured(t: MessageTypeEnum) -> bool {
    t == MessageTypeEnum::Init || t == MessageTypeEnum::Ping || t == MessageTypeEnum::Pong
        || t == MessageTypeEnum::NodeAnnouncement || t == MessageTypeEnum::GossipTimestampFilter
}

/// The ordered field schema of a message type: the names and element
/// kinds of its fields, the 2-byte type tag first.  A type without a
/// modeled layout has the empty schema.
pub open spec fn spec_schema(t: MessageTypeEnum) -> Seq<(Seq<char>, SerializableTypes)> {
    if t == MessageTypeEnum::Init {
        seq![
            ("type"@, SerializableTypes::MessageType),
            ("globalfeatures"@, SerializableTypes::U16SizedBytes),
            ("localfeatures"@, SerializableTypes::U16SizedBytes),
        ]
    } else if t == MessageTypeEnum::Ping {
        seq![
            ("type"@, SerializableTypes::MessageType),
            ("num_pong_bytes"@, SerializableTypes::U16Int),
            ("ignored"@, SerializableTypes::U16SizedBytes),
        ]
    } else if t == MessageTypeEnum::Pong {
        seq![
            ("type"@, SerializableTypes::MessageType),
            ("ignored"@, SerializableTypes::U16SizedBytes),
        ]
    } else if t == MessageTypeEnum::NodeAnnouncement {
        seq![
            ("type"@, SerializableTypes::MessageType),
            ("signature"@, SerializableTypes::Bytes64),
            ("features"@, SerializableTypes::U16SizedBytes),
            ("timestamp"@, SerializableTypes::U32Int),
            ("node_id"@, SerializableTypes::Bytes33),
            ("rgb_color"@, SerializableTypes::RGBColor),
            ("alias"@, SerializableTypes::Bytes32),
            ("addresses"@, SerializableTypes::U16SizedBytes),
        ]
    } else if t == MessageTypeEnum::GossipTimestampFilter {
        seq![
            ("type"@, SerializableTypes::MessageType),
            ("chain_hash"@, SerializableTypes::Bytes32),
            ("first_timestamp"@, SerializableTypes::U32Int),
            ("timestamp_range"@, SerializableTypes::U32Int),
        ]
    } else {
        seq![]
    }
}

/// An executable schema matches its model name for name and kind for
/// kind.
pub open spec fn spec_schema_matches(
    v: Seq<(String, SerializableTypes)>,
    s: Seq<(Seq<char>, SerializableTypes)>,
) -> bool {
    v.len() == s.len() && forall|i: int|
        0 <= i < v.len() ==> (#[trigger] v[i]).0@ == s[i].0 && v[i].1 == s[i].1
}

/// The names of a schema are pairwise distinct.
pub open spec fn spec_schema_names_unique(s: Seq<(Seq<char>, SerializableTypes)>) -> bool {
    forall|i: int, j: int| 0 <= i < j < s.len() ==> (#[trigger] s[i]).0 != (#[trigger] s[j]).0
}

/// Every modeled schema has pairwise distinct field names.
#[verifier::spinoff_prover]
#[verifier::rlimit(50)]
pub proof fn lemma_schema_names_unique(t: MessageTypeEnum)
    ensures
        spec_schema_names_unique(spec_schema(t)),
{
    reveal_strlit("type");
    reveal_strlit("globalfeatures");
    reveal_strlit("localfeatures");
    reveal_strlit("num_pong_bytes");
    reveal_strlit("ignored");
    reveal_strlit("signature");
    reveal_strlit("features");
    reveal_strlit("timestamp");
    reveal_strlit("node_id");
    reveal_strlit("rgb_color");
    reveal_strlit("alias");
    reveal_strlit("addresses");
    reveal_strlit("chain_hash");
    reveal_strlit("first_timestamp");
    reveal_strlit("timestamp_range");
    assert("type"@.len() == 4);
    assert("globalfeatures"@.len() == 14);
    assert("localfeatures"@.len() == 13);
    assert("num_pong_bytes"@.len() == 14);
    assert("ignored"@.len() == 7);
    assert("signature"@.len() == 9);
    assert("features"@.len() == 8);
    assert("timestamp"@.len() == 9);
    assert("node_id"@.len() == 7);
    assert("rgb_color"@.len() == 9);
    assert("alias"@.len() == 5);
    assert("addresses"@.len() == 9);
    assert("chain_hash"@.len() == 10);
    assert("first_timestamp"@.len() == 15);
    assert("timestamp_range"@.len() == 15);
    assert("num_pong_bytes"@[0] == 'n');
    assert("globalfeatures"@[0] == 'g');
    assert("node_id"@[0] == 'n');
    assert("ignored"@[0] == 'i');
    assert("signature"@[0] == 's');
    assert("timestamp"@[0] == 't');
    assert("rgb_color"@[0] == 'r');
    assert("addresses"@[0] == 'a');
    assert("first_timestamp"@[0] == 'f');
    assert("timestamp_range"@[0] == 't');
    if t == MessageTypeEnum::Init {
        assert(spec_schema_names_unique(spec_schema(t)));
    } else if t == MessageTypeEnum::Ping {
        assert(spec_schema_names_unique(spec_schema(t)));
    } else if t == MessageTypeEnum::Pong {
        assert(spec_schema_names_unique(spec_schema(t)));
    } else if t == MessageTypeEnum::NodeAnnouncement {
        assert(spec_schema_names_unique(spec_schema(t)));
    } else if t == MessageTypeEnum::GossipTimestampFilter {
        assert(spec_schema_names_unique(spec_schema(t)));
    } else {
        assert(spec_schema(t).len() == 0);
    }
}

/// A typed, named field collection: the decoded fields of one message,
/// with unique keys, in schema order, looked up by name.
#[derive(Debug)]
pub struct ElementMap {
    pub items: Vec<(String, SerializableElement)>,
}

impl View for ElementMap {
    type V = Seq<(Seq<char>, ElemValue)>;

    open spec fn view(&self) -> Seq<(Seq<char>, ElemValue)> {
        Seq::new(self.items@.len(), |i: int| (self.items@[i].0@, self.items@[i].1@))
    }
}

/// Whether the collection holds an entry under the given name.
pub open spec fn spec_map_contains(m: Seq<(Seq<char>, ElemValue)>, name: Seq<char>) -> bool {
    exists|i: int| 0 <= i < m.len() && (#[trigger] m[i]).0 == name
}

/// The first entry under the given name, if any.
pub open spec fn spec_map_lookup(m: Seq<(Seq<char>, ElemValue)>, name: Seq<char>) -> Option<
    ElemValue,
>
    decreases m.len(),
{
    if m.len() == 0 {
        None
    } else if m[0].0 == name {
        Some(m[0].1)
    } else {
        spec_map_lookup(m.skip(1), name)
    }
}

/// The keys of the collection are pairwise distinct.
pub open spec fn spec_map_keys_unique(m: Seq<(Seq<char>, ElemValue)>) -> bool {
    forall|i: int, j: int| 0 <= i < j < m.len() ==> (#[trigger] m[i]).0 != (#[trigger] m[j]).0
}

proof fn lemma_map_lookup_at(m: Seq<(Seq<char>, ElemValue)>, name: Seq<char>, i: int)
    requires
        0 <= i < m.len(),
        m[i].0 == name,
        forall|j: int| 0 <= j < i ==> (#[trigger] m[j]).0 != name,
    ensures
        spec_map_lookup(m, name) == Some(m[i].1),
    decreases i,
{
    if i > 0 {
        lemma_map_lookup_at(m.skip(1), name, i - 1);
    }
}

proof fn lemma_map_lookup_none(m: Seq<(Seq<char>, ElemValue)>, name: Seq<char>)
    requires
        forall|j: int| 0 <= j < m.len() ==> (#[trigger] m[j]).0 != name,
    ensures
        spec_map_lookup(m, name) is None,
    decreases m.len(),
{
    if m.len() > 0 {
        lemma_map_lookup_none(m.skip(1), name);
    }
}

impl ElementMap {
    /// Every element is well formed and the keys are unique.
    pub open spec fn wf(&self) -> bool {
        (forall|i: int| 0 <= i < self.items@.len() ==> (#[trigger] self.items@[i]).1.wf())
            && spec_map_keys_unique(self@)
    }

    /// An empty collection.
    pub fn new() -> (r: Self)
        ensures
            r@ == Seq::<(Seq<char>, ElemValue)>::empty(),
            r.items@.len() == 0,
            r.wf(),
    {
        let r = ElementMap { items: Vec::new() };
        proof {
            assert(r@ =~= Seq::<(Seq<char>, ElemValue)>::empty());
        }
        r
    }

    /// The number of entries.
    pub fn len(&self) -> (r: usize)
        ensures
            r == self@.len(),
    {
        self.items.len()
    }

    /// Appends an entry under a new name.
    pub fn push(&mut self, name: String, el: SerializableElement)
        ensures
            final(self).items@ == old(self).items@.push((name, el)),
            final(self)@ == old(self)@ + seq![(name@, el@)],
            final(self).items@.len() == old(self).items@.len() + 1,
    {
        let ghost old_view = self@;
        self.items.push((name, el));
        proof {
            assert(self@ =~= old_view + seq![(name@, el@)]);
        }
    }

    /// Whether an entry exists under the given name.
    pub fn contains_key(&self, name: &str) -> (r: bool)
        ensures
            r == spec_map_contains(self@, name@),
    {
        let key = name.to_owned();
        let n = self.items.len();
        let mut i: usize = 0;
        while i < n
            invariant
                n == self.items@.len(),
                0 <= i <= n,
                key@ == name@,
                forall|j: int| 0 <= j < i ==> (#[trigger] self@[j]).0 != name@,
            decreases n - i,
        {
            if self.items[i].0 == key {
                assert(self@[i as int].0 == name@);
                return true;
            }
            i += 1;
        }
        false
    }

    /// The element stored under the given name, if any.
    pub fn get(&self, name: &str) -> (r: Option<&SerializableElement>)
        ensures
            match r {
                Some(el) => spec_map_lookup(self@, name@) == Some(el@) && (self.wf()
                    ==> el.wf()),
                None => spec_map_lookup(self@, name@) is None,
            },
    {
        let key = name.to_owned();
        let n = self.items.len();
        let mut i: usize = 0;
        while i < n
            invariant
                n == self.items@.len(),
                0 <= i <= n,
                key@ == name@,
                forall|j: int| 0 <= j < i ==> (#[trigger] self@[j]).0 != name@,
            decreases n - i,
        {
            if self.items[i].0 == key {
                proof {
                    lemma_map_lookup_at(self@, name@, i as int);
                }
                return Some(&self.items[i].1);
            }
            i += 1;
        }
        proof {
            lemma_map_lookup_none(self@, name@);
        }
        None
    }
}

/// A decoded message: its type and its named field collection.
#[derive(Debug)]
pub struct Message {
    pub message_type: MessageTypeEnum,
    pub elements: ElementMap,
}

impl View for Message {
    type V = (MessageTypeEnum, Seq<(Seq<char>, ElemValue)>);

    open spec fn view(&self) -> (MessageTypeEnum, Seq<(Seq<char>, ElemValue)>) {
        (self.message_type, self.elements@)
    }
}

impl Message {
    /// Well-formedness: the field collection is well formed.
    pub open spec fn wf(&self) -> bool {
        self.elements.wf()
    }
}

/// The decoder of whole messages.
pub struct MessageDecoder {}

/// The decode of an ordered field schema from the front of a buffer:
/// each field's element decoder is applied in declared order, each
/// step's unconsumed rest feeding the next.
pub open spec fn spec_decode_fields(
    schema: Seq<(Seq<char>, SerializableTypes)>,
    data: Seq<u8>,
) -> Result<(Seq<(Seq<char>, ElemValue)>, Seq<u8>), MessageDecodeError>
    decreases schema.len(),
{
    if schema.len() == 0 {
        Ok((Seq::empty(), data))
    } else {
        match spec_elem_dec(schema[0].1, data) {
            Err(_) => Err(MessageDecodeError::Error),
            Ok(p) => match spec_decode_fields(schema.skip(1), p.1) {
                Err(e) => Err(e),
                Ok(q) => Ok((seq![(schema[0].0, p.0)] + q.0, q.1)),
            },
        }
    }
}

/// The decode of a whole message: read the 2-byte type tag, resolve
/// its schema, then decode the fields in order (the tag itself is the
/// first schema field, so field decoding starts over from the front).
/// A recognized code without modeled structure decodes as `Unknown`
/// with no fields; an unrecognized code is an error, and no partial
/// message is ever produced.
pub open spec fn spec_decode_message(data: Seq<u8>) -> Result<
    ((MessageTypeEnum, Seq<(Seq<char>, ElemValue)>), Seq<u8>),
    MessageDecodeError,
> {
    match MessageTypeWire::spec_dec(data) {
        Err(_) => Err(MessageDecodeError::Error),
        Ok(p) => match spec_u16_to_message_type(p.0) {
            None => Err(MessageDecodeError::Error),
            Some(t0) => {
                let t = if spec_structured(t0) {
                    t0
                } else {
                    MessageTypeEnum::Unknown
                };
                match spec_decode_fields(spec_schema(t), data) {
                    Err(e) => Err(e),
                    Ok(q) => Ok(((t, q.0), q.1)),
                }
            },
        },
    }
}

impl MessageDecoder {
    /// Resolves the 16-bit type code of a message: its type and its
    /// ordered field schema for a modeled layout, the `Unknown` type
    /// with an empty schema for a recognized but unmodeled code, and
    /// an error for a code with no mapping at all.
    pub fn get_structure(msg_type: u16) -> (r: Result<
        (MessageTypeEnum, StructurePairList),
        MessageDecodeError,
    >)
        ensures
            match r {
                Ok(p) => spec_u16_to_message_type(msg_type) matches Some(t0) && p.0 == (
                if spec_structured(t0) {
                    t0
                } else {
                    MessageTypeEnum::Unknown
                }) && spec_schema_matches(p.1@, spec_schema(p.0)),
                Err(e) => spec_u16_to_message_type(msg_type) is None && e
                    == MessageDecodeError::Error,
            },
    {
        let t0 = match MessageTypeEnum::try_from_u16(msg_type) {
            Some(t0) => t0,
            None => {
                return Err(MessageDecodeError::Error);
            },
        };
        let mut structure: StructurePairList = Vec::new();
        match t0 {
            MessageTypeEnum::Init => {
                structure.push(("type".to_owned(), SerializableTypes::MessageType));
                structure.push(("globalfeatures".to_owned(), SerializableTypes::U16SizedBytes));
                structure.push(("localfeatures".to_owned(), SerializableTypes::U16SizedBytes));
                assert(spec_schema_matches(structure@, spec_schema(MessageTypeEnum::Init)));
                Ok((MessageTypeEnum::Init, structure))
            },
            MessageTypeEnum::Ping => {
                structure.push(("type".to_owned(), SerializableTypes::MessageType));
                structure.push(("num_pong_bytes".to_owned(), SerializableTypes::U16Int));
                structure.push(("ignored".to_owned(), SerializableTypes::U16SizedBytes));
                assert(spec_schema_matches(structure@, spec_schema(MessageTypeEnum::Ping)));
                Ok((MessageTypeEnum::Ping, structure))
            },
            MessageTypeEnum::Pong => {
                structure.push(("type".to_owned(), SerializableTypes::MessageType));
                structure.push(("ignored".to_owned(), SerializableTypes::U16SizedBytes));
                assert(spec_schema_matches(structure@, spec_schema(MessageTypeEnum::Pong)));
                Ok((MessageTypeEnum::Pong, structure))
            },
            MessageTypeEnum::NodeAnnouncement => {
                structure.push(("type".to_owned(), SerializableTypes::MessageType));
                structure.push(("signature".to_owned(), SerializableTypes::Bytes64));
                structure.push(("features".to_owned(), SerializableTypes::U16SizedBytes));
                structure.push(("timestamp".to_owned(), SerializableTypes::U32Int));
                structure.push(("node_id".to_owned(), SerializableTypes::Bytes33));
                structure.push(("rgb_color".to_owned(), SerializableTypes::RGBColor));
                structure.push(("alias".to_owned(), SerializableTypes::Bytes32));
                structure.push(("addresses".to_owned(), SerializableTypes::U16SizedBytes));
                assert(spec_schema_matches(
                    structure@,
                    spec_schema(MessageTypeEnum::NodeAnnouncement),
                ));
                Ok((MessageTypeEnum::NodeAnnouncement, structure))
            },
            MessageTypeEnum::GossipTimestampFilter => {
                structure.push(("type".to_owned(), SerializableTypes::MessageType));
                structure.push(("chain_hash".to_owned(), SerializableTypes::Bytes32));
                structure.push(("first_timestamp".to_owned(), SerializableTypes::U32Int));
                structure.push(("timestamp_range".to_owned(), SerializableTypes::U32Int));
                assert(spec_schema_matches(
                    structure@,
                    spec_schema(MessageTypeEnum::GossipTimestampFilter),
                ));
                Ok((MessageTypeEnum::GossipTimestampFilter, structure))
            },
            _ => {
                assert(spec_schema_matches(structure@, spec_schema(MessageTypeEnum::Unknown)));
                Ok((MessageTypeEnum::Unknown, structure))
            },
        }
    }

    /// Decodes one whole message from the front of `bytes`, returning
    /// it with the unconsumed rest.  No failure panics and no failure
    /// yields a partial message.
    pub fn from_bytes(bytes: &[u8]) -> (r: Result<(Message, &[u8]), MessageDecodeError>)
        ensures
            match r {
                Ok(pair) => pair.0.wf() && spec_decode_message(bytes@) == Ok::<
                    ((MessageTypeEnum, Seq<(Seq<char>, ElemValue)>), Seq<u8>),
                    MessageDecodeError,
                >(((pair.0.message_type, pair.0.elements@), pair.1@)),
                Err(e) => spec_decode_message(bytes@) == Err::<
                    ((MessageTypeEnum, Seq<(Seq<char>, ElemValue)>), Seq<u8>),
                    MessageDecodeError,
                >(e),
            },
    {
        let m = match MessageTypeWire::from_bytes(bytes) {
            Ok(p) => p.0,
            Err(_) => {
                return Err(MessageDecodeError::Error);
            },
        };
        let (message_type, structure) = match MessageDecoder::get_structure(m.id) {
            Ok(p) => p,
            Err(e) => {
                return Err(e);
            },
        };
        let ghost schema = spec_schema(message_type);
        let mut x = ElementMap::new();
        let mut rest: &[u8] = bytes;
        let n = structure.len();
        let mut i: usize = 0;
        proof {
            assert(schema.skip(0) =~= schema);
            match spec_decode_fields(schema, bytes@) {
                Ok(q) => {
                    assert(x@ + q.0 =~= q.0);
                },
                Err(_) => {},
            }
        }
        while i < n
            invariant
                n == structure@.len(),
                0 <= i <= n,
                spec_schema_matches(structure@, schema),
                schema == spec_schema(message_type),
                MessageTypeWire::spec_dec(bytes@) matches Ok(p0) && spec_u16_to_message_type(
                    p0.0,
                ) matches Some(t0) && message_type == (if spec_structured(t0) {
                    t0
                } else {
                    MessageTypeEnum::Unknown
                }),
                x@.len() == i,
                forall|j: int| 0 <= j < i ==> (#[trigger] x@[j]).0 == schema[j].0,
                forall|j: int| 0 <= j < i ==> (#[trigger] x.items@[j]).1.wf(),
                spec_decode_fields(schema, bytes@) == (match spec_decode_fields(
                    schema.skip(i as int),
                    rest@,
                ) {
                    Ok(q) => Ok::<
                        (Seq<(Seq<char>, ElemValue)>, Seq<u8>),
                        MessageDecodeError,
                    >((x@ + q.0, q.1)),
                    Err(e) => Err::<(Seq<(Seq<char>, ElemValue)>, Seq<u8>), MessageDecodeError>(e),
                }),
            decreases n - i,
        {
            let ghost pre = x@;
            let kind = structure[i].1;
            assert(schema.skip(i as int)[0] == schema[i as int]);
            match SerializableElement::decode(kind, rest) {
                Ok(p) => {
                    let (obj, rem) = p;
                    let name = structure[i].0.clone();
                    rest = rem;
                    x.push(name, obj);
                    proof {
                        assert(schema.skip(i as int).skip(1) =~= schema.skip(i as int + 1));
                        match spec_decode_fields(schema.skip(i as int + 1), rest@) {
                            Ok(q) => {
                                assert(pre + (seq![(schema[i as int].0, obj@)] + q.0) =~= (pre
                                    + seq![(schema[i as int].0, obj@)]) + q.0);
                                assert(x@ =~= pre + seq![(schema[i as int].0, obj@)]);
                            },
                            Err(_) => {},
                        }
                    }
                },
                Err(_) => {
                    proof {
                        assert(spec_decode_fields(schema.skip(i as int), rest@) == Err::<
                            (Seq<(Seq<char>, ElemValue)>, Seq<u8>),
                            MessageDecodeError,
                        >(MessageDecodeError::Error));
                        assert(spec_decode_fields(schema, bytes@) == Err::<
                            (Seq<(Seq<char>, ElemValue)>, Seq<u8>),
                            MessageDecodeError,
                        >(MessageDecodeError::Error));
                    }
                    return Err(MessageDecodeError::Error);
                },
            }
            i += 1;
        }
        proof {
            assert(schema.skip(n as int) =~= Seq::<(Seq<char>, SerializableTypes)>::empty());
            assert(x@ + Seq::<(Seq<char>, ElemValue)>::empty() =~= x@);
            lemma_schema_names_unique(message_type);
        }
        Ok((Message { message_type, elements: x }, rest))
    }
}

/// The encoding of a message's fields: the concatenation of each
/// field's encoding in schema order (the type tag is the first field).
pub open spec fn spec_encode_fields(elems: Seq<(Seq<char>, ElemValue)>) -> Seq<u8>
    decreases elems.len(),
{
    if elems.len() == 0 {
        Seq::empty()
    } else {
        spec_elem_enc(elems[0].1) + spec_encode_fields(elems.skip(1))
    }
}

proof fn lemma_encode_fields_snoc(elems: Seq<(Seq<char>, ElemValue)>, i: int)
    requires
        0 <= i < elems.len(),
    ensures
        spec_encode_fields(elems.take(i + 1)) == spec_encode_fields(elems.take(i))
            + spec_elem_enc(elems[i].1),
    decreases i,
{
    if i == 0 {
        assert(elems.take(1) =~= seq![elems[0]]);
        assert(seq![elems[0]].skip(1) =~= Seq::<(Seq<char>, ElemValue)>::empty());
        assert(elems.take(0) =~= Seq::<(Seq<char>, ElemValue)>::empty());
        assert(spec_elem_enc(elems[0].1) + Seq::<u8>::empty() =~= spec_elem_enc(elems[0].1));
    } else {
        lemma_encode_fields_snoc(elems.skip(1), i - 1);
        assert(elems.take(i + 1).skip(1) =~= elems.skip(1).take(i));
        assert(elems.take(i).skip(1) =~= elems.skip(1).take(i - 1));
        assert(elems.skip(1)[i - 1] == elems[i]);
        assert(spec_elem_enc(elems[0].1) + (spec_encode_fields(elems.skip(1).take(i - 1))
            + spec_elem_enc(elems[i].1)) =~= (spec_elem_enc(elems[0].1) + spec_encode_fields(
            elems.skip(1).take(i - 1),
        )) + spec_elem_enc(elems[i].1));
    }
}

impl Message {
    /// Encodes the message: the concatenation of the type tag's
    /// encoding and each field's encoding in schema order.
    pub fn to_bytes(&self) -> (r: Vec<u8>)
        requires
            self.wf(),
        ensures
            r@ == spec_encode_fields(self.elements@),
    {
        let mut r: Vec<u8> = Vec::new();
        let n = self.elements.items.len();
        let mut i: usize = 0;
        while i < n
            invariant
                self.wf(),
                n == self.elements.items@.len(),
                0 <= i <= n,
                r@ == spec_encode_fields(self.elements@.take(i as int)),
            decreases n - i,
        {
            let mut piece = self.elements.items[i].1.to_bytes();
            r.append(&mut piece);
            proof {
                lemma_encode_fields_snoc(self.elements@, i as int);
            }
            i += 1;
        }
        proof {
            assert(self.elements@.take(n as int) =~= self.elements@);
        }
        r
    }
}

/// A message model composed from the modeled schemas: its type has a
/// modeled layout, its fields carry the schema's names and kinds in
/// order with valid values, and its first field is the type's own tag.
pub open spec fn spec_msg_conforms(t: MessageTypeEnum, elems: Seq<(Seq<char>, ElemValue)>) -> bool {
    let schema = spec_schema(t);
    &&& spec_structured(t)
    &&& elems.len() == schema.len()
    &&& (forall|i: int|
        0 <= i < elems.len() ==> (#[trigger] elems[i]).0 == schema[i].0 && spec_elem_kind(
            elems[i].1,
        ) == schema[i].1 && spec_elem_inv(elems[i].1))
    &&& elems.len() > 0
    &&& elems[0].1 == ElemValue::MsgType(spec_message_type_code(t))
}

/// No modeled schema holds a remainder field.
proof fn lemma_schema_no_remainder(t: MessageTypeEnum)
    ensures
        forall|i: int|
            0 <= i < spec_schema(t).len() ==> !spec_kind_takes_all(
                (#[trigger] spec_schema(t)[i]).1,
            ),
{
}

/// Decoding the encoding of a schema-shaped field list yields the
/// fields back with exactly the trailing bytes unconsumed.
proof fn lemma_decode_fields_of_encode(
    schema: Seq<(Seq<char>, SerializableTypes)>,
    elems: Seq<(Seq<char>, ElemValue)>,
    trailing: Seq<u8>,
)
    requires
        elems.len() == schema.len(),
        forall|i: int|
            0 <= i < elems.len() ==> (#[trigger] elems[i]).0 == schema[i].0 && spec_elem_kind(
                elems[i].1,
            ) == schema[i].1 && spec_elem_inv(elems[i].1),
        forall|i: int|
            0 <= i < schema.len() && spec_kind_takes_all((#[trigger] schema[i]).1) ==> i
                == schema.len() - 1 && trailing == Seq::<u8>::empty(),
    ensures
        spec_decode_fields(schema, spec_encode_fields(elems) + trailing) == Ok::<
            (Seq<(Seq<char>, ElemValue)>, Seq<u8>),
            MessageDecodeError,
        >((elems, trailing)),
    decreases schema.len(),
{
    if schema.len() == 0 {
        assert(spec_encode_fields(elems) + trailing =~= trailing);
        assert(elems =~= Seq::<(Seq<char>, ElemValue)>::empty());
    } else {
        let e0 = elems[0].1;
        let rest_enc = spec_encode_fields(elems.skip(1)) + trailing;
        assert(spec_encode_fields(elems) + trailing =~= spec_elem_enc(e0) + rest_enc);
        if spec_kind_takes_all(schema[0].1) {
            assert(schema.len() == 1);
            assert(elems.skip(1).len() == 0);
            assert(rest_enc =~= Seq::<u8>::empty());
        }
        lemma_elem_round_trip(e0, rest_enc);
        lemma_decode_fields_of_encode(schema.skip(1), elems.skip(1), trailing);
        assert(seq![(schema[0].0, e0)] + elems.skip(1) =~= elems);
    }
}

/// Round-trip law for whole messages: for any message composed from
/// the modeled schemas, decoding its encoding yields the message back,
/// with any trailing bytes unconsumed.
pub proof fn lemma_message_round_trip(
    t: MessageTypeEnum,
    elems: Seq<(Seq<char>, ElemValue)>,
    trailing: Seq<u8>,
)
    requires
        spec_msg_conforms(t, elems),
    ensures
        spec_decode_message(spec_encode_fields(elems) + trailing) == Ok::<
            ((MessageTypeEnum, Seq<(Seq<char>, ElemValue)>), Seq<u8>),
            MessageDecodeError,
        >(((t, elems), trailing)),
{
    let data = spec_encode_fields(elems) + trailing;
    let code = spec_message_type_code(t);
    let after_tag = spec_encode_fields(elems.skip(1)) + trailing;
    assert(data =~= MessageTypeWire::spec_enc(code) + after_tag);
    MessageTypeWire::lemma_round_trip(code, after_tag);
    lemma_code_type_inverse(t);
    lemma_schema_no_remainder(t);
    lemma_decode_fields_of_encode(spec_schema(t), elems, trailing);
}

/// Decoding a message whose type code is recognized but carries no
/// modeled structure yields the `Unknown` variant with no fields and
/// consumes nothing: the payload is not interpreted as structured
/// fields.
pub proof fn lemma_decode_unstructured(data: Seq<u8>)
    requires
        MessageTypeWire::spec_dec(data) matches Ok(p) && spec_u16_to_message_type(
            p.0,
        ) matches Some(t0) && !spec_structured(t0),
    ensures
        spec_decode_message(data) == Ok::<
            ((MessageTypeEnum, Seq<(Seq<char>, ElemValue)>), Seq<u8>),
            MessageDecodeError,
        >(((MessageTypeEnum::Unknown, Seq::empty()), data)),
{
    assert(spec_schema(MessageTypeEnum::Unknown) =~= Seq::<(Seq<char>, SerializableTypes)>::empty());
}

/// Decoding a message whose type code has no mapping at all is a
/// decode error: the caller receives no partial message.
pub proof fn lemma_decode_unrecognized(data: Seq<u8>)
    requires
        MessageTypeWire::spec_dec(data) matches Ok(p) && spec_u16_to_message_type(p.0) is None,
    ensures
        spec_decode_message(data) == Err::<
            ((MessageTypeEnum, Seq<(Seq<char>, ElemValue)>), Seq<u8>),
            MessageDecodeError,
        >(MessageDecodeError::Error),
{
}

} // verus!
