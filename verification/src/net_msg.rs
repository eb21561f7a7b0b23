//! The typed-message protocol: a fixed-width validated frame header and a
//! closed union of message bodies, each carried as `header ++ body` on the
//! wire with all integers big-endian.

use vstd::prelude::*;

use crate::RingBuffer;
use crate::net_msg::message::{
    BlockHashMessage, ClearToSendMessage, CorruptDataMessage, ErrorMessage, FileDataMessage,
    FileStructureMessage, MissingDataMessage, PauseMessage, SessionEndMessage,
    SessionInitializationRequestMessage, SessionInitializationResponseMessage,
    SessionResumeRequestMessage, SessionResumeResponseMessage,
};
use crate::net_msg::message_fields::ConstNetSerializable;
use crate::wire::{
    spec_lp_bytes, spec_lp_end, spec_lp_field, spec_u16_from_be_bytes, spec_u32_from_be_bytes,
    spec_u16_to_be_bytes, spec_u32_to_be_bytes, lemma_u16_be_bytes, lemma_u32_be_bytes,
    lemma_lp_round_trip, get_u16,
};

pub mod message;
pub mod message_fields;

verus! {

/// Fixed byte width of the typed-message frame header.
pub const NET_MSG_HEADER_SIZE: usize = 16;

/// Magic number opening every typed-message frame header.
pub const NET_MSG_MAGIC: u32 = 0x40F2;

/// The single protocol version this library speaks.
pub const NET_MSG_VERSION: u8 = 1;

/// The closed enumeration of message kinds; any out-of-range wire code
/// decodes to `Invalid`, which no well-formed frame carries.
#[derive(Debug, PartialEq, Eq, Clone, Copy, Structural)]
pub enum NetMessageKind {
    Invalid,
    Error,
    SessionInitializationRequest,
    SessionInitializationResponse,
    FileData,
    ClearToSend,
    FileStructure,
    BlockHash,
    SessionResumeRequest,
    SessionResumeResponse,
    MissingData,
    CorruptData,
    Pause,
    SessionEnd,
}

/// The kind denoted by a wire code; unknown codes denote `Invalid`.
pub open spec fn spec_kind_from_code(value: u16) -> NetMessageKind {
    match value {
        0u16 => NetMessageKind::Invalid,
        1u16 => NetMessageKind::Error,
        2u16 => NetMessageKind::SessionInitializationRequest,
        3u16 => NetMessageKind::SessionInitializationResponse,
        4u16 => NetMessageKind::FileData,
        5u16 => NetMessageKind::ClearToSend,
        6u16 => NetMessageKind::FileStructure,
        7u16 => NetMessageKind::BlockHash,
        8u16 => NetMessageKind::SessionResumeRequest,
        9u16 => NetMessageKind::SessionResumeResponse,
        10u16 => NetMessageKind::MissingData,
        11u16 => NetMessageKind::CorruptData,
        12u16 => NetMessageKind::Pause,
        13u16 => NetMessageKind::SessionEnd,
        _ => NetMessageKind::Invalid,
    }
}

impl NetMessageKind {
    /// The wire code of this kind.
    pub open spec fn spec_code(self) -> u16 {
        match self {
            NetMessageKind::Invalid => 0,
            NetMessageKind::Error => 1,
            NetMessageKind::SessionInitializationRequest => 2,
            NetMessageKind::SessionInitializationResponse => 3,
            NetMessageKind::FileData => 4,
            NetMessageKind::ClearToSend => 5,
            NetMessageKind::FileStructure => 6,
            NetMessageKind::BlockHash => 7,
            NetMessageKind::SessionResumeRequest => 8,
            NetMessageKind::SessionResumeResponse => 9,
            NetMessageKind::MissingData => 10,
            NetMessageKind::CorruptData => 11,
            NetMessageKind::Pause => 12,
            NetMessageKind::SessionEnd => 13,
        }
    }

    /// Every kind's code decodes back to the kind.
    pub proof fn lemma_code_round_trip(self)
        ensures
            spec_kind_from_code(self.spec_code()) == self,
    {
    }

    pub fn from_code(value: u16) -> (r: NetMessageKind)
        ensures
            r == spec_kind_from_code(value),
    {
        match value {
            1 => NetMessageKind::Error,
            2 => NetMessageKind::SessionInitializationRequest,
            3 => NetMessageKind::SessionInitializationResponse,
            4 => NetMessageKind::FileData,
            5 => NetMessageKind::ClearToSend,
            6 => NetMessageKind::FileStructure,
            7 => NetMessageKind::BlockHash,
            8 => NetMessageKind::SessionResumeRequest,
            9 => NetMessageKind::SessionResumeResponse,
            10 => NetMessageKind::MissingData,
            11 => NetMessageKind::CorruptData,
            12 => NetMessageKind::Pause,
            13 => NetMessageKind::SessionEnd,
            _ => NetMessageKind::Invalid,
        }
    }

    pub fn code(self) -> (r: u16)
        ensures
            r == self.spec_code(),
    {
        match self {
            NetMessageKind::Invalid => 0,
            NetMessageKind::Error => 1,
            NetMessageKind::SessionInitializationRequest => 2,
            NetMessageKind::SessionInitializationResponse => 3,
            NetMessageKind::FileData => 4,
            NetMessageKind::ClearToSend => 5,
            NetMessageKind::FileStructure => 6,
            NetMessageKind::BlockHash => 7,
            NetMessageKind::SessionResumeRequest => 8,
            NetMessageKind::SessionResumeResponse => 9,
            NetMessageKind::MissingData => 10,
            NetMessageKind::CorruptData => 11,
            NetMessageKind::Pause => 12,
            NetMessageKind::SessionEnd => 13,
        }
    }
}

/// The fixed-width typed-message frame header.
#[derive(Debug, Clone, Copy, PartialEq, Eq, Structural)]
pub struct NetMessageHeader {
    pub magic: u32,
    pub version: u8,
    pub reserved_1: u8,
    pub kind: NetMessageKind,
    pub content_len: u32,
    pub reserved_2: u32,
}

/// The sixteen header bytes: magic, version, a reserved byte, the kind code,
/// the body length, and a reserved word, integers big-endian.
pub open spec fn spec_header_bytes(h: NetMessageHeader) -> Seq<u8> {
    spec_u32_to_be_bytes(h.magic) + seq![h.version, h.reserved_1] + spec_u16_to_be_bytes(
        h.kind.spec_code(),
    ) + spec_u32_to_be_bytes(h.content_len) + spec_u32_to_be_bytes(h.reserved_2)
}

/// The header denoted by sixteen buffered bytes.
pub open spec fn spec_parse_header(b: Seq<u8>) -> NetMessageHeader
    recommends
        b.len() == NET_MSG_HEADER_SIZE,
{
    NetMessageHeader {
        magic: spec_u32_from_be_bytes(b.subrange(0, 4)),
        version: b[4],
        reserved_1: b[5],
        kind: spec_kind_from_code(spec_u16_from_be_bytes(b.subrange(6, 8))),
        content_len: spec_u32_from_be_bytes(b.subrange(8, 12)),
        reserved_2: spec_u32_from_be_bytes(b.subrange(12, 16)),
    }
}

impl NetMessageHeader {
    pub open spec fn spec_valid(&self) -> bool {
        &&& self.magic == NET_MSG_MAGIC
        &&& self.kind != NetMessageKind::Invalid
        &&& self.version == NET_MSG_VERSION
    }

    pub fn new(kind: NetMessageKind, content_len: u32) -> (r: NetMessageHeader)
        ensures
            r == (NetMessageHeader {
                magic: NET_MSG_MAGIC,
                version: NET_MSG_VERSION,
                reserved_1: 0,
                kind,
                content_len,
                reserved_2: 0,
            }),
    {
        NetMessageHeader {
            magic: NET_MSG_MAGIC,
            version: NET_MSG_VERSION,
            reserved_1: 0,
            kind,
            content_len,
            reserved_2: 0,
        }
    }

    /// Consumes one header's worth of buffered bytes and decodes them.
    pub fn parse(buf: &mut RingBuffer) -> (r: NetMessageHeader)
        requires
            old(buf).wf(),
            old(buf)@.len() >= NET_MSG_HEADER_SIZE,
        ensures
            final(buf).wf(),
            final(buf)@ == old(buf)@.skip(NET_MSG_HEADER_SIZE as int),
            r == spec_parse_header(old(buf)@.take(NET_MSG_HEADER_SIZE as int)),
    {
        let ghost o = old(buf)@;
        let magic = buf.read_u32();
        let version = buf.read_u8();
        let reserved_1 = buf.read_u8();
        let kind_code = buf.read_u16();
        let content_len = buf.read_u32();
        let reserved_2 = buf.read_u32();
        let kind = NetMessageKind::from_code(kind_code);
        proof {
            let h = o.take(16);
            assert(o.take(4) =~= h.subrange(0, 4));
            assert(o.skip(4).skip(1) =~= o.skip(5));
            assert(version == h[4]);
            assert(reserved_1 == o.skip(5)[0]);
            assert(o.skip(5).skip(1) =~= o.skip(6));
            assert(o.skip(6).take(2) =~= h.subrange(6, 8));
            assert(o.skip(6).skip(2) =~= o.skip(8));
            assert(o.skip(8).take(4) =~= h.subrange(8, 12));
            assert(o.skip(8).skip(4) =~= o.skip(12));
            assert(o.skip(12).take(4) =~= h.subrange(12, 16));
            assert(o.skip(12).skip(4) =~= o.skip(16));
        }
        NetMessageHeader { magic, version, reserved_1, kind, content_len, reserved_2 }
    }

    /// True exactly when the frame may be acted on: fixed magic, fixed
    /// version, and a known kind.
    pub fn is_valid(&self) -> (r: bool)
        ensures
            r == self.spec_valid(),
    {
        self.magic == NET_MSG_MAGIC && !matches!(self.kind, NetMessageKind::Invalid)
            && self.version == NET_MSG_VERSION
    }

    /// Appends the sixteen header bytes.
    pub fn serialize(&self, header_buf: &mut Vec<u8>)
        ensures
            final(header_buf)@ == old(header_buf)@ + spec_header_bytes(*self),
    {
        self.magic.serialize(header_buf);
        self.version.serialize(header_buf);
        self.reserved_1.serialize(header_buf);
        self.kind.code().serialize(header_buf);
        self.content_len.serialize(header_buf);
        self.reserved_2.serialize(header_buf);
        assert(header_buf@ =~= old(header_buf)@ + spec_header_bytes(*self));
    }
}

/// A serialized header reads back field for field.
pub proof fn lemma_header_round_trip(h: NetMessageHeader)
    ensures
        spec_header_bytes(h).len() == NET_MSG_HEADER_SIZE,
        spec_parse_header(spec_header_bytes(h)) == h,
{
    let b = spec_header_bytes(h);
    lemma_u32_be_bytes(h.magic);
    lemma_u16_be_bytes(h.kind.spec_code());
    lemma_u32_be_bytes(h.content_len);
    lemma_u32_be_bytes(h.reserved_2);
    assert(b.subrange(0, 4) =~= spec_u32_to_be_bytes(h.magic));
    assert(b.subrange(6, 8) =~= spec_u16_to_be_bytes(h.kind.spec_code()));
    assert(b.subrange(8, 12) =~= spec_u32_to_be_bytes(h.content_len));
    assert(b.subrange(12, 16) =~= spec_u32_to_be_bytes(h.reserved_2));
    h.kind.lemma_code_round_trip();
}

/// The typed-message union: one variant per kind.
#[derive(Debug, Clone, PartialEq, Eq)]
pub enum NetMessage {
    Error(ErrorMessage),
    SessionInitializationRequest(SessionInitializationRequestMessage),
    SessionInitializationResponse(SessionInitializationResponseMessage),
    FileData(FileDataMessage),
    ClearToSend(ClearToSendMessage),
    FileStructure(FileStructureMessage),
    BlockHash(BlockHashMessage),
    SessionResumeRequest(SessionResumeRequestMessage),
    SessionResumeResponse(SessionResumeResponseMessage),
    MissingData(MissingDataMessage),
    CorruptData(CorruptDataMessage),
    Pause(PauseMessage),
    SessionEnd(SessionEndMessage),
}

/// The abstract value of a typed message: each byte-field payload as the
/// byte sequence it carries.
pub enum NetMessageV {
    Error(Seq<u8>),
    SessionInitializationRequest(Seq<u8>),
    SessionInitializationResponse(Seq<u8>, bool),
    FileData,
    ClearToSend,
    FileStructure,
    BlockHash,
    SessionResumeRequest(Seq<u8>),
    SessionResumeResponse,
    MissingData,
    CorruptData,
    Pause,
    SessionEnd,
}

impl NetMessageV {
    /// The kind tag of this message value.
    pub open spec fn kind(self) -> NetMessageKind {
        match self {
            NetMessageV::Error(..) => NetMessageKind::Error,
            NetMessageV::SessionInitializationRequest(
                ..,
            ) => NetMessageKind::SessionInitializationRequest,
            NetMessageV::SessionInitializationResponse(
                ..,
            ) => NetMessageKind::SessionInitializationResponse,
            NetMessageV::FileData => NetMessageKind::FileData,
            NetMessageV::ClearToSend => NetMessageKind::ClearToSend,
            NetMessageV::FileStructure => NetMessageKind::FileStructure,
            NetMessageV::BlockHash => NetMessageKind::BlockHash,
            NetMessageV::SessionResumeRequest(..) => NetMessageKind::SessionResumeRequest,
            NetMessageV::SessionResumeResponse => NetMessageKind::SessionResumeResponse,
            NetMessageV::MissingData => NetMessageKind::MissingData,
            NetMessageV::CorruptData => NetMessageKind::CorruptData,
            NetMessageV::Pause => NetMessageKind::Pause,
            NetMessageV::SessionEnd => NetMessageKind::SessionEnd,
        }
    }

    /// The body bytes this message value puts on the wire.
    pub open spec fn body(self) -> Seq<u8> {
        match self {
            NetMessageV::Error(m) => spec_lp_bytes(m),
            NetMessageV::SessionInitializationRequest(id) => spec_lp_bytes(id),
            NetMessageV::SessionInitializationResponse(id, accept) => spec_lp_bytes(id) + seq![
                if accept {
                    1u8
                } else {
                    0u8
                },
            ],
            NetMessageV::SessionResumeRequest(id) => spec_lp_bytes(id),
            _ => Seq::empty(),
        }
    }

    /// Every carried byte field fits its two-byte length prefix.
    pub open spec fn wf(self) -> bool {
        match self {
            NetMessageV::Error(m) => m.len() <= 0xffff,
            NetMessageV::SessionInitializationRequest(id) => id.len() <= 0xffff,
            NetMessageV::SessionInitializationResponse(id, _) => id.len() <= 0xffff,
            NetMessageV::SessionResumeRequest(id) => id.len() <= 0xffff,
            _ => true,
        }
    }
}

/// The message value denoted by a body buffer of the given kind, or `None`
/// where the kind is unknown or the buffer is too short to read.
pub open spec fn spec_parse_body(kind: NetMessageKind, b: Seq<u8>) -> Option<NetMessageV> {
    match kind {
        NetMessageKind::Invalid => None,
        NetMessageKind::Error => if b.len() >= 2 {
            Some(NetMessageV::Error(spec_lp_field(b, 0)))
        } else {
            None
        },
        NetMessageKind::SessionInitializationRequest => if b.len() >= 2 {
            Some(NetMessageV::SessionInitializationRequest(spec_lp_field(b, 0)))
        } else {
            None
        },
        NetMessageKind::SessionInitializationResponse => if b.len() >= 2 && spec_lp_end(b, 0) + 1
            <= b.len() {
            Some(
                NetMessageV::SessionInitializationResponse(
                    spec_lp_field(b, 0),
                    b[spec_lp_end(b, 0)] != 0,
                ),
            )
        } else {
            None
        },
        NetMessageKind::FileData => Some(NetMessageV::FileData),
        NetMessageKind::ClearToSend => Some(NetMessageV::ClearToSend),
        NetMessageKind::FileStructure => Some(NetMessageV::FileStructure),
        NetMessageKind::BlockHash => Some(NetMessageV::BlockHash),
        NetMessageKind::SessionResumeRequest => if b.len() >= 2 {
            Some(NetMessageV::SessionResumeRequest(spec_lp_field(b, 0)))
        } else {
            None
        },
        NetMessageKind::SessionResumeResponse => Some(NetMessageV::SessionResumeResponse),
        NetMessageKind::MissingData => Some(NetMessageV::MissingData),
        NetMessageKind::CorruptData => Some(NetMessageV::CorruptData),
        NetMessageKind::Pause => Some(NetMessageV::Pause),
        NetMessageKind::SessionEnd => Some(NetMessageV::SessionEnd),
    }
}

impl View for NetMessage {
    type V = NetMessageV;

    open spec fn view(&self) -> NetMessageV {
        match self {
            NetMessage::Error(m) => NetMessageV::Error(m@),
            NetMessage::SessionInitializationRequest(
                m,
            ) => NetMessageV::SessionInitializationRequest(m.id@),
            NetMessage::SessionInitializationResponse(
                m,
            ) => NetMessageV::SessionInitializationResponse(m.id@, m.accept),
            NetMessage::FileData(_) => NetMessageV::FileData,
            NetMessage::ClearToSend(_) => NetMessageV::ClearToSend,
            NetMessage::FileStructure(_) => NetMessageV::FileStructure,
            NetMessage::BlockHash(_) => NetMessageV::BlockHash,
            NetMessage::SessionResumeRequest(m) => NetMessageV::SessionResumeRequest(m@),
            NetMessage::SessionResumeResponse(_) => NetMessageV::SessionResumeResponse,
            NetMessage::MissingData(_) => NetMessageV::MissingData,
            NetMessage::CorruptData(_) => NetMessageV::CorruptData,
            NetMessage::Pause(_) => NetMessageV::Pause,
            NetMessage::SessionEnd(_) => NetMessageV::SessionEnd,
        }
    }
}

/// The header that frames a message value.
pub open spec fn spec_msg_header(v: NetMessageV) -> NetMessageHeader {
    NetMessageHeader {
        magic: NET_MSG_MAGIC,
        version: NET_MSG_VERSION,
        reserved_1: 0,
        kind: v.kind(),
        content_len: v.body().len() as u32,
        reserved_2: 0,
    }
}

/// The full frame a message value puts on the wire: header, then body.
pub open spec fn spec_frame_bytes(v: NetMessageV) -> Seq<u8> {
    spec_header_bytes(spec_msg_header(v)) + v.body()
}

impl NetMessage {
    pub open spec fn wf(&self) -> bool {
        self@.wf()
    }

    /// True when every carried byte field fits its two-byte length prefix,
    /// so that the message can be serialized without desynchronizing the
    /// frame; callers test this before serializing.
    pub fn is_wf(&self) -> (r: bool)
        ensures
            r == self.wf(),
    {
        match self {
            NetMessage::Error(m) => {
                proof {
                    m.lemma_view();
                }
                m.message.len() <= 0xffff
            },
            NetMessage::SessionInitializationRequest(m) => {
                proof {
                    m.id.lemma_view();
                }
                m.id.0.len() <= 0xffff
            },
            NetMessage::SessionInitializationResponse(m) => {
                proof {
                    m.id.lemma_view();
                }
                m.id.0.len() <= 0xffff
            },
            NetMessage::SessionResumeRequest(m) => {
                proof {
                    m.lemma_view();
                    m.id.lemma_view();
                }
                m.id.0.len() <= 0xffff
            },
            _ => true,
        }
    }

    /// The kind tag of this message.
    pub fn kind(&self) -> (r: NetMessageKind)
        ensures
            r == self@.kind(),
    {
        match self {
            NetMessage::Error(_) => NetMessageKind::Error,
            NetMessage::SessionInitializationRequest(
                _,
            ) => NetMessageKind::SessionInitializationRequest,
            NetMessage::SessionInitializationResponse(
                _,
            ) => NetMessageKind::SessionInitializationResponse,
            NetMessage::FileData(_) => NetMessageKind::FileData,
            NetMessage::ClearToSend(_) => NetMessageKind::ClearToSend,
            NetMessage::FileStructure(_) => NetMessageKind::FileStructure,
            NetMessage::BlockHash(_) => NetMessageKind::BlockHash,
            NetMessage::SessionResumeRequest(_) => NetMessageKind::SessionResumeRequest,
            NetMessage::SessionResumeResponse(_) => NetMessageKind::SessionResumeResponse,
            NetMessage::MissingData(_) => NetMessageKind::MissingData,
            NetMessage::CorruptData(_) => NetMessageKind::CorruptData,
            NetMessage::Pause(_) => NetMessageKind::Pause,
            NetMessage::SessionEnd(_) => NetMessageKind::SessionEnd,
        }
    }

    /// The byte length of this message's body on the wire.
    pub fn content_len(&self) -> (r: u32)
        requires
            self.wf(),
        ensures
            r == self@.body().len(),
    {
        match self {
            NetMessage::Error(m) => m.content_len(),
            NetMessage::SessionInitializationRequest(m) => m.content_len(),
            NetMessage::SessionInitializationResponse(m) => m.content_len(),
            NetMessage::FileData(m) => m.content_len(),
            NetMessage::ClearToSend(m) => m.content_len(),
            NetMessage::FileStructure(m) => m.content_len(),
            NetMessage::BlockHash(m) => m.content_len(),
            NetMessage::SessionResumeRequest(m) => m.content_len(),
            NetMessage::SessionResumeResponse(m) => m.content_len(),
            NetMessage::MissingData(m) => m.content_len(),
            NetMessage::CorruptData(m) => m.content_len(),
            NetMessage::Pause(m) => m.content_len(),
            NetMessage::SessionEnd(m) => m.content_len(),
        }
    }

    /// Encodes the whole frame: a header naming this message's kind and body
    /// length, then the body itself.
    pub fn serialize(&self) -> (r: Vec<u8>)
        requires
            self.wf(),
        ensures
            r@ == spec_frame_bytes(self@),
    {
        let content_len = self.content_len();
        let header = NetMessageHeader::new(self.kind(), content_len);
        let mut buf: Vec<u8> = Vec::new();
        header.serialize(&mut buf);
        match self {
            NetMessage::Error(m) => m.serialize(&mut buf),
            NetMessage::SessionInitializationRequest(m) => m.serialize(&mut buf),
            NetMessage::SessionInitializationResponse(m) => m.serialize(&mut buf),
            NetMessage::FileData(m) => m.serialize(&mut buf),
            NetMessage::ClearToSend(m) => m.serialize(&mut buf),
            NetMessage::FileStructure(m) => m.serialize(&mut buf),
            NetMessage::BlockHash(m) => m.serialize(&mut buf),
            NetMessage::SessionResumeRequest(m) => m.serialize(&mut buf),
            NetMessage::SessionResumeResponse(m) => m.serialize(&mut buf),
            NetMessage::MissingData(m) => m.serialize(&mut buf),
            NetMessage::CorruptData(m) => m.serialize(&mut buf),
            NetMessage::Pause(m) => m.serialize(&mut buf),
            NetMessage::SessionEnd(m) => m.serialize(&mut buf),
        }
        proof {
            assert(buf@ =~= spec_frame_bytes(self@));
        }
        buf
    }

    /// True when a body of the given kind can be read from the buffer.
    pub fn can_parse(kind: NetMessageKind, msg_buf: &[u8]) -> (r: bool)
        ensures
            r == spec_parse_body(kind, msg_buf@) is Some,
    {
        match kind {
            NetMessageKind::Invalid => false,
            NetMessageKind::Error => msg_buf.len() >= 2,
            NetMessageKind::SessionInitializationRequest => msg_buf.len() >= 2,
            NetMessageKind::SessionInitializationResponse => {
                if msg_buf.len() < 2 {
                    false
                } else {
                    let declared = get_u16(msg_buf, 0) as usize;
                    let avail = msg_buf.len() - 2;
                    let l = if declared < avail {
                        declared
                    } else {
                        avail
                    };
                    2 + l < msg_buf.len()
                }
            },
            NetMessageKind::SessionResumeRequest => msg_buf.len() >= 2,
            _ => true,
        }
    }

    /// Decodes a body buffer under an already-validated header.
    pub fn parse(msg_buf: &[u8], header: &NetMessageHeader) -> (r: NetMessage)
        requires
            spec_parse_body(header.kind, msg_buf@) is Some,
        ensures
            Some(r@) == spec_parse_body(header.kind, msg_buf@),
    {
        match header.kind {
            NetMessageKind::Invalid => {
                // No body parses under the invalid kind, so this arm cannot
                // be reached; any value satisfies the vacuous postcondition.
                proof {
                    assert(false);
                }
                NetMessage::Pause(PauseMessage::parse(msg_buf))
            },
            NetMessageKind::Error => NetMessage::Error(ErrorMessage::parse(msg_buf)),
            NetMessageKind::SessionInitializationRequest => NetMessage::SessionInitializationRequest(
                SessionInitializationRequestMessage::parse(msg_buf),
            ),
            NetMessageKind::SessionInitializationResponse => NetMessage::SessionInitializationResponse(
                SessionInitializationResponseMessage::parse(msg_buf),
            ),
            NetMessageKind::FileData => NetMessage::FileData(FileDataMessage::parse(msg_buf)),
            NetMessageKind::ClearToSend => NetMessage::ClearToSend(
                ClearToSendMessage::parse(msg_buf),
            ),
            NetMessageKind::FileStructure => NetMessage::FileStructure(
                FileStructureMessage::parse(msg_buf),
            ),
            NetMessageKind::BlockHash => NetMessage::BlockHash(BlockHashMessage::parse(msg_buf)),
            NetMessageKind::SessionResumeRequest => NetMessage::SessionResumeRequest(
                SessionResumeRequestMessage::parse(msg_buf),
            ),
            NetMessageKind::SessionResumeResponse => NetMessage::SessionResumeResponse(
                SessionResumeResponseMessage::parse(msg_buf),
            ),
            NetMessageKind::MissingData => NetMessage::MissingData(
                MissingDataMessage::parse(msg_buf),
            ),
            NetMessageKind::CorruptData => NetMessage::CorruptData(
                CorruptDataMessage::parse(msg_buf),
            ),
            NetMessageKind::Pause => NetMessage::Pause(PauseMessage::parse(msg_buf)),
            NetMessageKind::SessionEnd => NetMessage::SessionEnd(SessionEndMessage::parse(msg_buf)),
        }
    }
}

/// Round trip: every well-formed message value's body decodes back to the
/// value under its own kind.
#[verifier::spinoff_prover]
#[verifier::rlimit(50)]
pub proof fn lemma_message_round_trip(v: NetMessageV)
    requires
        v.wf(),
    ensures
        spec_parse_body(v.kind(), v.body()) == Some(v),
{
    match v {
        NetMessageV::Error(m) => {
            lemma_lp_round_trip(Seq::empty(), m, Seq::empty());
            assert(Seq::<u8>::empty() + spec_lp_bytes(m) + Seq::<u8>::empty() =~= v.body());
        },
        NetMessageV::SessionInitializationRequest(id) => {
            lemma_lp_round_trip(Seq::empty(), id, Seq::empty());
            assert(Seq::<u8>::empty() + spec_lp_bytes(id) + Seq::<u8>::empty() =~= v.body());
        },
        NetMessageV::SessionInitializationResponse(id, accept) => {
            let flag = seq![
                if accept {
                    1u8
                } else {
                    0u8
                },
            ];
            lemma_lp_round_trip(Seq::empty(), id, flag);
            assert(Seq::<u8>::empty() + spec_lp_bytes(id) + flag =~= v.body());
            assert(v.body()[spec_lp_end(v.body(), 0)] == flag[0]);
        },
        NetMessageV::SessionResumeRequest(id) => {
            lemma_lp_round_trip(Seq::empty(), id, Seq::empty());
            assert(Seq::<u8>::empty() + spec_lp_bytes(id) + Seq::<u8>::empty() =~= v.body());
        },
        _ => {},
    }
}

/// A kind the codes do not name never yields a parsed message.
pub proof fn lemma_invalid_kind_never_parses(b: Seq<u8>)
    ensures
        spec_parse_body(NetMessageKind::Invalid, b) is None,
{
}

/// Round trip through the whole frame: the sixteen leading bytes decode to
/// a valid header carrying the message's kind and body length, and the rest
/// decodes back to the message value.
pub proof fn lemma_frame_round_trip(v: NetMessageV)
    requires
        v.wf(),
    ensures
        ({
            let f = spec_frame_bytes(v);
            let h = spec_parse_header(f.take(NET_MSG_HEADER_SIZE as int));
            &&& f.len() == NET_MSG_HEADER_SIZE + v.body().len()
            &&& h == spec_msg_header(v)
            &&& h.spec_valid()
            &&& spec_parse_body(h.kind, f.skip(NET_MSG_HEADER_SIZE as int)) == Some(v)
        }),
{
    let f = spec_frame_bytes(v);
    let h0 = spec_msg_header(v);
    lemma_header_round_trip(h0);
    assert(f.take(NET_MSG_HEADER_SIZE as int) =~= spec_header_bytes(h0));
    assert(f.skip(NET_MSG_HEADER_SIZE as int) =~= v.body());
    lemma_message_round_trip(v);
}

/// A sink for outgoing typed messages; the library's callers implement it
/// for their transport.
pub trait NetMessager {
    fn send(&mut self, msg: NetMessage);
}

} // verus!
