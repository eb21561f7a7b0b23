//! The closed set of message bodies carried by the typed-message protocol.
//! Each kind owns its serialization, parsing and length reporting; several
//! kinds are zero-payload signal frames reserved for future fields.

use vstd::prelude::*;

use crate::ConnectionId;
use crate::wire::{spec_lp_bytes, spec_lp_end, spec_lp_field};
use crate::net_msg::message_fields::{ConstNetSerializable, NetSerializable};

mod net_send_impl;

verus! {

use vstd::string::StrSliceExecFns;

/// A free-text error report; the text travels as its UTF-8 bytes.
#[derive(Debug, Clone, PartialEq, Eq)]
pub struct ErrorMessage {
    pub(crate) message: Vec<u8>,
}

impl View for ErrorMessage {
    type V = Seq<u8>;

    closed spec fn view(&self) -> Seq<u8> {
        self.message@
    }
}

impl ErrorMessage {
    pub fn new(message: &str) -> (r: ErrorMessage)
        ensures
            r@ == vstd::utf8::encode_utf8(message@),
    {
        ErrorMessage { message: message.as_bytes_vec() }
    }

    /// The abstract value is exactly the held byte vector.
    pub(crate) proof fn lemma_view(&self)
        ensures
            self@ == self.message@,
    {
    }
}

#[derive(Debug, Clone, PartialEq, Eq)]
pub struct SessionInitializationRequestMessage {
    pub id: ConnectionId,
}

impl SessionInitializationRequestMessage {
    pub fn new(id: ConnectionId) -> (r: SessionInitializationRequestMessage)
        ensures
            r.id == id,
    {
        SessionInitializationRequestMessage { id }
    }

    pub open spec fn wf(&self) -> bool {
        self.id@.len() <= 0xffff
    }

    pub fn serialize(&self, msg_buf: &mut Vec<u8>)
        requires
            self.wf(),
        ensures
            final(msg_buf)@ == old(msg_buf)@ + spec_lp_bytes(self.id@),
    {
        self.id.serialize(msg_buf);
    }

    pub fn content_len(&self) -> (r: u32)
        requires
            self.wf(),
        ensures
            r == 2 + self.id@.len(),
    {
        self.id.content_len()
    }

    pub fn parse(msg_buf: &[u8]) -> (r: SessionInitializationRequestMessage)
        requires
            msg_buf@.len() >= 2,
        ensures
            r.id@ == spec_lp_field(msg_buf@, 0),
    {
        let (id, _) = ConnectionId::parse(msg_buf, 0);
        SessionInitializationRequestMessage { id }
    }
}

#[derive(Debug, Clone, PartialEq, Eq)]
pub struct SessionInitializationResponseMessage {
    pub id: ConnectionId,
    pub accept: bool,
}

impl SessionInitializationResponseMessage {
    pub fn new(id: ConnectionId, accept: bool) -> (r: SessionInitializationResponseMessage)
        ensures
            r.id == id,
            r.accept == accept,
    {
        SessionInitializationResponseMessage { id, accept }
    }

    pub open spec fn wf(&self) -> bool {
        self.id@.len() <= 0xffff
    }

    pub fn serialize(&self, msg_buf: &mut Vec<u8>)
        requires
            self.wf(),
        ensures
            final(msg_buf)@ == old(msg_buf)@ + spec_lp_bytes(self.id@) + seq![
                if self.accept {
                    1u8
                } else {
                    0u8
                },
            ],
    {
        self.id.serialize(msg_buf);
        self.accept.serialize(msg_buf);
    }

    pub fn content_len(&self) -> (r: u32)
        requires
            self.wf(),
        ensures
            r == 2 + self.id@.len() + 1,
    {
        self.id.content_len() + bool::content_len()
    }

    /// True when a response body can be read from the buffer: the identifier
    /// field fits, and one more byte follows it for the accept flag.
    pub open spec fn spec_can_parse(b: Seq<u8>) -> bool {
        b.len() >= 2 && spec_lp_end(b, 0) + 1 <= b.len()
    }

    pub fn parse(msg_buf: &[u8]) -> (r: SessionInitializationResponseMessage)
        requires
            Self::spec_can_parse(msg_buf@),
        ensures
            r.id@ == spec_lp_field(msg_buf@, 0),
            r.accept == (msg_buf@[spec_lp_end(msg_buf@, 0)] != 0),
    {
        let (id, pos) = ConnectionId::parse(msg_buf, 0);
        let accept = bool::parse(msg_buf, pos);
        proof {
            assert(msg_buf@.subrange(pos as int, pos + 1)[0] == msg_buf@[pos as int]);
        }
        SessionInitializationResponseMessage { id, accept }
    }
}

/// Zero-payload placeholder reserved for future fields.
#[derive(Debug, Clone, PartialEq, Eq)]
pub struct FileDataMessage {}

impl FileDataMessage {
    pub fn serialize(&self, msg_buf: &mut Vec<u8>)
        ensures
            final(msg_buf)@ == old(msg_buf)@,
    {
    }

    pub fn content_len(&self) -> (r: u32)
        ensures
            r == 0,
    {
        0
    }

    pub fn parse(msg_buf: &[u8]) -> (r: FileDataMessage) {
        FileDataMessage {  }
    }
}

/// Zero-payload placeholder reserved for future fields.
#[derive(Debug, Clone, PartialEq, Eq)]
pub struct ClearToSendMessage {}

impl ClearToSendMessage {
    pub fn serialize(&self, msg_buf: &mut Vec<u8>)
        ensures
            final(msg_buf)@ == old(msg_buf)@,
    {
    }

    pub fn content_len(&self) -> (r: u32)
        ensures
            r == 0,
    {
        0
    }

    pub fn parse(msg_buf: &[u8]) -> (r: ClearToSendMessage) {
        ClearToSendMessage {  }
    }
}

/// Zero-payload placeholder reserved for future fields.
#[derive(Debug, Clone, PartialEq, Eq)]
pub struct FileStructureMessage {}

impl FileStructureMessage {
    pub fn new() -> (r: FileStructureMessage) {
        FileStructureMessage {  }
    }

    pub fn serialize(&self, msg_buf: &mut Vec<u8>)
        ensures
            final(msg_buf)@ == old(msg_buf)@,
    {
    }

    pub fn content_len(&self) -> (r: u32)
        ensures
            r == 0,
    {
        0
    }

    pub fn parse(msg_buf: &[u8]) -> (r: FileStructureMessage) {
        FileStructureMessage {  }
    }
}

/// Zero-payload placeholder reserved for future fields.
#[derive(Debug, Clone, PartialEq, Eq)]
pub struct BlockHashMessage {}

impl BlockHashMessage {
    pub fn new() -> (r: BlockHashMessage) {
        BlockHashMessage {  }
    }

    pub fn serialize(&self, msg_buf: &mut Vec<u8>)
        ensures
            final(msg_buf)@ == old(msg_buf)@,
    {
    }

    pub fn content_len(&self) -> (r: u32)
        ensures
            r == 0,
    {
        0
    }

    pub fn parse(msg_buf: &[u8]) -> (r: BlockHashMessage) {
        BlockHashMessage {  }
    }
}

/// A request to resume the session named by the carried identifier.
#[derive(Debug, Clone, PartialEq, Eq)]
pub struct SessionResumeRequestMessage {
    pub(crate) id: ConnectionId,
}

impl View for SessionResumeRequestMessage {
    type V = Seq<u8>;

    closed spec fn view(&self) -> Seq<u8> {
        self.id@
    }
}

impl SessionResumeRequestMessage {
    /// The abstract value is the identifier's byte form.
    pub(crate) proof fn lemma_view(&self)
        ensures
            self@ == self.id@,
    {
    }

    pub open spec fn wf(&self) -> bool {
        self@.len() <= 0xffff
    }

    pub fn serialize(&self, msg_buf: &mut Vec<u8>)
        requires
            self.wf(),
        ensures
            final(msg_buf)@ == old(msg_buf)@ + spec_lp_bytes(self@),
    {
        proof {
            self.lemma_view();
        }
        self.id.serialize(msg_buf);
    }

    pub fn content_len(&self) -> (r: u32)
        requires
            self.wf(),
        ensures
            r == 2 + self@.len(),
    {
        proof {
            self.lemma_view();
        }
        self.id.content_len()
    }

    pub fn parse(msg_buf: &[u8]) -> (r: SessionResumeRequestMessage)
        requires
            msg_buf@.len() >= 2,
        ensures
            r@ == spec_lp_field(msg_buf@, 0),
    {
        let (id, _) = ConnectionId::parse(msg_buf, 0);
        let r = SessionResumeRequestMessage { id };
        proof {
            r.lemma_view();
        }
        r
    }
}

/// Zero-payload placeholder reserved for future fields.
#[derive(Debug, Clone, PartialEq, Eq)]
pub struct SessionResumeResponseMessage {}

impl SessionResumeResponseMessage {
    pub fn serialize(&self, msg_buf: &mut Vec<u8>)
        ensures
            final(msg_buf)@ == old(msg_buf)@,
    {
    }

    pub fn content_len(&self) -> (r: u32)
        ensures
            r == 0,
    {
        0
    }

    pub fn parse(msg_buf: &[u8]) -> (r: SessionResumeResponseMessage) {
        SessionResumeResponseMessage {  }
    }
}

/// Zero-payload placeholder reserved for future fields.
#[derive(Debug, Clone, PartialEq, Eq)]
pub struct MissingDataMessage {}

impl MissingDataMessage {
    pub fn serialize(&self, msg_buf: &mut Vec<u8>)
        ensures
            final(msg_buf)@ == old(msg_buf)@,
    {
    }

    pub fn content_len(&self) -> (r: u32)
        ensures
            r == 0,
    {
        0
    }

    pub fn parse(msg_buf: &[u8]) -> (r: MissingDataMessage) {
        MissingDataMessage {  }
    }
}

/// Zero-payload placeholder reserved for future fields.
#[derive(Debug, Clone, PartialEq, Eq)]
pub struct CorruptDataMessage {}

impl CorruptDataMessage {
    pub fn serialize(&self, msg_buf: &mut Vec<u8>)
        ensures
            final(msg_buf)@ == old(msg_buf)@,
    {
    }

    pub fn content_len(&self) -> (r: u32)
        ensures
            r == 0,
    {
        0
    }

    pub fn parse(msg_buf: &[u8]) -> (r: CorruptDataMessage) {
        CorruptDataMessage {  }
    }
}

/// Zero-payload placeholder reserved for future fields.
#[derive(Debug, Clone, PartialEq, Eq)]
pub struct PauseMessage {}

impl PauseMessage {
    pub fn serialize(&self, msg_buf: &mut Vec<u8>)
        ensures
            final(msg_buf)@ == old(msg_buf)@,
    {
    }

    pub fn content_len(&self) -> (r: u32)
        ensures
            r == 0,
    {
        0
    }

    pub fn parse(msg_buf: &[u8]) -> (r: PauseMessage) {
        PauseMessage {  }
    }
}

/// Zero-payload placeholder reserved for future fields.
#[derive(Debug, Clone, PartialEq, Eq)]
pub struct SessionEndMessage {}

impl SessionEndMessage {
    pub fn serialize(&self, msg_buf: &mut Vec<u8>)
        ensures
            final(msg_buf)@ == old(msg_buf)@,
    {
    }

    pub fn content_len(&self) -> (r: u32)
        ensures
            r == 0,
    {
        0
    }

    pub fn parse(msg_buf: &[u8]) -> (r: SessionEndMessage) {
        SessionEndMessage {  }
    }
}

} // verus!
