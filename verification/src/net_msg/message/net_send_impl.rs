//! Wire codec for the error message body.

use vstd::prelude::*;

use crate::net_msg::message::ErrorMessage;
use crate::net_msg::message_fields::NetSerializable;
use crate::wire::{spec_lp_bytes, spec_lp_field};

verus! {

impl ErrorMessage {
    pub open spec fn wf(&self) -> bool {
        self@.len() <= 0xffff
    }

    pub fn content_len(&self) -> (r: u32)
        requires
            self.wf(),
        ensures
            r == 2 + self@.len(),
    {
        proof {
            self.lemma_view();
        }
        self.message.content_len()
    }

    pub fn serialize(&self, msg_buf: &mut Vec<u8>)
        requires
            self.wf(),
        ensures
            final(msg_buf)@ == old(msg_buf)@ + spec_lp_bytes(self@),
    {
        proof {
            self.lemma_view();
        }
        self.message.serialize(msg_buf);
    }

    pub fn parse(buf: &[u8]) -> (r: ErrorMessage)
        requires
            buf@.len() >= 2,
        ensures
            r@ == spec_lp_field(buf@, 0),
    {
        let (message, _) = <Vec<u8> as NetSerializable>::parse(buf, 0);
        let r = ErrorMessage { message };
        proof {
            r.lemma_view();
        }
        r
    }
}

} // verus!
