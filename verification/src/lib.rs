//! A small file-transfer library: a fixed-capacity ring buffer for staging
//! socket reads, a typed, length-prefixed message protocol, and a
//! size-prefixed bulk-transfer protocol with chunked delivery.

use vstd::prelude::*;

pub mod client;
pub mod header;
pub mod net_msg;
pub mod server;
pub mod wire;

verus! {

use vstd::string::StrSliceExecFns;

/// Capacity of the receive ring buffer, in bytes.
pub const RECV_BUFFER_SIZE: usize = 4096;

/// Discriminated error value reported by a failed protocol operation.
#[derive(Debug, Clone, Copy, PartialEq, Eq, Structural)]
pub enum ProtocolError {
    /// Bad magic, wrong version, or unknown message kind.
    MalformedHeader,
    /// The peer closed the connection before the declared byte count arrived.
    TruncatedTransfer,
    /// A transport-level read or write failed.
    IOFailure,
    /// The requested operation is not implemented.
    UnsupportedOperation,
    /// The destination could not be created or opened.
    PathFailure,
}

/// Fixed-capacity circular byte buffer that stages partially received
/// socket data until a full frame is available.
///
/// The abstract value is the sequence of unread bytes, oldest first.
pub struct RingBuffer {
    buf: Vec<u8>,
    read_ptr: usize,
    len: usize,
}

impl View for RingBuffer {
    type V = Seq<u8>;

    closed spec fn view(&self) -> Seq<u8> {
        if self.read_ptr + self.len <= RECV_BUFFER_SIZE {
            self.buf@.subrange(self.read_ptr as int, self.read_ptr + self.len)
        } else {
            self.buf@.subrange(self.read_ptr as int, RECV_BUFFER_SIZE as int)
                + self.buf@.subrange(0, self.read_ptr + self.len - RECV_BUFFER_SIZE)
        }
    }
}

impl RingBuffer {
    pub closed spec fn wf(&self) -> bool {
        &&& self.buf@.len() == RECV_BUFFER_SIZE
        &&& self.read_ptr < RECV_BUFFER_SIZE
        &&& self.len <= RECV_BUFFER_SIZE
    }

    pub proof fn lemma_len_bound(&self)
        requires
            self.wf(),
        ensures
            self@.len() <= RECV_BUFFER_SIZE,
    {
    }

    pub fn new() -> (r: RingBuffer)
        ensures
            r.wf(),
            r@ == Seq::<u8>::empty(),
    {
        let mut buf: Vec<u8> = Vec::new();
        let mut i: usize = 0;
        while i < RECV_BUFFER_SIZE
            invariant
                buf@.len() == i,
                i <= RECV_BUFFER_SIZE,
            decreases RECV_BUFFER_SIZE - i,
        {
            buf.push(0);
            i = i + 1;
        }
        let r = RingBuffer { buf, read_ptr: 0, len: 0 };
        assert(r@ =~= Seq::<u8>::empty());
        r
    }

    /// Number of unread bytes currently held.
    pub fn len(&self) -> (r: usize)
        requires
            self.wf(),
        ensures
            r == self@.len(),
    {
        self.len
    }

    /// Appends one byte after the unread content.
    fn push_byte(&mut self, b: u8)
        requires
            old(self).wf(),
            old(self)@.len() < RECV_BUFFER_SIZE,
        ensures
            final(self).wf(),
            final(self)@ == old(self)@ + seq![b],
    {
        let wp = if self.read_ptr + self.len >= RECV_BUFFER_SIZE {
            self.read_ptr + self.len - RECV_BUFFER_SIZE
        } else {
            self.read_ptr + self.len
        };
        self.buf.set(wp, b);
        self.len = self.len + 1;
        proof {
            if old(self).read_ptr + old(self).len < RECV_BUFFER_SIZE {
                assert(self@ =~= old(self)@ + seq![b]);
            } else {
                assert(self@ =~= old(self)@ + seq![b]);
            }
        }
    }

    /// Size of the window that the next contiguous write may fill.
    ///
    /// The window never spans the wraparound boundary, so it may under-report
    /// the free space; callers receive into it repeatedly as data drains.
    pub fn writable(&self) -> (r: usize)
        requires
            self.wf(),
        ensures
            r <= RECV_BUFFER_SIZE - self@.len(),
            (r == 0) <==> (self@.len() == RECV_BUFFER_SIZE),
    {
        if self.len == RECV_BUFFER_SIZE {
            0
        } else {
            let wp = if self.read_ptr + self.len >= RECV_BUFFER_SIZE {
                self.read_ptr + self.len - RECV_BUFFER_SIZE
            } else {
                self.read_ptr + self.len
            };
            if wp < self.read_ptr {
                self.read_ptr - wp
            } else {
                RECV_BUFFER_SIZE - wp
            }
        }
    }

    /// Records `data` as newly received: the bytes join the unread content.
    pub fn written(&mut self, data: &[u8])
        requires
            old(self).wf(),
            old(self)@.len() + data@.len() <= RECV_BUFFER_SIZE,
        ensures
            final(self).wf(),
            final(self)@ == old(self)@ + data@,
    {
        let n = data.len();
        let mut i: usize = 0;
        while i < n
            invariant
                self.wf(),
                n == data@.len(),
                i <= n,
                old(self)@.len() + n <= RECV_BUFFER_SIZE,
                self@ == old(self)@ + data@.take(i as int),
            decreases n - i,
        {
            self.push_byte(data[i]);
            proof {
                assert(old(self)@ + data@.take(i as int) + seq![data@[i as int]]
                    =~= old(self)@ + data@.take(i + 1));
            }
            i = i + 1;
        }
        proof {
            assert(old(self)@ + data@.take(n as int) =~= old(self)@ + data@);
        }
    }

    /// Removes and returns the oldest unread byte.
    fn read_u8(&mut self) -> (r: u8)
        requires
            old(self).wf(),
            old(self)@.len() >= 1,
        ensures
            final(self).wf(),
            r == old(self)@[0],
            final(self)@ == old(self)@.skip(1),
    {
        let r = self.buf[self.read_ptr];
        self.read_ptr = self.read_ptr + 1;
        if self.read_ptr == RECV_BUFFER_SIZE {
            self.read_ptr = 0;
        }
        self.len = self.len - 1;
        proof {
            assert(self@ =~= old(self)@.skip(1));
        }
        r
    }

    /// Removes and returns the two oldest unread bytes as a big-endian `u16`.
    fn read_u16(&mut self) -> (r: u16)
        requires
            old(self).wf(),
            old(self)@.len() >= 2,
        ensures
            final(self).wf(),
            r == wire::spec_u16_from_be_bytes(old(self)@.take(2)),
            final(self)@ == old(self)@.skip(2),
    {
        let b0 = self.read_u8();
        let b1 = self.read_u8();
        proof {
            assert(old(self)@.take(2)[0] == b0);
            assert(old(self)@.take(2)[1] == old(self)@.skip(1)[0]);
            assert(self@ =~= old(self)@.skip(2));
        }
        (b0 as u16) << 8 | (b1 as u16)
    }

    /// Removes and returns the four oldest unread bytes as a big-endian `u32`.
    fn read_u32(&mut self) -> (r: u32)
        requires
            old(self).wf(),
            old(self)@.len() >= 4,
        ensures
            final(self).wf(),
            r == wire::spec_u32_from_be_bytes(old(self)@.take(4)),
            final(self)@ == old(self)@.skip(4),
    {
        let b0 = self.read_u8();
        let b1 = self.read_u8();
        let b2 = self.read_u8();
        let b3 = self.read_u8();
        proof {
            let s = old(self)@.take(4);
            assert(s[0] == b0);
            assert(s[1] == old(self)@.skip(1)[0]);
            assert(s[2] == old(self)@.skip(1).skip(1)[0]);
            assert(s[3] == old(self)@.skip(1).skip(1).skip(1)[0]);
            assert(self@ =~= old(self)@.skip(4));
        }
        (b0 as u32) << 24 | (b1 as u32) << 16 | (b2 as u32) << 8 | (b3 as u32)
    }

    /// Moves up to `content_len` unread bytes into the front of `msg_buf`,
    /// oldest first; bytes past the moved prefix keep their old values.
    pub fn move_content(&mut self, content_len: usize, msg_buf: &mut Vec<u8>)
        requires
            old(self).wf(),
            old(msg_buf)@.len() >= vstd::math::min(
                old(self)@.len() as int,
                content_len as int,
            ),
        ensures
            final(self).wf(),
            ({
                let k = vstd::math::min(old(self)@.len() as int, content_len as int);
                &&& final(self)@ == old(self)@.skip(k)
                &&& final(msg_buf)@ == old(self)@.take(k) + old(msg_buf)@.skip(k)
            }),
    {
        let avail = self.len();
        let k = if avail < content_len {
            avail
        } else {
            content_len
        };
        let mut i: usize = 0;
        while i < k
            invariant
                self.wf(),
                i <= k,
                k == vstd::math::min(old(self)@.len() as int, content_len as int),
                k <= old(msg_buf)@.len(),
                msg_buf@.len() == old(msg_buf)@.len(),
                self@ == old(self)@.skip(i as int),
                msg_buf@ == old(self)@.take(i as int) + old(msg_buf)@.skip(i as int),
            decreases k - i,
        {
            let b = self.read_u8();
            msg_buf.set(i, b);
            proof {
                assert(old(self)@.skip(i as int).skip(1) =~= old(self)@.skip(i + 1));
                assert((old(self)@.take(i as int) + old(msg_buf)@.skip(i as int)).update(
                    i as int,
                    b,
                ) =~= old(self)@.take(i + 1) + old(msg_buf)@.skip(i + 1));
            }
            i = i + 1;
        }
    }
}

/// Opaque session identifier carried by session-initialization and resume
/// messages; held as the UTF-8 bytes of the identifying text.
#[derive(Debug, Clone, PartialEq, Eq)]
pub struct ConnectionId(pub(crate) Vec<u8>);

impl View for ConnectionId {
    type V = Seq<u8>;

    closed spec fn view(&self) -> Seq<u8> {
        self.0@
    }
}

impl ConnectionId {
    pub fn new(s: String) -> (r: ConnectionId)
        ensures
            r@ == vstd::utf8::encode_utf8(s@),
    {
        ConnectionId(s.as_str().as_bytes_vec())
    }

    /// The abstract value is exactly the held byte vector.
    pub(crate) proof fn lemma_view(&self)
        ensures
            self@ == self.0@,
    {
    }
}

/// Consumes one buffered header's worth of bytes; a frame whose magic,
/// version or kind is wrong is rejected as malformed, and the connection
/// must then be closed.
pub fn extract_header(rb: &mut RingBuffer) -> (r: Result<
    net_msg::NetMessageHeader,
    ProtocolError,
>)
    requires
        old(rb).wf(),
        old(rb)@.len() >= net_msg::NET_MSG_HEADER_SIZE,
    ensures
        final(rb).wf(),
        final(rb)@ == old(rb)@.skip(net_msg::NET_MSG_HEADER_SIZE as int),
        ({
            let h = net_msg::spec_parse_header(
                old(rb)@.take(net_msg::NET_MSG_HEADER_SIZE as int),
            );
            if h.spec_valid() {
                r == Ok::<net_msg::NetMessageHeader, ProtocolError>(h)
            } else {
                r == Err::<net_msg::NetMessageHeader, ProtocolError>(
                    ProtocolError::MalformedHeader,
                )
            }
        }),
{
    let header = net_msg::NetMessageHeader::parse(rb);
    if header.is_valid() {
        Ok(header)
    } else {
        Err(ProtocolError::MalformedHeader)
    }
}

/// Grows the scratch body buffer to the declared length if needed (never
/// shrinking it), then drains the already-buffered bytes into its front.
/// Returns how many body bytes came from the buffer; the caller reads the
/// rest, if any, straight from the socket. Bytes of a later frame that are
/// already buffered stay buffered.
pub fn stage_body(rb: &mut RingBuffer, content_len: usize, msg_buf: &mut Vec<u8>) -> (taken:
    usize)
    requires
        old(rb).wf(),
    ensures
        final(rb).wf(),
        taken == vstd::math::min(old(rb)@.len() as int, content_len as int),
        final(rb)@ == old(rb)@.skip(taken as int),
        ({
            let grown = if content_len > old(msg_buf)@.len() {
                old(msg_buf)@ + Seq::new((content_len - old(msg_buf)@.len()) as nat, |i: int| 0u8)
            } else {
                old(msg_buf)@
            };
            &&& final(msg_buf)@ == old(rb)@.take(taken as int) + grown.skip(taken as int)
            &&& final(msg_buf)@.len() == grown.len()
        }),
{
    let ghost grown = if content_len > old(msg_buf)@.len() {
        old(msg_buf)@ + Seq::new((content_len - old(msg_buf)@.len()) as nat, |i: int| 0u8)
    } else {
        old(msg_buf)@
    };
    while msg_buf.len() < content_len
        invariant
            old(msg_buf)@.len() <= msg_buf@.len(),
            msg_buf@.len() <= vstd::math::max(old(msg_buf)@.len() as int, content_len as int),
            msg_buf@.take(old(msg_buf)@.len() as int) == old(msg_buf)@,
            forall|j: int| old(msg_buf)@.len() <= j < msg_buf@.len() ==> msg_buf@[j] == 0u8,
        decreases content_len - msg_buf@.len(),
    {
        msg_buf.push(0);
        proof {
            assert(msg_buf@.take(old(msg_buf)@.len() as int) =~= old(msg_buf)@);
        }
    }
    proof {
        assert(msg_buf@ =~= grown);
    }
    let avail = rb.len();
    let taken = if avail < content_len {
        avail
    } else {
        content_len
    };
    rb.move_content(content_len, msg_buf);
    taken
}

} // verus!
