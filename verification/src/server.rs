//! The receiving side's decisions: what a validated transfer header and its
//! subheader ask the server to do, and the accounting that detects a peer
//! closing before the declared byte count arrived.

use vstd::prelude::*;

use crate::ProtocolError;
use crate::header::{
    Header, SubHeaderRaw, SubHeaderChunkedRaw, SubHeaderType, spec_subheader_fits,
    spec_subheader_chunked_fits, spec_parse_subheader, subheader_fits, subheader_chunked_fits,
    PATH_LENGTH_SIZE,
};
use crate::wire::spec_u64_from_be_bytes;

verus! {

/// What one server instance listens with: its port and the root directory
/// that destination paths are resolved under.
#[derive(Debug, Clone)]
pub struct ServerSettings {
    pub port: u16,
    pub download_path: String,
}

/// What the handler of one accepted connection must do with the body bytes
/// that follow the subheader.
#[derive(Debug)]
pub enum ReceiveAction {
    /// Truncate-create the destination file and stream `count` bytes into it.
    CreateAndFill { path: String, count: u64 },
    /// Open the destination file for append and stream `count` bytes onto it.
    AppendAndFill { path: String, count: u64 },
}

/// The abstract value of a receive action.
pub enum ReceiveActionV {
    Create { path: Seq<char>, count: u64 },
    Append { path: Seq<char>, count: u64 },
}

impl View for ReceiveAction {
    type V = ReceiveActionV;

    open spec fn view(&self) -> ReceiveActionV {
        match self {
            ReceiveAction::CreateAndFill { path, count } => ReceiveActionV::Create {
                path: path@,
                count: *count,
            },
            ReceiveAction::AppendAndFill { path, count } => ReceiveActionV::Append {
                path: path@,
                count: *count,
            },
        }
    }
}

/// The action a validated header and its subheader buffer call for, or the
/// error that rejects the connection: create-file fills with the whole
/// declared content, the chunked forms fill with this chunk's own size, the
/// reserved directory form is unsupported, and a subheader that does not fit
/// its buffer or carries a non-UTF-8 path is malformed.
pub open spec fn spec_plan_connection(h: Header, sub: Seq<u8>) -> Result<
    ReceiveActionV,
    ProtocolError,
> {
    match h.subheader_type {
        SubHeaderType::CreateFile => if !spec_subheader_fits(sub) {
            Err(ProtocolError::MalformedHeader)
        } else {
            let count = spec_u64_from_be_bytes(sub.subrange(0, PATH_LENGTH_SIZE as int));
            let pb = sub.subrange(PATH_LENGTH_SIZE as int, PATH_LENGTH_SIZE + count);
            match spec_parse_subheader(pb) {
                Ok(path) => Ok(ReceiveActionV::Create { path, count: h.content_size }),
                Err(_) => Err(ProtocolError::MalformedHeader),
            }
        },
        SubHeaderType::CreateDirectory => Err(ProtocolError::UnsupportedOperation),
        SubHeaderType::CreateFileChunked => match spec_plan_chunked(sub) {
            Ok((path, packet_size)) => Ok(ReceiveActionV::Create { path, count: packet_size }),
            Err(e) => Err(e),
        },
        SubHeaderType::FillFileChunked => match spec_plan_chunked(sub) {
            Ok((path, packet_size)) => Ok(ReceiveActionV::Append { path, count: packet_size }),
            Err(e) => Err(e),
        },
    }
}

/// The path and chunk size a chunked subheader buffer carries, or the error
/// that rejects it.
pub open spec fn spec_plan_chunked(sub: Seq<u8>) -> Result<(Seq<char>, u64), ProtocolError> {
    if !spec_subheader_chunked_fits(sub) {
        Err(ProtocolError::MalformedHeader)
    } else {
        let packet_size = spec_u64_from_be_bytes(sub.subrange(0, PATH_LENGTH_SIZE as int));
        let count = spec_u64_from_be_bytes(
            sub.subrange(PATH_LENGTH_SIZE as int, PATH_LENGTH_SIZE + PATH_LENGTH_SIZE),
        );
        let pb = sub.subrange(
            (PATH_LENGTH_SIZE + PATH_LENGTH_SIZE) as int,
            PATH_LENGTH_SIZE + PATH_LENGTH_SIZE + count,
        );
        match spec_parse_subheader(pb) {
            Ok(path) => Ok((path, packet_size)),
            Err(_) => Err(ProtocolError::MalformedHeader),
        }
    }
}

/// Dispatches one accepted connection: decodes the subheader under the
/// already-validated header and says what to do with the body bytes.
pub fn plan_connection(header: &Header, subheader_buf: &[u8]) -> (r: Result<
    ReceiveAction,
    ProtocolError,
>)
    ensures
        ({
            let s = spec_plan_connection(*header, subheader_buf@);
            &&& (r is Ok <==> s is Ok)
            &&& (r matches Ok(a) ==> s == Ok::<ReceiveActionV, ProtocolError>(a@))
            &&& (r matches Err(e) ==> s == Err::<ReceiveActionV, ProtocolError>(e))
        }),
{
    match header.subheader_type {
        SubHeaderType::CreateFile => {
            if !subheader_fits(subheader_buf) {
                return Err(ProtocolError::MalformedHeader);
            }
            let raw = SubHeaderRaw::new(subheader_buf);
            match raw.parse() {
                Ok(sub) => Ok(
                    ReceiveAction::CreateAndFill { path: sub.path, count: header.content_size },
                ),
                Err(_) => Err(ProtocolError::MalformedHeader),
            }
        },
        SubHeaderType::CreateDirectory => Err(ProtocolError::UnsupportedOperation),
        SubHeaderType::CreateFileChunked => {
            if !subheader_chunked_fits(subheader_buf) {
                return Err(ProtocolError::MalformedHeader);
            }
            let raw = SubHeaderChunkedRaw::new(subheader_buf);
            match raw.parse() {
                Ok(sub) => Ok(
                    ReceiveAction::CreateAndFill { path: sub.path, count: sub.packet_size },
                ),
                Err(_) => Err(ProtocolError::MalformedHeader),
            }
        },
        SubHeaderType::FillFileChunked => {
            if !subheader_chunked_fits(subheader_buf) {
                return Err(ProtocolError::MalformedHeader);
            }
            let raw = SubHeaderChunkedRaw::new(subheader_buf);
            match raw.parse() {
                Ok(sub) => Ok(
                    ReceiveAction::AppendAndFill { path: sub.path, count: sub.packet_size },
                ),
                Err(_) => Err(ProtocolError::MalformedHeader),
            }
        },
    }
}

/// Accounting for one body stream: how many declared bytes are still owed,
/// and whether a peer that closes now has truncated the transfer.
#[derive(Debug, Clone, Copy, PartialEq, Eq, Structural)]
pub struct TransferProgress {
    pub remaining: u64,
}

impl TransferProgress {
    pub fn new(count: u64) -> (r: TransferProgress)
        ensures
            r.remaining == count,
    {
        TransferProgress { remaining: count }
    }

    /// True when every declared byte has arrived.
    pub fn finished(&self) -> (r: bool)
        ensures
            r == (self.remaining == 0),
    {
        self.remaining == 0
    }

    /// Accounts for `n` freshly read bytes and returns how many of them
    /// belong to this transfer; any beyond the declared count do not.
    pub fn take(&mut self, n: usize) -> (w: usize)
        ensures
            w == vstd::math::min(n as int, old(self).remaining as int),
            final(self).remaining == old(self).remaining - w,
    {
        if (n as u64) < self.remaining {
            self.remaining = self.remaining - n as u64;
            n
        } else {
            let w = self.remaining as usize;
            self.remaining = 0;
            w
        }
    }

    /// The peer closed the connection: that truncates the transfer exactly
    /// when bytes were still owed.
    pub fn on_close(&self) -> (r: Result<(), ProtocolError>)
        ensures
            r == (if self.remaining > 0 {
                Err::<(), ProtocolError>(ProtocolError::TruncatedTransfer)
            } else {
                Ok::<(), ProtocolError>(())
            }),
    {
        if self.remaining > 0 {
            Err(ProtocolError::TruncatedTransfer)
        } else {
            Ok(())
        }
    }
}

} // verus!
