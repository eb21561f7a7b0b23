//! The sending pipeline: how a file is cut into chunks, and the header and
//! subheader bytes that open the connection carrying each chunk.

use vstd::prelude::*;

use crate::header::{
    Header, SubHeader, SubHeaderChunked, SubHeaderType, spec_subheader_bytes,
    spec_subheader_chunked_bytes, spec_transfer_header_bytes,
};
use vstd::utf8::encode_utf8;

verus! {

/// Largest body a single connection carries; larger files travel chunked.
pub const MAX_PACKET_SIZE: usize = 0x3fffffff;

/// The fixed protocol version stamped into every transfer header.
pub open spec fn spec_protocol_version() -> (u8, u8, u8, u8) {
    (0, 0, 0, 1)
}

pub fn protocol_version() -> (r: (u8, u8, u8, u8))
    ensures
        r == spec_protocol_version(),
{
    (0, 0, 0, 1)
}

/// One planned chunk: where it starts in the file, how many bytes it
/// carries, and which receiver behavior its connection asks for.
#[derive(Debug, Clone, Copy, PartialEq, Eq, Structural)]
pub struct ChunkPlan {
    pub offset: usize,
    pub size: usize,
    pub subheader_type: SubHeaderType,
}

/// How many chunks a file of `content_size` bytes needs at `max_packet`
/// bytes per chunk.
pub open spec fn spec_chunk_count(content_size: int, max_packet: int) -> int
    recommends
        max_packet >= 1,
    decreases content_size,
{
    if content_size <= 0 {
        0
    } else if content_size <= max_packet {
        1
    } else if max_packet < 1 {
        0
    } else {
        1 + spec_chunk_count(content_size - max_packet, max_packet)
    }
}

/// Cuts a file into the chunks the sender will emit, in send order: a file
/// no larger than `max_packet` travels whole on one create-file connection;
/// anything larger is cut into full packets (a short one last), the first
/// creating the destination file and the rest appending to it in order.
#[verifier::spinoff_prover]
#[verifier::rlimit(100)]
pub fn plan_chunks(content_size: usize, max_packet: usize) -> (r: Vec<ChunkPlan>)
    requires
        max_packet >= 1,
    ensures
        r@.len() >= 1,
        r@[0].offset == 0,
        forall|i: int|
            0 <= i < r@.len() ==> #[trigger] r@[i].offset + r@[i].size == (if i + 1 < r@.len() {
                r@[i + 1].offset as int
            } else {
                content_size as int
            }),
        forall|i: int| 0 <= i < r@.len() ==> #[trigger] r@[i].size <= max_packet,
        forall|i: int| 0 <= i < r@.len() - 1 ==> #[trigger] r@[i].size == max_packet,
        content_size <= max_packet ==> (r@.len() == 1 && r@[0].size == content_size
            && r@[0].subheader_type == SubHeaderType::CreateFile),
        content_size > max_packet ==> (r@.len() == spec_chunk_count(
            content_size as int,
            max_packet as int,
        ) && (forall|i: int| 0 <= i < r@.len() ==> 1 <= #[trigger] r@[i].size) && (forall|i: int|
            0 <= i < r@.len() ==> #[trigger] r@[i].subheader_type == (if i == 0 {
                SubHeaderType::CreateFileChunked
            } else {
                SubHeaderType::FillFileChunked
            }))),
{
    let mut r: Vec<ChunkPlan> = Vec::new();
    if content_size <= max_packet {
        r.push(
            ChunkPlan { offset: 0, size: content_size, subheader_type: SubHeaderType::CreateFile },
        );
        return r;
    }
    let mut offset: usize = 0;
    while offset < content_size
        invariant
            max_packet >= 1,
            content_size > max_packet,
            offset <= content_size,
            (r@.len() == 0) <==> (offset == 0),
            r@.len() >= 1 ==> r@[0].offset == 0,
            r@.len() >= 1 ==> r@[r@.len() - 1].offset + r@[r@.len() - 1].size == offset,
            forall|i: int|
                0 <= i < r@.len() ==> #[trigger] r@[i].offset + r@[i].size == (if i + 1
                    < r@.len() {
                    r@[i + 1].offset as int
                } else {
                    offset as int
                }),
            forall|i: int| 0 <= i < r@.len() ==> 1 <= #[trigger] r@[i].size <= max_packet,
            forall|i: int| 0 <= i < r@.len() - 1 ==> #[trigger] r@[i].size == max_packet,
            r@.len() >= 1 ==> (r@[r@.len() - 1].size == max_packet || offset == content_size),
            forall|i: int|
                0 <= i < r@.len() ==> #[trigger] r@[i].subheader_type == (if i == 0 {
                    SubHeaderType::CreateFileChunked
                } else {
                    SubHeaderType::FillFileChunked
                }),
            r@.len() + spec_chunk_count(content_size - offset, max_packet as int)
                == spec_chunk_count(content_size as int, max_packet as int),
        decreases content_size - offset,
    {
        let remaining = content_size - offset;
        let size = if remaining < max_packet {
            remaining
        } else {
            max_packet
        };
        let subheader_type = if offset == 0 {
            SubHeaderType::CreateFileChunked
        } else {
            SubHeaderType::FillFileChunked
        };
        let ghost r0 = r@;
        r.push(ChunkPlan { offset, size, subheader_type });
        proof {
            let n = r@.len() as int;
            assert(r@ == r0.push(ChunkPlan { offset, size, subheader_type }));
            assert(r@[n - 1] == (ChunkPlan { offset, size, subheader_type }));
            assert(forall|i: int| 0 <= i < n - 1 ==> r@[i] == r0[i]);
            assert forall|i: int| 0 <= i < n implies #[trigger] r@[i].offset + r@[i].size == (if i
                + 1 < n {
                r@[i + 1].offset as int
            } else {
                (offset + size) as int
            }) by {
                if i < n - 2 {
                    assert(r0[i].offset + r0[i].size == r0[i + 1].offset);
                } else if i == n - 2 {
                    assert(r0[i].offset + r0[i].size == offset);
                }
            }
        }
        offset = offset + size;
    }
    r
}

/// The header-plus-subheader bytes that open the connection for one chunk:
/// a whole-file chunk is announced with the plain subheader, a chunked one
/// with the chunked subheader naming this chunk's own size.
pub open spec fn spec_chunk_envelope(
    path: Seq<char>,
    content_size: u64,
    plan: ChunkPlan,
) -> Seq<u8> {
    let pb = encode_utf8(path);
    let sub = if plan.subheader_type == SubHeaderType::CreateFile {
        spec_subheader_bytes(pb.len() as u64, pb)
    } else {
        spec_subheader_chunked_bytes(plan.size as u64, pb.len() as u64, pb)
    };
    let h = Header {
        version: spec_protocol_version(),
        content_size,
        subheader_size: sub.len() as u64,
        subheader_type: plan.subheader_type,
    };
    spec_transfer_header_bytes(h) + sub
}

/// Builds the wire bytes that open one chunk's connection; the chunk's file
/// bytes follow them unchanged.
pub fn chunk_envelope(path: &String, content_size: u64, plan: &ChunkPlan) -> (r: Vec<u8>)
    requires
        plan.subheader_type != SubHeaderType::CreateDirectory,
    ensures
        r@ == spec_chunk_envelope(path@, content_size, *plan),
{
    let sub_vec: Vec<u8> = if matches!(plan.subheader_type, SubHeaderType::CreateFile) {
        SubHeader { path: path.clone() }.to_raw().to_vec()
    } else {
        SubHeaderChunked { packet_size: plan.size as u64, path: path.clone() }.to_raw().to_vec()
    };
    let subheader_size = sub_vec.len() as u64;
    let header = Header {
        version: protocol_version(),
        content_size,
        subheader_size,
        subheader_type: plan.subheader_type,
    };
    let harr = header.to_raw().to_array();
    let mut out: Vec<u8> = Vec::new();
    out.extend_from_slice(harr.as_slice());
    let mut sv = sub_vec;
    out.append(&mut sv);
    proof {
        assert(out@ =~= spec_chunk_envelope(path@, content_size, *plan));
    }
    out
}

/// The planned chunks of a file laid end to end.
pub open spec fn spec_concat_chunks(bytes: Seq<u8>, s: Seq<ChunkPlan>) -> Seq<u8>
    decreases s.len(),
{
    if s.len() == 0 {
        Seq::empty()
    } else {
        bytes.subrange(s[0].offset as int, s[0].offset + s[0].size) + spec_concat_chunks(
            bytes,
            s.drop_first(),
        )
    }
}

proof fn lemma_chunks_reassemble_from(bytes: Seq<u8>, s: Seq<ChunkPlan>, start: int)
    requires
        0 <= start,
        s.len() == 0 ==> start == bytes.len(),
        s.len() >= 1 ==> s[0].offset == start,
        forall|i: int|
            0 <= i < s.len() ==> #[trigger] s[i].offset + s[i].size == (if i + 1 < s.len() {
                s[i + 1].offset as int
            } else {
                bytes.len() as int
            }),
    ensures
        start <= bytes.len(),
        spec_concat_chunks(bytes, s) == bytes.skip(start),
    decreases s.len(),
{
    if s.len() == 0 {
        assert(spec_concat_chunks(bytes, s) =~= bytes.skip(start));
    } else {
        let next = start + s[0].size;
        let rest = s.drop_first();
        assert(forall|i: int| 0 <= i < rest.len() ==> #[trigger] rest[i] == s[i + 1]);
        assert(rest.len() >= 1 ==> rest[0].offset == next);
        lemma_chunks_reassemble_from(bytes, rest, next);
        assert(bytes.subrange(start, next) + bytes.skip(next) =~= bytes.skip(start));
    }
}

/// Chunks that start at the file's beginning and run contiguously to its
/// end reassemble, in send order, to exactly the file's bytes — the shape
/// `plan_chunks` guarantees.
pub proof fn lemma_chunks_reassemble(bytes: Seq<u8>, s: Seq<ChunkPlan>)
    requires
        s.len() == 0 ==> bytes.len() == 0,
        s.len() >= 1 ==> s[0].offset == 0,
        forall|i: int|
            0 <= i < s.len() ==> #[trigger] s[i].offset + s[i].size == (if i + 1 < s.len() {
                s[i + 1].offset as int
            } else {
                bytes.len() as int
            }),
    ensures
        spec_concat_chunks(bytes, s) == bytes,
{
    lemma_chunks_reassemble_from(bytes, s, 0);
    assert(bytes.skip(0) =~= bytes);
}

} // verus!
