//! The bulk-transfer framing: a fixed transfer header, then a variable
//! subheader carrying the destination path (and, for chunks, the chunk
//! size), then the file bytes themselves. Integers travel big-endian.

use vstd::prelude::*;

use crate::wire::{
    spec_u64_from_be_bytes, spec_u64_to_be_bytes, lemma_u64_be_bytes, put_u64, get_u64,
};
use vstd::utf8::{valid_utf8, decode_utf8, encode_utf8};

verus! {

use vstd::string::StrSliceExecFns;

pub const MAGIC_NUM_SIZE: usize = 5;

pub const VERSION_SIZE: usize = 4;

pub const CONTENT_SIZE_SIZE: usize = 8;

pub const SUBHEADER_SIZE_SIZE: usize = 8;

pub const SUBHEADER_TYPE_SIZE: usize = 1;

/// Fixed byte width of the transfer header.
pub const HEADER_SIZE: usize = MAGIC_NUM_SIZE + VERSION_SIZE + CONTENT_SIZE_SIZE
    + SUBHEADER_SIZE_SIZE + SUBHEADER_TYPE_SIZE;

/// The five magic bytes opening every transfer header: "NoFTP" in ASCII.
pub open spec fn spec_transfer_magic() -> Seq<u8> {
    seq![78u8, 111u8, 70u8, 84u8, 80u8]
}

/// Relies on core::str::from_utf8: it succeeds exactly on the byte
/// sequences that are valid UTF-8, and yields the text they encode.
#[verifier::external_body]
fn utf8_str(bytes: &[u8]) -> (r: Option<&str>)
    ensures
        r is Some <==> valid_utf8(bytes@),
        r matches Some(s) ==> s@ == decode_utf8(bytes@),
{
    core::str::from_utf8(bytes).ok()
}

/// What the receiver is asked to do with the transfer's bytes.
#[derive(Debug, PartialEq, Eq, Clone, Copy, Structural)]
pub enum SubHeaderType {
    /// Create the destination file and fill it with the whole body.
    CreateFile,
    /// Reserved; asking for it is an unsupported operation.
    CreateDirectory,
    /// Create the destination file and fill it with this first chunk.
    CreateFileChunked,
    /// Append this chunk to the already-created destination file.
    FillFileChunked,
}

/// An error found while decoding a transfer header or subheader.
#[derive(Debug, PartialEq, Eq, Clone, Copy, Structural)]
pub enum HeaderError {
    /// The magic bytes or the subheader path are not valid UTF-8.
    InvalidString,
    MagicIdNotMatch,
    InvalidSubHeaderType,
}

/// The subheader type denoted by a wire code.
pub open spec fn spec_subheader_type_from_code(value: u8) -> Result<
    SubHeaderType,
    HeaderError,
> {
    match value {
        0u8 => Ok(SubHeaderType::CreateFile),
        1u8 => Ok(SubHeaderType::CreateDirectory),
        2u8 => Ok(SubHeaderType::CreateFileChunked),
        3u8 => Ok(SubHeaderType::FillFileChunked),
        _ => Err(HeaderError::InvalidSubHeaderType),
    }
}

impl SubHeaderType {
    /// The wire code of this subheader type.
    pub open spec fn spec_code(self) -> u8 {
        match self {
            SubHeaderType::CreateFile => 0,
            SubHeaderType::CreateDirectory => 1,
            SubHeaderType::CreateFileChunked => 2,
            SubHeaderType::FillFileChunked => 3,
        }
    }

    /// Every subheader type's code decodes back to the type.
    pub proof fn lemma_code_round_trip(self)
        ensures
            spec_subheader_type_from_code(self.spec_code()) == Ok::<SubHeaderType, HeaderError>(
                self,
            ),
    {
    }

    pub fn from_code(value: u8) -> (r: Result<SubHeaderType, HeaderError>)
        ensures
            r == spec_subheader_type_from_code(value),
    {
        match value {
            0 => Ok(SubHeaderType::CreateFile),
            1 => Ok(SubHeaderType::CreateDirectory),
            2 => Ok(SubHeaderType::CreateFileChunked),
            3 => Ok(SubHeaderType::FillFileChunked),
            _ => Err(HeaderError::InvalidSubHeaderType),
        }
    }

    pub fn code(self) -> (r: u8)
        ensures
            r == self.spec_code(),
    {
        match self {
            SubHeaderType::CreateFile => 0,
            SubHeaderType::CreateDirectory => 1,
            SubHeaderType::CreateFileChunked => 2,
            SubHeaderType::FillFileChunked => 3,
        }
    }
}

/// The transfer header as it stands on the wire, field by field.
#[derive(Debug)]
pub struct HeaderRaw {
    pub magic_num: [u8; MAGIC_NUM_SIZE],
    pub version: [u8; VERSION_SIZE],
    pub content_size: [u8; CONTENT_SIZE_SIZE],
    pub subheader_size: [u8; SUBHEADER_SIZE_SIZE],
    pub subheader_type: u8,
}

/// The decoded transfer header.
#[derive(Debug, Clone, Copy)]
pub struct Header {
    pub version: (u8, u8, u8, u8),
    pub content_size: u64,
    pub subheader_size: u64,
    pub subheader_type: SubHeaderType,
}

/// The byte sequence a raw header stands for.
pub open spec fn spec_header_raw_bytes(h: HeaderRaw) -> Seq<u8> {
    h.magic_num@ + h.version@ + h.content_size@ + h.subheader_size@ + seq![h.subheader_type]
}

/// The bytes a decoded header puts on the wire.
pub open spec fn spec_transfer_header_bytes(h: Header) -> Seq<u8> {
    spec_transfer_magic() + seq![h.version.0, h.version.1, h.version.2, h.version.3]
        + spec_u64_to_be_bytes(h.content_size) + spec_u64_to_be_bytes(h.subheader_size) + seq![
        h.subheader_type.spec_code(),
    ]
}

/// The header denoted by the fixed-width header bytes: the magic must read
/// "NoFTP" and the subheader type code must be known.
pub open spec fn spec_parse_transfer_header(b: Seq<u8>) -> Result<Header, HeaderError>
    recommends
        b.len() == HEADER_SIZE,
{
    let magic = b.subrange(0, 5);
    if magic == spec_transfer_magic() {
        match spec_subheader_type_from_code(b[25]) {
            Ok(t) => Ok(
                Header {
                    version: (b[5], b[6], b[7], b[8]),
                    content_size: spec_u64_from_be_bytes(b.subrange(9, 17)),
                    subheader_size: spec_u64_from_be_bytes(b.subrange(17, 25)),
                    subheader_type: t,
                },
            ),
            Err(e) => Err(e),
        }
    } else if valid_utf8(magic) {
        Err(HeaderError::MagicIdNotMatch)
    } else {
        Err(HeaderError::InvalidString)
    }
}

impl Header {
    #[inline]
    pub fn to_raw(self) -> (r: HeaderRaw)
        ensures
            spec_header_raw_bytes(r) == spec_transfer_header_bytes(self),
    {
        let content_size = self.content_size;
        let subheader_size = self.subheader_size;
        let mut cs: Vec<u8> = Vec::new();
        put_u64(&mut cs, content_size);
        let mut ss: Vec<u8> = Vec::new();
        put_u64(&mut ss, subheader_size);
        let r = HeaderRaw {
            magic_num: [78, 111, 70, 84, 80],
            version: [self.version.0, self.version.1, self.version.2, self.version.3],
            content_size: [cs[0], cs[1], cs[2], cs[3], cs[4], cs[5], cs[6], cs[7]],
            subheader_size: [ss[0], ss[1], ss[2], ss[3], ss[4], ss[5], ss[6], ss[7]],
            subheader_type: self.subheader_type.code(),
        };
        proof {
            assert(r.magic_num@ =~= spec_transfer_magic());
            assert(r.version@ =~= seq![
                self.version.0,
                self.version.1,
                self.version.2,
                self.version.3,
            ]);
            assert(r.content_size@ =~= spec_u64_to_be_bytes(self.content_size));
            assert(r.subheader_size@ =~= spec_u64_to_be_bytes(self.subheader_size));
            assert(spec_header_raw_bytes(r) =~= spec_transfer_header_bytes(self));
        }
        r
    }
}

impl HeaderRaw {
    /// Splits one header's worth of received bytes into the raw fields.
    pub fn new(buf: [u8; HEADER_SIZE]) -> (r: HeaderRaw)
        ensures
            spec_header_raw_bytes(r) == buf@,
    {
        let r = HeaderRaw {
            magic_num: [buf[0], buf[1], buf[2], buf[3], buf[4]],
            version: [buf[5], buf[6], buf[7], buf[8]],
            content_size: [buf[9], buf[10], buf[11], buf[12], buf[13], buf[14], buf[15], buf[16]],
            subheader_size: [
                buf[17],
                buf[18],
                buf[19],
                buf[20],
                buf[21],
                buf[22],
                buf[23],
                buf[24],
            ],
            subheader_type: buf[25],
        };
        proof {
            assert(spec_header_raw_bytes(r) =~= buf@);
        }
        r
    }

    /// A zeroed receive buffer of the header's fixed width.
    pub fn get_buf() -> (r: [u8; HEADER_SIZE])
        ensures
            r@ == Seq::new(HEADER_SIZE as nat, |i: int| 0u8),
    {
        let r = [0u8; HEADER_SIZE];
        proof {
            assert(r@ =~= Seq::new(HEADER_SIZE as nat, |i: int| 0u8));
        }
        r
    }

    /// The raw fields laid out as the bytes they came from.
    #[inline]
    pub fn to_array(self) -> (r: [u8; HEADER_SIZE])
        ensures
            r@ == spec_header_raw_bytes(self),
    {
        let m = &self.magic_num;
        let v = &self.version;
        let c = &self.content_size;
        let s = &self.subheader_size;
        let r = [
            m[0],
            m[1],
            m[2],
            m[3],
            m[4],
            v[0],
            v[1],
            v[2],
            v[3],
            c[0],
            c[1],
            c[2],
            c[3],
            c[4],
            c[5],
            c[6],
            c[7],
            s[0],
            s[1],
            s[2],
            s[3],
            s[4],
            s[5],
            s[6],
            s[7],
            self.subheader_type,
        ];
        proof {
            assert(r@ =~= spec_header_raw_bytes(self));
        }
        r
    }

    /// Decodes the raw fields, validating the magic and the type code.
    pub fn parse(self) -> (r: Result<Header, HeaderError>)
        ensures
            r == spec_parse_transfer_header(spec_header_raw_bytes(self)),
    {
        let ghost b = spec_header_raw_bytes(self);
        proof {
            assert(b.subrange(0, 5) =~= self.magic_num@);
            assert(b[5] == self.version@[0] && b[6] == self.version@[1] && b[7]
                == self.version@[2] && b[8] == self.version@[3]);
            assert(b.subrange(9, 17) =~= self.content_size@);
            assert(b.subrange(17, 25) =~= self.subheader_size@);
            assert(b[25] == self.subheader_type);
        }
        let m = &self.magic_num;
        let is_magic = m[0] == 78 && m[1] == 111 && m[2] == 70 && m[3] == 84 && m[4] == 80;
        if !is_magic {
            proof {
                if self.magic_num@ == spec_transfer_magic() {
                    assert(self.magic_num@[0] == 78 && self.magic_num@[1] == 111
                        && self.magic_num@[2] == 70 && self.magic_num@[3] == 84
                        && self.magic_num@[4] == 80);
                }
            }
            if utf8_str(self.magic_num.as_slice()).is_some() {
                Err(HeaderError::MagicIdNotMatch)
            } else {
                Err(HeaderError::InvalidString)
            }
        } else {
            proof {
                assert(self.magic_num@ =~= spec_transfer_magic());
            }
            let content_size = get_u64(self.content_size.as_slice(), 0);
            let subheader_size = get_u64(self.subheader_size.as_slice(), 0);
            proof {
                assert(self.content_size@.subrange(0, 8) =~= self.content_size@);
                assert(self.subheader_size@.subrange(0, 8) =~= self.subheader_size@);
            }
            match SubHeaderType::from_code(self.subheader_type) {
                Ok(subheader_type) => Ok(
                    Header {
                        version: (
                            self.version[0],
                            self.version[1],
                            self.version[2],
                            self.version[3],
                        ),
                        content_size,
                        subheader_size,
                        subheader_type,
                    },
                ),
                Err(e) => Err(e),
            }
        }
    }
}

/// A serialized transfer header reads back field for field.
pub proof fn lemma_transfer_header_round_trip(h: Header)
    ensures
        spec_transfer_header_bytes(h).len() == HEADER_SIZE,
        spec_parse_transfer_header(spec_transfer_header_bytes(h)) == Ok::<Header, HeaderError>(h),
{
    let b = spec_transfer_header_bytes(h);
    lemma_u64_be_bytes(h.content_size);
    lemma_u64_be_bytes(h.subheader_size);
    assert(b.subrange(0, 5) =~= spec_transfer_magic());
    assert(b.subrange(9, 17) =~= spec_u64_to_be_bytes(h.content_size));
    assert(b.subrange(17, 25) =~= spec_u64_to_be_bytes(h.subheader_size));
    h.subheader_type.lemma_code_round_trip();
    assert(b[5] == h.version.0 && b[6] == h.version.1 && b[7] == h.version.2 && b[8]
        == h.version.3);
    assert(b[25] == h.subheader_type.spec_code());
}


/// Byte width of the length word that opens a subheader's path field.
pub const PATH_LENGTH_SIZE: usize = 8;

/// The raw subheader: a path byte count, then the path bytes.
#[derive(Debug)]
pub struct SubHeaderRaw {
    pub path_length: u64,
    pub path: Vec<u8>,
}

/// The decoded subheader: the relative destination path, forward-slash
/// separated.
#[derive(Debug)]
pub struct SubHeader {
    pub path: String,
}

/// The bytes a raw subheader puts on the wire.
pub open spec fn spec_subheader_bytes(path_length: u64, path: Seq<u8>) -> Seq<u8> {
    spec_u64_to_be_bytes(path_length) + path
}

/// The path text denoted by the path bytes of a subheader, or the error
/// reported when they are not UTF-8.
pub open spec fn spec_parse_subheader(path: Seq<u8>) -> Result<Seq<char>, HeaderError> {
    if valid_utf8(path) {
        Ok(decode_utf8(path))
    } else {
        Err(HeaderError::InvalidString)
    }
}

/// True when a buffer opens with a path byte count that the buffer itself
/// can honour.
pub open spec fn spec_subheader_fits(b: Seq<u8>) -> bool {
    b.len() >= PATH_LENGTH_SIZE && PATH_LENGTH_SIZE + spec_u64_from_be_bytes(
        b.subrange(0, PATH_LENGTH_SIZE as int),
    ) <= b.len()
}

/// True when `spec_subheader_fits` holds of the buffer; receivers test this
/// before splitting a received subheader.
pub fn subheader_fits(buffer: &[u8]) -> (r: bool)
    ensures
        r == spec_subheader_fits(buffer@),
{
    if buffer.len() < PATH_LENGTH_SIZE {
        return false;
    }
    let declared = get_u64(buffer, 0);
    let rest = (buffer.len() - PATH_LENGTH_SIZE) as u64;
    declared <= rest
}

impl SubHeaderRaw {
    /// Splits a received subheader buffer into the count and the path bytes.
    pub fn new(buffer: &[u8]) -> (r: SubHeaderRaw)
        requires
            spec_subheader_fits(buffer@),
        ensures
            r.path_length == spec_u64_from_be_bytes(buffer@.subrange(0, PATH_LENGTH_SIZE as int)),
            r.path@ == buffer@.subrange(
                PATH_LENGTH_SIZE as int,
                PATH_LENGTH_SIZE + r.path_length,
            ),
            r.path@.len() == r.path_length,
    {
        let blen = buffer.len();
        let path_length = get_u64(buffer, 0);
        proof {
            assert(PATH_LENGTH_SIZE + path_length <= blen);
        }
        let end = PATH_LENGTH_SIZE + path_length as usize;
        let path = vstd::slice::slice_to_vec(
            vstd::slice::slice_subrange(buffer, PATH_LENGTH_SIZE, end),
        );
        SubHeaderRaw { path_length, path }
    }

    /// Decodes the path bytes, which must be UTF-8.
    pub fn parse(self) -> (r: Result<SubHeader, HeaderError>)
        ensures
            valid_utf8(self.path@) ==> (r matches Ok(sh) && sh.path@ == decode_utf8(self.path@)),
            !valid_utf8(self.path@) ==> r == Err::<SubHeader, HeaderError>(
                HeaderError::InvalidString,
            ),
            r matches Ok(sh) ==> Ok::<Seq<char>, HeaderError>(sh.path@) == spec_parse_subheader(
                self.path@,
            ),
    {
        match utf8_str(self.path.as_slice()) {
            Some(s) => Ok(SubHeader { path: s.to_owned() }),
            None => Err(HeaderError::InvalidString),
        }
    }

    /// The subheader laid out as its wire bytes.
    pub fn to_vec(self) -> (r: Vec<u8>)
        ensures
            r@ == spec_subheader_bytes(self.path_length, self.path@),
    {
        let mut ret: Vec<u8> = Vec::new();
        put_u64(&mut ret, self.path_length);
        let mut path = self.path;
        ret.append(&mut path);
        ret
    }
}

impl SubHeader {
    #[inline]
    pub fn to_raw(self) -> (r: SubHeaderRaw)
        ensures
            r.path@ == encode_utf8(self.path@),
            r.path_length == r.path@.len(),
            valid_utf8(r.path@),
            decode_utf8(r.path@) == self.path@,
    {
        let path: Vec<u8> = self.path.as_str().as_bytes_vec();
        proof {
            vstd::utf8::encode_utf8_valid_utf8(self.path@);
            vstd::utf8::encode_utf8_decode_utf8(self.path@);
        }
        let path_length = path.len() as u64;
        SubHeaderRaw { path_length, path }
    }
}

/// The raw chunked subheader: the chunk's own size, then the path count and
/// path bytes.
#[derive(Debug)]
pub struct SubHeaderChunkedRaw {
    pub packet_size: u64,
    pub path_length: u64,
    pub path: Vec<u8>,
}

/// The decoded chunked subheader: the size of this chunk alone, and the
/// relative destination path.
#[derive(Debug)]
pub struct SubHeaderChunked {
    pub packet_size: u64,
    pub path: String,
}

/// The bytes a raw chunked subheader puts on the wire.
pub open spec fn spec_subheader_chunked_bytes(
    packet_size: u64,
    path_length: u64,
    path: Seq<u8>,
) -> Seq<u8> {
    spec_u64_to_be_bytes(packet_size) + spec_u64_to_be_bytes(path_length) + path
}

/// True when a buffer opens with a chunk size and a path byte count that the
/// buffer itself can honour.
pub open spec fn spec_subheader_chunked_fits(b: Seq<u8>) -> bool {
    b.len() >= PATH_LENGTH_SIZE + PATH_LENGTH_SIZE && PATH_LENGTH_SIZE + PATH_LENGTH_SIZE
        + spec_u64_from_be_bytes(
        b.subrange(PATH_LENGTH_SIZE as int, PATH_LENGTH_SIZE + PATH_LENGTH_SIZE),
    ) <= b.len()
}

/// True when `spec_subheader_chunked_fits` holds of the buffer.
pub fn subheader_chunked_fits(buffer: &[u8]) -> (r: bool)
    ensures
        r == spec_subheader_chunked_fits(buffer@),
{
    if buffer.len() < PATH_LENGTH_SIZE + PATH_LENGTH_SIZE {
        return false;
    }
    let declared = get_u64(buffer, PATH_LENGTH_SIZE);
    let rest = (buffer.len() - PATH_LENGTH_SIZE - PATH_LENGTH_SIZE) as u64;
    declared <= rest
}

impl SubHeaderChunkedRaw {
    /// Splits a received chunked subheader buffer into its fields.
    pub fn new(buffer: &[u8]) -> (r: SubHeaderChunkedRaw)
        requires
            spec_subheader_chunked_fits(buffer@),
        ensures
            r.packet_size == spec_u64_from_be_bytes(buffer@.subrange(0, PATH_LENGTH_SIZE as int)),
            r.path_length == spec_u64_from_be_bytes(
                buffer@.subrange(PATH_LENGTH_SIZE as int, PATH_LENGTH_SIZE + PATH_LENGTH_SIZE),
            ),
            r.path@ == buffer@.subrange(
                (PATH_LENGTH_SIZE + PATH_LENGTH_SIZE) as int,
                PATH_LENGTH_SIZE + PATH_LENGTH_SIZE + r.path_length,
            ),
            r.path@.len() == r.path_length,
    {
        let blen = buffer.len();
        let packet_size = get_u64(buffer, 0);
        let path_length = get_u64(buffer, PATH_LENGTH_SIZE);
        proof {
            assert(PATH_LENGTH_SIZE + PATH_LENGTH_SIZE + path_length <= blen);
        }
        let start = PATH_LENGTH_SIZE + PATH_LENGTH_SIZE;
        let end = start + path_length as usize;
        let path = vstd::slice::slice_to_vec(vstd::slice::slice_subrange(buffer, start, end));
        SubHeaderChunkedRaw { packet_size, path_length, path }
    }

    /// Decodes the path bytes, which must be UTF-8.
    pub fn parse(self) -> (r: Result<SubHeaderChunked, HeaderError>)
        ensures
            valid_utf8(self.path@) ==> (r matches Ok(sh) && sh.path@ == decode_utf8(self.path@)
                && sh.packet_size == self.packet_size),
            !valid_utf8(self.path@) ==> r == Err::<SubHeaderChunked, HeaderError>(
                HeaderError::InvalidString,
            ),
    {
        match utf8_str(self.path.as_slice()) {
            Some(s) => Ok(SubHeaderChunked { packet_size: self.packet_size, path: s.to_owned() }),
            None => Err(HeaderError::InvalidString),
        }
    }

    /// The chunked subheader laid out as its wire bytes.
    pub fn to_vec(self) -> (r: Vec<u8>)
        ensures
            r@ == spec_subheader_chunked_bytes(self.packet_size, self.path_length, self.path@),
    {
        let mut ret: Vec<u8> = Vec::new();
        put_u64(&mut ret, self.packet_size);
        put_u64(&mut ret, self.path_length);
        let mut path = self.path;
        ret.append(&mut path);
        proof {
            assert(ret@ =~= spec_subheader_chunked_bytes(
                self.packet_size,
                self.path_length,
                self.path@,
            ));
        }
        ret
    }
}

impl SubHeaderChunked {
    #[inline]
    pub fn to_raw(self) -> (r: SubHeaderChunkedRaw)
        ensures
            r.packet_size == self.packet_size,
            r.path@ == encode_utf8(self.path@),
            r.path_length == r.path@.len(),
            valid_utf8(r.path@),
            decode_utf8(r.path@) == self.path@,
    {
        let path: Vec<u8> = self.path.as_str().as_bytes_vec();
        proof {
            vstd::utf8::encode_utf8_valid_utf8(self.path@);
            vstd::utf8::encode_utf8_decode_utf8(self.path@);
        }
        let path_length = path.len() as u64;
        SubHeaderChunkedRaw { packet_size: self.packet_size, path_length, path }
    }
}

/// Round trip for the plain subheader: the laid-out bytes fit their own
/// count, split back into the same fields, and the path text survives
/// exactly, multi-byte characters included.
pub proof fn lemma_subheader_round_trip(path: Seq<char>)
    requires
        encode_utf8(path).len() <= u64::MAX,
    ensures
        ({
            let pb = encode_utf8(path);
            let b = spec_subheader_bytes(pb.len() as u64, pb);
            &&& spec_subheader_fits(b)
            &&& spec_u64_from_be_bytes(b.subrange(0, PATH_LENGTH_SIZE as int)) == pb.len()
            &&& b.subrange(PATH_LENGTH_SIZE as int, b.len() as int) == pb
            &&& spec_parse_subheader(pb) == Ok::<Seq<char>, HeaderError>(path)
        }),
{
    let pb = encode_utf8(path);
    let b = spec_subheader_bytes(pb.len() as u64, pb);
    lemma_u64_be_bytes(pb.len() as u64);
    assert(b.subrange(0, PATH_LENGTH_SIZE as int) =~= spec_u64_to_be_bytes(pb.len() as u64));
    assert(b.subrange(PATH_LENGTH_SIZE as int, b.len() as int) =~= pb);
    vstd::utf8::encode_utf8_valid_utf8(path);
    vstd::utf8::encode_utf8_decode_utf8(path);
}

/// Round trip for the chunked subheader: the laid-out bytes fit their own
/// counts and split back into the same chunk size, count and path text.
pub proof fn lemma_subheader_chunked_round_trip(packet_size: u64, path: Seq<char>)
    requires
        encode_utf8(path).len() <= u64::MAX,
    ensures
        ({
            let pb = encode_utf8(path);
            let b = spec_subheader_chunked_bytes(packet_size, pb.len() as u64, pb);
            &&& spec_subheader_chunked_fits(b)
            &&& spec_u64_from_be_bytes(b.subrange(0, PATH_LENGTH_SIZE as int)) == packet_size
            &&& spec_u64_from_be_bytes(
                b.subrange(PATH_LENGTH_SIZE as int, PATH_LENGTH_SIZE + PATH_LENGTH_SIZE),
            ) == pb.len()
            &&& b.subrange((PATH_LENGTH_SIZE + PATH_LENGTH_SIZE) as int, b.len() as int) == pb
            &&& spec_parse_subheader(pb) == Ok::<Seq<char>, HeaderError>(path)
        }),
{
    let pb = encode_utf8(path);
    let b = spec_subheader_chunked_bytes(packet_size, pb.len() as u64, pb);
    lemma_u64_be_bytes(packet_size);
    lemma_u64_be_bytes(pb.len() as u64);
    assert(b.subrange(0, PATH_LENGTH_SIZE as int) =~= spec_u64_to_be_bytes(packet_size));
    assert(b.subrange(PATH_LENGTH_SIZE as int, PATH_LENGTH_SIZE + PATH_LENGTH_SIZE)
        =~= spec_u64_to_be_bytes(pb.len() as u64));
    assert(b.subrange((PATH_LENGTH_SIZE + PATH_LENGTH_SIZE) as int, b.len() as int) =~= pb);
    vstd::utf8::encode_utf8_valid_utf8(path);
    vstd::utf8::encode_utf8_decode_utf8(path);
}

} // verus!
