//! The transfer header and subheaders reproduce their fields exactly over
//! the wire, and malformed frames are rejected with the right error.

use noftp::header::{
    Header, HeaderError, HeaderRaw, SubHeader, SubHeaderChunked, SubHeaderChunkedRaw,
    SubHeaderRaw, SubHeaderType, HEADER_SIZE,
};
use noftp::client::{chunk_envelope, plan_chunks, MAX_PACKET_SIZE};
use noftp::net_msg::{NetMessageHeader, NetMessageKind, NET_MSG_HEADER_SIZE};
use noftp::{extract_header, ProtocolError, RingBuffer};

#[test]
fn header_conversion_test() {
    const VERSION: (u8, u8, u8, u8) = (0, 0, 0, 1);
    const SIZE: u64 = 800;
    const SUBHEADER_SIZE: u64 = 0;
    const SUBHEADER_TYPE: SubHeaderType = SubHeaderType::CreateFile;

    let header = Header {
        version: VERSION,
        content_size: SIZE,
        subheader_size: SUBHEADER_SIZE,
        subheader_type: SUBHEADER_TYPE,
    };

    let header: HeaderRaw = header.to_raw();
    let bytes = header.to_array();

    let header = HeaderRaw::new(bytes);
    let header: Header = header.parse().unwrap();

    assert_eq!(header.version, VERSION);
    assert_eq!(header.content_size, SIZE);
    assert_eq!(header.subheader_size, SUBHEADER_SIZE);
    assert_eq!(header.subheader_type, SUBHEADER_TYPE);
}

#[test]
fn header_round_trip_boundary_fields() {
    let header = Header {
        version: (255, 0, 255, 0),
        content_size: u64::MAX,
        subheader_size: u64::MAX,
        subheader_type: SubHeaderType::FillFileChunked,
    };
    let back = HeaderRaw::new(header.to_raw().to_array()).parse().unwrap();
    assert_eq!(back.version, (255, 0, 255, 0));
    assert_eq!(back.content_size, u64::MAX);
    assert_eq!(back.subheader_size, u64::MAX);
    assert_eq!(back.subheader_type, SubHeaderType::FillFileChunked);
}

#[test]
fn header_wrong_magic_is_rejected() {
    let good = Header {
        version: (0, 0, 0, 1),
        content_size: 5,
        subheader_size: 0,
        subheader_type: SubHeaderType::CreateFile,
    };
    let mut bytes = good.to_raw().to_array();
    bytes[0] = b'X';
    let r = HeaderRaw::new(bytes).parse();
    assert_eq!(r.unwrap_err(), HeaderError::MagicIdNotMatch);
}

#[test]
fn header_invalid_utf8_magic_is_rejected() {
    let good = Header {
        version: (0, 0, 0, 1),
        content_size: 5,
        subheader_size: 0,
        subheader_type: SubHeaderType::CreateFile,
    };
    let mut bytes = good.to_raw().to_array();
    bytes[0] = 0xff;
    bytes[1] = 0xfe;
    let r = HeaderRaw::new(bytes).parse();
    assert_eq!(r.unwrap_err(), HeaderError::InvalidString);
}

#[test]
fn header_unknown_subheader_type_is_rejected() {
    let good = Header {
        version: (0, 0, 0, 1),
        content_size: 5,
        subheader_size: 0,
        subheader_type: SubHeaderType::CreateFile,
    };
    let mut bytes = good.to_raw().to_array();
    bytes[HEADER_SIZE - 1] = 9;
    let r = HeaderRaw::new(bytes).parse();
    assert_eq!(r.unwrap_err(), HeaderError::InvalidSubHeaderType);
}

#[test]
fn subheader_round_trip_multibyte_path() {
    let path = "ordner/größe-文件/ße.txt";
    let sub = SubHeader { path: path.to_string() };
    let wire = sub.to_raw().to_vec();
    let back = SubHeaderRaw::new(&wire).parse().unwrap();
    assert_eq!(back.path, path);
}

#[test]
fn subheader_chunked_round_trip() {
    let path = "downloads/vidéo-01.bin";
    let sub = SubHeaderChunked { packet_size: 2_000_000, path: path.to_string() };
    let wire = sub.to_raw().to_vec();
    let back = SubHeaderChunkedRaw::new(&wire).parse().unwrap();
    assert_eq!(back.packet_size, 2_000_000);
    assert_eq!(back.path, path);
}

#[test]
fn subheader_invalid_utf8_path_is_rejected() {
    let raw = SubHeaderRaw { path_length: 3, path: vec![0xff, 0xc0, 0x20] };
    assert_eq!(raw.parse().unwrap_err(), HeaderError::InvalidString);
}

#[test]
fn typed_header_invalid_magic_is_malformed() {
    let good = NetMessageHeader::new(NetMessageKind::Pause, 0);
    let mut bytes: Vec<u8> = Vec::new();
    good.serialize(&mut bytes);
    bytes[0] = 0xaa;
    let mut rb = RingBuffer::new();
    rb.written(&bytes);
    assert_eq!(extract_header(&mut rb).unwrap_err(), ProtocolError::MalformedHeader);
}

#[test]
fn typed_header_wrong_version_is_malformed() {
    let good = NetMessageHeader::new(NetMessageKind::Pause, 0);
    let mut bytes: Vec<u8> = Vec::new();
    good.serialize(&mut bytes);
    bytes[4] = 2;
    let mut rb = RingBuffer::new();
    rb.written(&bytes);
    assert_eq!(extract_header(&mut rb).unwrap_err(), ProtocolError::MalformedHeader);
}

#[test]
fn typed_header_unknown_kind_is_malformed() {
    let good = NetMessageHeader::new(NetMessageKind::Pause, 0);
    let mut bytes: Vec<u8> = Vec::new();
    good.serialize(&mut bytes);
    // An out-of-range kind code decodes to the invalid kind.
    bytes[6] = 0xee;
    bytes[7] = 0xee;
    let mut rb = RingBuffer::new();
    rb.written(&bytes);
    assert_eq!(extract_header(&mut rb).unwrap_err(), ProtocolError::MalformedHeader);
    // The header's sixteen bytes are consumed either way.
    assert_eq!(rb.len(), 0);
    assert_eq!(NET_MSG_HEADER_SIZE, 16);
}

#[test]
fn transfer_envelope_bytes_are_exact() {
    let plans = plan_chunks(10, MAX_PACKET_SIZE);
    let envelope = chunk_envelope(&"hello.txt".to_string(), 10, &plans[0]);
    let mut expected: Vec<u8> = Vec::new();
    expected.extend_from_slice(b"NoFTP"); // magic
    expected.extend_from_slice(&[0, 0, 0, 1]); // version
    expected.extend_from_slice(&[0, 0, 0, 0, 0, 0, 0, 10]); // content size
    expected.extend_from_slice(&[0, 0, 0, 0, 0, 0, 0, 17]); // subheader size
    expected.push(0); // subheader type: create file
    expected.extend_from_slice(&[0, 0, 0, 0, 0, 0, 0, 9]); // path length
    expected.extend_from_slice(b"hello.txt");
    assert_eq!(envelope, expected);
}
