//! Round trips for every message kind: serialize the frame, read the header
//! back through the ring buffer, stage the body, and parse the same value.

use noftp::net_msg::message::{
    BlockHashMessage, ClearToSendMessage, CorruptDataMessage, ErrorMessage, FileDataMessage,
    FileStructureMessage, MissingDataMessage, PauseMessage, SessionEndMessage,
    SessionInitializationRequestMessage, SessionInitializationResponseMessage,
    SessionResumeRequestMessage, SessionResumeResponseMessage,
};
use noftp::net_msg::{NetMessage, NetMessageHeader, NetMessageKind, NET_MSG_HEADER_SIZE};
use noftp::{extract_header, stage_body, ConnectionId, RingBuffer};

/// Drives a serialized frame through the receive path exactly as a reader
/// loop would: header from the ring buffer, body staged, then parsed.
fn frame_round_trip(msg: &NetMessage) -> NetMessage {
    let frame = msg.serialize();
    let mut rb = RingBuffer::new();
    rb.written(&frame);
    let header = extract_header(&mut rb).expect("the frame's own header must be valid");
    assert_eq!(header.kind, msg.kind());
    let content_len = header.content_len as usize;
    let mut body: Vec<u8> = Vec::new();
    let taken = stage_body(&mut rb, content_len, &mut body);
    assert_eq!(taken, content_len);
    assert_eq!(rb.len(), 0);
    assert!(NetMessage::can_parse(header.kind, &body[..content_len]));
    NetMessage::parse(&body[..content_len], &header)
}

#[test]
fn error_message_round_trip() {
    let m = NetMessage::Error(ErrorMessage::new("disk full"));
    assert_eq!(frame_round_trip(&m), m);
}

#[test]
fn error_message_empty_string_round_trip() {
    let m = NetMessage::Error(ErrorMessage::new(""));
    assert_eq!(frame_round_trip(&m), m);
}

#[test]
fn error_message_multibyte_round_trip() {
    let m = NetMessage::Error(ErrorMessage::new("falha de acesso: permissão negada — 失敗"));
    assert_eq!(frame_round_trip(&m), m);
}

#[test]
fn error_message_maximum_length_round_trip() {
    // The longest string a two-byte length prefix can carry.
    let text: String = "x".repeat(0xffff);
    let m = ErrorMessage::new(&text);
    let mut body: Vec<u8> = Vec::new();
    m.serialize(&mut body);
    assert_eq!(body.len(), 2 + 0xffff);
    assert_eq!(m.content_len() as usize, body.len());
    let back = ErrorMessage::parse(&body);
    assert_eq!(back, m);
}

#[test]
fn session_initialization_request_round_trip() {
    let m = NetMessage::SessionInitializationRequest(SessionInitializationRequestMessage::new(
        ConnectionId::new("session-41".to_string()),
    ));
    assert_eq!(frame_round_trip(&m), m);
}

#[test]
fn session_initialization_response_round_trip() {
    let accepted = NetMessage::SessionInitializationResponse(
        SessionInitializationResponseMessage::new(ConnectionId::new("héllo-wörld".to_string()), true),
    );
    assert_eq!(frame_round_trip(&accepted), accepted);
    let refused = NetMessage::SessionInitializationResponse(
        SessionInitializationResponseMessage::new(ConnectionId::new(String::new()), false),
    );
    assert_eq!(frame_round_trip(&refused), refused);
}

#[test]
fn session_resume_request_round_trip() {
    // The resume request has no public constructor; build one by parsing
    // its own wire form.
    let id = ConnectionId::new("resume-me".to_string());
    let mut body: Vec<u8> = Vec::new();
    SessionInitializationRequestMessage::new(id).serialize(&mut body);
    let m = NetMessage::SessionResumeRequest(SessionResumeRequestMessage::parse(&body));
    assert_eq!(frame_round_trip(&m), m);
}

#[test]
fn zero_payload_kinds_round_trip() {
    let messages = vec![
        NetMessage::FileData(FileDataMessage {}),
        NetMessage::ClearToSend(ClearToSendMessage {}),
        NetMessage::FileStructure(FileStructureMessage::new()),
        NetMessage::BlockHash(BlockHashMessage::new()),
        NetMessage::SessionResumeResponse(SessionResumeResponseMessage {}),
        NetMessage::MissingData(MissingDataMessage {}),
        NetMessage::CorruptData(CorruptDataMessage {}),
        NetMessage::Pause(PauseMessage {}),
        NetMessage::SessionEnd(SessionEndMessage {}),
    ];
    for m in messages {
        let frame = m.serialize();
        assert_eq!(frame.len(), NET_MSG_HEADER_SIZE);
        assert_eq!(frame_round_trip(&m), m);
    }
}

#[test]
fn declared_string_length_is_clamped() {
    // A body whose length prefix promises more bytes than follow: the
    // decoder takes what is there rather than failing.
    let body: Vec<u8> = vec![0, 10, b'a', b'b', b'c'];
    let m = ErrorMessage::parse(&body);
    let expected = ErrorMessage::new("abc");
    assert_eq!(m, expected);
}

#[test]
fn header_fields_survive_the_wire() {
    let header = NetMessageHeader::new(NetMessageKind::ClearToSend, 0);
    let mut bytes: Vec<u8> = Vec::new();
    header.serialize(&mut bytes);
    assert_eq!(bytes.len(), NET_MSG_HEADER_SIZE);
    let mut rb = RingBuffer::new();
    rb.written(&bytes);
    let back = NetMessageHeader::parse(&mut rb);
    assert_eq!(back, header);
    assert!(back.is_valid());
}

#[test]
fn kind_codes_round_trip() {
    let kinds = vec![
        NetMessageKind::Invalid,
        NetMessageKind::Error,
        NetMessageKind::SessionInitializationRequest,
        NetMessageKind::SessionInitializationResponse,
        NetMessageKind::FileData,
        NetMessageKind::ClearToSend,
        NetMessageKind::FileStructure,
        NetMessageKind::BlockHash,
        NetMessageKind::SessionResumeRequest,
        NetMessageKind::SessionResumeResponse,
        NetMessageKind::MissingData,
        NetMessageKind::CorruptData,
        NetMessageKind::Pause,
        NetMessageKind::SessionEnd,
    ];
    for (i, kind) in kinds.iter().enumerate() {
        assert_eq!(kind.code(), i as u16);
        assert_eq!(NetMessageKind::from_code(i as u16), *kind);
    }
    assert_eq!(NetMessageKind::from_code(14), NetMessageKind::Invalid);
    assert_eq!(NetMessageKind::from_code(0xffff), NetMessageKind::Invalid);
}

#[test]
fn frame_bytes_are_exact_and_big_endian() {
    let frame = NetMessage::Error(ErrorMessage::new("ab")).serialize();
    assert_eq!(
        frame,
        vec![
            0x00, 0x00, 0x40, 0xF2, // magic
            0x01, // version
            0x00, // reserved
            0x00, 0x01, // kind: error
            0x00, 0x00, 0x00, 0x04, // content length
            0x00, 0x00, 0x00, 0x00, // reserved
            0x00, 0x02, b'a', b'b', // body: length-prefixed text
        ]
    );
}

#[test]
fn content_len_counts_prefix_and_flag() {
    assert_eq!(ErrorMessage::new("abc").content_len(), 5);
    let id = ConnectionId::new("naïve".to_string());
    // Six UTF-8 bytes plus the two-byte prefix, plus one accept flag byte.
    let m = SessionInitializationResponseMessage::new(id, true);
    assert_eq!(m.content_len(), 2 + 6 + 1);
}

#[test]
fn header_boundary_fields_survive_the_wire() {
    let header = NetMessageHeader {
        magic: 0x40F2,
        version: 1,
        reserved_1: 0xEE,
        kind: NetMessageKind::SessionEnd,
        content_len: u32::MAX,
        reserved_2: u32::MAX,
    };
    let mut bytes: Vec<u8> = Vec::new();
    header.serialize(&mut bytes);
    let mut rb = RingBuffer::new();
    rb.written(&bytes);
    assert_eq!(NetMessageHeader::parse(&mut rb), header);
}
