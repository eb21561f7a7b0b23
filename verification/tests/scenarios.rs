//! End-to-end transfer scenarios, with the network and the disk simulated
//! in memory: the sender's bytes are handed, connection by connection, to
//! the receiver's dispatch and accounting.

use std::collections::HashMap;

use noftp::client::{chunk_envelope, plan_chunks, ChunkPlan, MAX_PACKET_SIZE};
use noftp::header::{HeaderRaw, SubHeaderType, HEADER_SIZE};
use noftp::server::{plan_connection, ReceiveAction, TransferProgress};
use noftp::ProtocolError;

/// One simulated connection: the chunk's envelope followed by its body
/// bytes, applied to an in-memory file system.
fn deliver(
    files: &mut HashMap<String, Vec<u8>>,
    envelope: &[u8],
    body: &[u8],
) -> Result<(), ProtocolError> {
    let mut header_buf = HeaderRaw::get_buf();
    header_buf.copy_from_slice(&envelope[..HEADER_SIZE]);
    let header = HeaderRaw::new(header_buf).parse().expect("well-formed header");
    let subheader_end = HEADER_SIZE + header.subheader_size as usize;
    let action = plan_connection(&header, &envelope[HEADER_SIZE..subheader_end])?;
    let (path, count, append) = match action {
        ReceiveAction::CreateAndFill { path, count } => (path, count, false),
        ReceiveAction::AppendAndFill { path, count } => (path, count, true),
    };
    let dest = if append {
        files.get_mut(&path).expect("append targets an existing file")
    } else {
        files.insert(path.clone(), Vec::new());
        files.get_mut(&path).unwrap()
    };
    let mut progress = TransferProgress::new(count);
    // The body arrives in bounded reads, as from a socket.
    for piece in body.chunks(1024) {
        let w = progress.take(piece.len());
        dest.extend_from_slice(&piece[..w]);
        if progress.finished() {
            break;
        }
    }
    progress.on_close()
}

#[test]
fn small_file_travels_whole() {
    // Scenario: a ten-byte file sent on a single create-file connection.
    let content = b"hello body".to_vec();
    assert_eq!(content.len(), 10);
    let path = "hello.txt".to_string();

    let plans = plan_chunks(content.len(), MAX_PACKET_SIZE);
    assert_eq!(plans.len(), 1);
    assert_eq!(plans[0].subheader_type, SubHeaderType::CreateFile);
    assert_eq!(plans[0].size, 10);

    let mut files: HashMap<String, Vec<u8>> = HashMap::new();
    let envelope = chunk_envelope(&path, content.len() as u64, &plans[0]);
    deliver(&mut files, &envelope, &content).unwrap();

    assert_eq!(files.len(), 1);
    assert_eq!(files["hello.txt"], content);
}

#[test]
fn large_file_travels_in_two_chunks() {
    // Scenario: three million bytes cut at two million per packet.
    let content: Vec<u8> = (0..3_000_000u32).map(|i| (i % 251) as u8).collect();
    let path = "big.bin".to_string();
    let max_packet = 2_000_000usize;

    let plans = plan_chunks(content.len(), max_packet);
    assert_eq!(plans.len(), 2);
    assert_eq!(plans[0].subheader_type, SubHeaderType::CreateFileChunked);
    assert_eq!(plans[0].size, 2_000_000);
    assert_eq!(plans[1].subheader_type, SubHeaderType::FillFileChunked);
    assert_eq!(plans[1].size, 1_000_000);

    let mut files: HashMap<String, Vec<u8>> = HashMap::new();
    for plan in &plans {
        let envelope = chunk_envelope(&path, content.len() as u64, plan);
        let body = &content[plan.offset..plan.offset + plan.size];
        deliver(&mut files, &envelope, body).unwrap();
    }

    assert_eq!(files["big.bin"].len(), 3_000_000);
    assert_eq!(files["big.bin"], content);
}

#[test]
fn early_close_is_a_truncated_transfer() {
    // Scenario: fifty bytes declared, the peer closes after twenty.
    let path = "cut.bin".to_string();
    let declared = vec![7u8; 50];
    let sent = &declared[..20];

    let plans = plan_chunks(declared.len(), MAX_PACKET_SIZE);
    let envelope = chunk_envelope(&path, declared.len() as u64, &plans[0]);
    let mut files: HashMap<String, Vec<u8>> = HashMap::new();
    let r = deliver(&mut files, &envelope, sent);
    assert_eq!(r.unwrap_err(), ProtocolError::TruncatedTransfer);
    // The destination holds only what arrived before the close.
    assert_eq!(files["cut.bin"].len(), 20);
}

#[test]
fn create_directory_is_unsupported() {
    let header = noftp::header::Header {
        version: (0, 0, 0, 1),
        content_size: 0,
        subheader_size: 0,
        subheader_type: SubHeaderType::CreateDirectory,
    };
    let r = plan_connection(&header, &[]);
    assert_eq!(r.unwrap_err(), ProtocolError::UnsupportedOperation);
}

#[test]
fn short_subheader_is_malformed() {
    let header = noftp::header::Header {
        version: (0, 0, 0, 1),
        content_size: 4,
        subheader_size: 3,
        subheader_type: SubHeaderType::CreateFile,
    };
    let r = plan_connection(&header, &[0, 0, 1]);
    assert_eq!(r.unwrap_err(), ProtocolError::MalformedHeader);
}

#[test]
fn queued_jobs_interleave_without_mixing() {
    // Scenario: several queued jobs to different destinations, their
    // chunk connections interleaved arbitrarily.
    let max_packet = 100_000usize;
    let sources: Vec<(String, Vec<u8>)> = (0..4u32)
        .map(|j| {
            let name = format!("out/file-{j}.bin");
            let data: Vec<u8> = (0..250_000u32 + j * 37).map(|i| ((i * 7 + j) % 253) as u8).collect();
            (name, data)
        })
        .collect();

    // Chunks of one file keep their order; files interleave round-robin.
    let mut queues: Vec<(usize, Vec<ChunkPlan>)> = sources
        .iter()
        .enumerate()
        .map(|(j, (_, data))| (j, plan_chunks(data.len(), max_packet)))
        .collect();

    let mut files: HashMap<String, Vec<u8>> = HashMap::new();
    let mut next: Vec<usize> = vec![0; queues.len()];
    let mut progressed = true;
    while progressed {
        progressed = false;
        for (j, plans) in queues.iter_mut() {
            if next[*j] < plans.len() {
                let plan = plans[next[*j]];
                next[*j] += 1;
                progressed = true;
                let (name, data) = &sources[*j];
                let envelope = chunk_envelope(name, data.len() as u64, &plan);
                let body = &data[plan.offset..plan.offset + plan.size];
                deliver(&mut files, &envelope, body).unwrap();
            }
        }
    }

    for (name, data) in &sources {
        assert_eq!(&files[name], data, "{name} must match its source");
    }
}
