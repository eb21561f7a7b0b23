//! The ring buffer tracks its unread bytes exactly, in order, across the
//! wraparound boundary, with no loss and no duplication.

use noftp::{RingBuffer, RECV_BUFFER_SIZE};

#[test]
fn empty_buffer_has_no_content() {
    let mut rb = RingBuffer::new();
    assert_eq!(rb.len(), 0);
    let mut out = vec![0u8; 8];
    rb.move_content(8, &mut out);
    assert_eq!(rb.len(), 0);
    assert_eq!(out, vec![0u8; 8]);
}

#[test]
fn written_bytes_come_back_in_order() {
    let mut rb = RingBuffer::new();
    rb.written(&[10, 20, 30, 40, 50]);
    assert_eq!(rb.len(), 5);
    let mut out = vec![0u8; 3];
    rb.move_content(3, &mut out);
    assert_eq!(out, vec![10, 20, 30]);
    assert_eq!(rb.len(), 2);
    let mut rest = vec![0u8; 2];
    rb.move_content(2, &mut rest);
    assert_eq!(rest, vec![40, 50]);
    assert_eq!(rb.len(), 0);
}

#[test]
fn move_content_clamps_to_available() {
    let mut rb = RingBuffer::new();
    rb.written(&[1, 2]);
    let mut out = vec![9u8; 5];
    rb.move_content(5, &mut out);
    // Only the two available bytes are moved; the rest of `out` is kept.
    assert_eq!(out, vec![1, 2, 9, 9, 9]);
    assert_eq!(rb.len(), 0);
}

#[test]
fn content_survives_wraparound() {
    let mut rb = RingBuffer::new();
    // Fill most of the capacity, then drain it, so the pointers sit near
    // the end of the backing array.
    let first: Vec<u8> = (0..4000u32).map(|i| (i % 251) as u8).collect();
    rb.written(&first);
    assert_eq!(rb.len(), 4000);
    let mut sink = vec![0u8; 4000];
    rb.move_content(4000, &mut sink);
    assert_eq!(sink, first);
    assert_eq!(rb.len(), 0);

    // This write crosses the array end.
    let second: Vec<u8> = (0..300u32).map(|i| (255 - (i % 251)) as u8).collect();
    rb.written(&second);
    assert_eq!(rb.len(), 300);
    let mut out = vec![0u8; 300];
    rb.move_content(300, &mut out);
    assert_eq!(out, second);
    assert_eq!(rb.len(), 0);
}

#[test]
fn writable_window_drains_step_by_step() {
    let mut rb = RingBuffer::new();
    assert_eq!(rb.writable(), RECV_BUFFER_SIZE);
    // Feed a payload through repeated window-sized writes, as a socket
    // read loop would, and collect everything back.
    let payload: Vec<u8> = (0..6000u32).map(|i| (i % 241) as u8).collect();
    let mut fed = 0usize;
    let mut got: Vec<u8> = Vec::new();
    while fed < payload.len() {
        let w = rb.writable().min(payload.len() - fed).min(100);
        rb.written(&payload[fed..fed + w]);
        fed += w;
        let avail = rb.len();
        let mut out = vec![0u8; avail];
        rb.move_content(avail, &mut out);
        got.extend_from_slice(&out);
    }
    assert_eq!(got, payload);
}
