use wallpad_bridge::serial::packet::hyundai::HyundaiPacket;
use wallpad_bridge::serial::packet::{Command, SerialPacket};
use wallpad_bridge::serial::reassembler::{Chunk, Reassembler};

fn frame_one() -> Vec<u8> {
    HyundaiPacket::new(0x18, Command::Response, 0x45, 0x12, vec![0x17, 0x00]).to_vec()
}

fn frame_two() -> Vec<u8> {
    HyundaiPacket::new(0x2B, Command::Response, 0x40, 0x11, vec![0x00, 0x01, 0x03]).to_vec()
}

fn shaped(buffer: &[u8]) -> bool {
    buffer.is_empty() || buffer[0] == 0xF7
}

#[test]
fn a_new_reassembler_keeps_nothing() {
    let reassembler: Reassembler<HyundaiPacket> = Reassembler::new();
    assert!(reassembler.buffered().is_empty());
}

#[test]
fn a_whole_frame_is_cut_at_once() {
    let mut reassembler: Reassembler<HyundaiPacket> = Reassembler::new();
    assert_eq!(reassembler.feed(&frame_one()), Chunk::Frame(frame_one()));
    assert!(reassembler.buffered().is_empty());
}

#[test]
fn fragmented_read() {
    let frame = frame_one();
    assert_eq!(frame.len(), 11);
    let mut reassembler: Reassembler<HyundaiPacket> = Reassembler::new();
    assert_eq!(reassembler.feed(&frame[..6]), Chunk::Waiting);
    assert_eq!(reassembler.buffered(), &frame[..6].to_vec());
    assert_eq!(reassembler.feed(&frame[6..]), Chunk::Frame(frame.clone()));
    assert!(reassembler.buffered().is_empty());
    assert!(HyundaiPacket::parse(&frame).is_ok());
}

#[test]
fn a_frame_in_single_bytes_is_cut_once() {
    let frame = frame_two();
    let mut reassembler: Reassembler<HyundaiPacket> = Reassembler::new();
    let mut cut = Vec::new();
    for byte in &frame {
        match reassembler.feed(&[*byte]) {
            Chunk::Frame(bytes) => cut.push(bytes),
            Chunk::Waiting => {}
            Chunk::Noise => panic!("a byte of the frame was dropped"),
        }
    }
    assert_eq!(cut, vec![frame]);
    assert!(reassembler.buffered().is_empty());
}

#[test]
fn noise_between_frames() {
    let mut reassembler: Reassembler<HyundaiPacket> = Reassembler::new();
    assert_eq!(reassembler.feed(&[0xAA, 0xBB]), Chunk::Noise);
    assert_eq!(reassembler.feed(&frame_one()), Chunk::Frame(frame_one()));
    assert_eq!(reassembler.feed(&[0xFF]), Chunk::Noise);
    assert_eq!(reassembler.feed(&frame_two()), Chunk::Frame(frame_two()));
    assert!(reassembler.buffered().is_empty());
}

#[test]
fn frames_and_noise_give_the_frames_in_order() {
    let chunks: Vec<Vec<u8>> = vec![
        vec![0x00],
        frame_two(),
        frame_one(),
        vec![0xEE, 0xF7],
        vec![],
        frame_one(),
        vec![0x12, 0x34, 0x56],
        frame_two(),
    ];
    let mut reassembler: Reassembler<HyundaiPacket> = Reassembler::new();
    let mut cut = Vec::new();
    for chunk in &chunks {
        if let Chunk::Frame(bytes) = reassembler.feed(chunk) {
            cut.push(bytes);
        }
        assert!(reassembler.buffered().is_empty());
    }
    assert_eq!(cut, vec![frame_two(), frame_one(), frame_one(), frame_two()]);
}

#[test]
fn an_empty_chunk_is_noise_when_nothing_is_kept() {
    let mut reassembler: Reassembler<HyundaiPacket> = Reassembler::new();
    assert_eq!(reassembler.feed(&[]), Chunk::Noise);
    assert!(reassembler.buffered().is_empty());
}

#[test]
fn a_lone_prefix_is_kept() {
    let mut reassembler: Reassembler<HyundaiPacket> = Reassembler::new();
    assert_eq!(reassembler.feed(&[0xF7]), Chunk::Waiting);
    assert_eq!(reassembler.buffered(), &vec![0xF7]);
    assert_eq!(reassembler.feed(&[]), Chunk::Waiting);
    assert_eq!(reassembler.buffered(), &vec![0xF7]);
}

#[test]
fn what_follows_a_frame_in_the_first_chunk_is_dropped() {
    let mut chunk = frame_one();
    chunk.extend_from_slice(&[0xF7, 0x0C, 0x01]);
    let mut reassembler: Reassembler<HyundaiPacket> = Reassembler::new();
    assert_eq!(reassembler.feed(&chunk), Chunk::Frame(frame_one()));
    assert!(reassembler.buffered().is_empty());
}

#[test]
fn the_rest_after_a_cut_is_kept_if_it_begins_a_frame() {
    let one = frame_one();
    let two = frame_two();
    let mut reassembler: Reassembler<HyundaiPacket> = Reassembler::new();
    assert_eq!(reassembler.feed(&one[..4]), Chunk::Waiting);
    let mut second = one[4..].to_vec();
    second.extend_from_slice(&two[..5]);
    assert_eq!(reassembler.feed(&second), Chunk::Frame(one));
    assert_eq!(reassembler.buffered(), &two[..5].to_vec());
    assert_eq!(reassembler.feed(&two[5..]), Chunk::Frame(two));
    assert!(reassembler.buffered().is_empty());
}

#[test]
fn the_rest_after_a_cut_is_dropped_if_it_is_noise() {
    let one = frame_one();
    let mut reassembler: Reassembler<HyundaiPacket> = Reassembler::new();
    assert_eq!(reassembler.feed(&one[..4]), Chunk::Waiting);
    let mut second = one[4..].to_vec();
    second.extend_from_slice(&[0x00, 0xF7, 0x0B]);
    assert_eq!(reassembler.feed(&second), Chunk::Frame(one));
    assert!(reassembler.buffered().is_empty());
}

#[test]
fn a_candidate_is_cut_by_the_declared_length_alone() {
    let mut reassembler: Reassembler<HyundaiPacket> = Reassembler::new();
    let chunk = [0xF7u8, 0x04, 0xAA, 0xBB];
    assert_eq!(reassembler.feed(&chunk), Chunk::Frame(chunk.to_vec()));
    assert!(HyundaiPacket::parse(&chunk).is_err());
    let ends_early = [0xF7u8, 0x0B, 0x01, 0xEE];
    assert_eq!(reassembler.feed(&ends_early), Chunk::Waiting);
    assert_eq!(reassembler.buffered(), &ends_early.to_vec());
}

#[test]
fn the_buffer_grows_is_cleared_or_a_frame_is_cut() {
    let stream: Vec<Vec<u8>> = vec![
        vec![0xF7],
        vec![0x05, 0x00],
        vec![0xF7, 0xF7],
        vec![0x00, 0x00, 0x00],
        vec![0xF7, 0x00],
        vec![0x01],
        vec![0xF7, 0x03, 0xF7, 0x02],
        vec![0xAA],
        vec![],
        vec![0xF7, 0x02, 0x09],
        vec![0xF7, 0xFF],
        vec![0x55; 300],
        vec![0x10],
    ];
    let mut reassembler: Reassembler<HyundaiPacket> = Reassembler::new();
    for chunk in &stream {
        let before = reassembler.buffered().clone();
        let outcome = reassembler.feed(chunk);
        let after = reassembler.buffered().clone();
        assert!(shaped(&after));
        let mut grown = before.clone();
        grown.extend_from_slice(chunk);
        assert!(matches!(outcome, Chunk::Frame(_)) || after.is_empty() || after == grown);
    }
}

#[test]
fn clear_forgets_what_is_kept() {
    let mut reassembler: Reassembler<HyundaiPacket> = Reassembler::new();
    assert_eq!(reassembler.feed(&[0xF7, 0x0B, 0x01]), Chunk::Waiting);
    reassembler.clear();
    assert!(reassembler.buffered().is_empty());
    assert_eq!(reassembler.feed(&[0x18, 0x04]), Chunk::Noise);
}
