use wallpad_bridge::serial::packet::hyundai::HyundaiPacket;
use wallpad_bridge::serial::packet::{Command, PacketParseError, SerialPacket};
use wallpad_bridge::serial::{ReadEvent, SendQueue, Serial, TimeoutAction};

fn request(room: u8) -> HyundaiPacket {
    HyundaiPacket::new(0x18, Command::Request, 0x45, room, vec![0x00, 0x00])
}

fn answer(room: u8) -> HyundaiPacket {
    HyundaiPacket::new(0x18, Command::Response, 0x45, room, vec![0x00, 0x01, 0x15, 0x18])
}

fn port() -> Serial<HyundaiPacket> {
    Serial::new(String::from("/dev/ttyUSB0"), 10, false)
}

fn port_with_pending(packet: HyundaiPacket) -> (Serial<HyundaiPacket>, SendQueue<HyundaiPacket>) {
    let mut serial = port();
    let mut queue = SendQueue::new();
    queue.send(packet.clone());
    assert_eq!(serial.on_timeout(&mut queue), TimeoutAction::Send(packet.to_vec()));
    (serial, queue)
}

#[test]
fn a_new_port_is_idle() {
    let serial = port();
    assert_eq!(serial.path, "/dev/ttyUSB0");
    assert_eq!(serial.baud_rate, 9600);
    assert_eq!(serial.millis, 10);
    assert!(!serial.print_various);
    assert!(!serial.has_pending());
    assert!(!serial.retry_needed());
    assert!(serial.reassembler.buffered().is_empty());
}

#[test]
fn packets_leave_the_queue_in_the_order_they_were_sent() {
    let mut queue: SendQueue<HyundaiPacket> = SendQueue::new();
    queue.send(request(0x11));
    queue.send(request(0x12));
    queue.send_all(vec![request(0x13), request(0x14)]);
    assert_eq!(queue.len(), 4);
    assert_eq!(queue.try_recv(), Some(request(0x11)));
    assert_eq!(queue.try_recv(), Some(request(0x12)));
    queue.send(request(0x15));
    assert_eq!(queue.try_recv(), Some(request(0x13)));
    assert_eq!(queue.try_recv(), Some(request(0x14)));
    assert_eq!(queue.try_recv(), Some(request(0x15)));
    assert_eq!(queue.try_recv(), None);
    assert_eq!(queue.len(), 0);
}

#[test]
fn the_port_writes_the_queue_in_order() {
    let mut serial = port();
    let mut queue = SendQueue::new();
    let packets = vec![request(0x11), request(0x12), request(0x13)];
    queue.send_all(packets.clone());
    for packet in &packets {
        assert_eq!(serial.on_timeout(&mut queue), TimeoutAction::Send(packet.to_vec()));
        assert_eq!(serial.last_pkt, Some(packet.clone()));
        let reply = answer(packet.room_id).to_vec();
        assert_eq!(serial.on_read(&reply), ReadEvent::Frame(answer(packet.room_id)));
        assert!(!serial.has_pending());
    }
    assert_eq!(serial.on_timeout(&mut queue), TimeoutAction::Idle);
}

#[test]
fn a_timeout_with_an_empty_queue_does_nothing() {
    let mut serial = port();
    let mut queue = SendQueue::new();
    assert_eq!(serial.on_timeout(&mut queue), TimeoutAction::Idle);
    assert!(!serial.has_pending());
    assert!(!serial.retry_needed());
}

#[test]
fn a_timeout_takes_one_packet_and_makes_it_pending() {
    let mut serial = port();
    let mut queue = SendQueue::new();
    queue.send(request(0x11));
    queue.send(request(0x12));
    assert_eq!(serial.on_timeout(&mut queue), TimeoutAction::Send(request(0x11).to_vec()));
    assert_eq!(queue.len(), 1);
    assert_eq!(serial.last_pkt, Some(request(0x11)));
    assert!(!serial.retry_needed());
}

#[test]
fn retry_on_mismatch() {
    let sent = HyundaiPacket::new(0x18, Command::Request, 0x45, 0x12, vec![0x00, 0x00]);
    let (mut serial, mut queue) = port_with_pending(sent.clone());
    queue.send(request(0x20));
    let other = answer(0x13);
    assert_eq!(serial.on_read(&other.to_vec()), ReadEvent::Frame(other));
    assert!(serial.retry_needed());
    assert_eq!(serial.last_pkt, Some(sent.clone()));
    assert_eq!(serial.on_timeout(&mut queue), TimeoutAction::Retry(sent.to_vec()));
    assert_eq!(queue.len(), 1);
    assert_eq!(serial.last_pkt, Some(sent));
}

#[test]
fn a_retry_is_due_until_it_was_written() {
    let sent = request(0x12);
    let (mut serial, mut queue) = port_with_pending(sent.clone());
    assert_eq!(serial.on_read(&[0x00]), ReadEvent::Noise);
    assert!(serial.retry_needed());
    assert_eq!(serial.on_timeout(&mut queue), TimeoutAction::Retry(sent.to_vec()));
    assert!(serial.retry_needed());
    assert_eq!(serial.on_timeout(&mut queue), TimeoutAction::Retry(sent.to_vec()));
    serial.on_retry_written();
    assert!(!serial.retry_needed());
    assert!(serial.has_pending());
    assert_eq!(serial.last_pkt, Some(sent));
}

#[test]
fn the_matching_response_clears_the_pending_packet() {
    let (mut serial, mut queue) = port_with_pending(request(0x12));
    assert_eq!(serial.on_read(&answer(0x12).to_vec()), ReadEvent::Frame(answer(0x12)));
    assert!(!serial.has_pending());
    assert!(!serial.retry_needed());
    assert_eq!(serial.on_timeout(&mut queue), TimeoutAction::Idle);
}

#[test]
fn the_matching_response_ends_a_retry() {
    let (mut serial, _queue) = port_with_pending(request(0x12));
    assert_eq!(serial.on_read(&answer(0x13).to_vec()), ReadEvent::Frame(answer(0x13)));
    assert!(serial.retry_needed());
    assert_eq!(serial.on_read(&answer(0x12).to_vec()), ReadEvent::Frame(answer(0x12)));
    assert!(!serial.retry_needed());
    assert!(!serial.has_pending());
}

#[test]
fn a_request_from_another_station_does_not_acknowledge() {
    let (mut serial, _queue) = port_with_pending(request(0x12));
    let other = request(0x12);
    assert_eq!(serial.on_read(&other.to_vec()), ReadEvent::Frame(other));
    assert!(serial.retry_needed());
    assert!(serial.has_pending());
}

#[test]
fn a_frame_that_does_not_decode_asks_for_a_retry() {
    let sent = request(0x12);
    let (mut serial, mut queue) = port_with_pending(sent.clone());
    let mut broken = answer(0x12).to_vec();
    broken[8] ^= 0x40;
    assert_eq!(serial.on_read(&broken), ReadEvent::Rejected(PacketParseError::ChecksumMismatch));
    assert!(serial.retry_needed());
    assert_eq!(serial.on_timeout(&mut queue), TimeoutAction::Retry(sent.to_vec()));
}

#[test]
fn a_frame_that_does_not_decode_is_dropped_when_nothing_is_pending() {
    let mut serial = port();
    let mut broken = answer(0x12).to_vec();
    broken[4] = 0x03;
    let last = broken.len() - 2;
    broken[last] = broken[..last].iter().fold(0, |acc, b| acc ^ b);
    assert_eq!(serial.on_read(&broken), ReadEvent::Rejected(PacketParseError::UnsupportedCommand));
    assert!(!serial.retry_needed());
    assert!(!serial.has_pending());
    assert!(serial.reassembler.buffered().is_empty());
}

#[test]
fn noise_asks_for_a_retry_only_if_a_packet_is_pending() {
    let mut idle = port();
    assert_eq!(idle.on_read(&[0xFF]), ReadEvent::Noise);
    assert!(!idle.retry_needed());
    let (mut waiting, _queue) = port_with_pending(request(0x12));
    assert_eq!(waiting.on_read(&[0xFF]), ReadEvent::Noise);
    assert!(waiting.retry_needed());
    assert!(waiting.has_pending());
}

#[test]
fn noise_between_frames_at_the_port() {
    let mut serial = port();
    assert_eq!(serial.on_read(&[0xAA, 0xBB]), ReadEvent::Noise);
    assert_eq!(serial.on_read(&answer(0x11).to_vec()), ReadEvent::Frame(answer(0x11)));
    assert_eq!(serial.on_read(&[0xFF]), ReadEvent::Noise);
    assert_eq!(serial.on_read(&answer(0x12).to_vec()), ReadEvent::Frame(answer(0x12)));
    assert!(!serial.retry_needed());
}

#[test]
fn a_fragmented_response_is_seen_once() {
    let (mut serial, _queue) = port_with_pending(request(0x12));
    let reply = answer(0x12).to_vec();
    assert_eq!(serial.on_read(&reply[..6]), ReadEvent::Waiting);
    assert!(serial.has_pending());
    assert!(!serial.retry_needed());
    assert_eq!(serial.on_read(&reply[6..]), ReadEvent::Frame(answer(0x12)));
    assert!(!serial.has_pending());
}

#[test]
fn a_frame_without_a_pending_packet_is_dispatched() {
    let mut serial = port();
    assert_eq!(serial.on_read(&answer(0x14).to_vec()), ReadEvent::Frame(answer(0x14)));
    assert!(!serial.has_pending());
    assert!(!serial.retry_needed());
}

#[test]
fn a_sent_response_is_acknowledged_by_any_frame() {
    let (mut serial, _queue) = port_with_pending(answer(0x12));
    assert_eq!(serial.on_read(&request(0x30).to_vec()), ReadEvent::Frame(request(0x30)));
    assert!(!serial.has_pending());
}

#[test]
fn a_pending_packet_without_a_retry_gives_way_to_the_next() {
    let (mut serial, mut queue) = port_with_pending(request(0x11));
    queue.send(request(0x12));
    assert_eq!(serial.on_timeout(&mut queue), TimeoutAction::Send(request(0x12).to_vec()));
    assert_eq!(serial.last_pkt, Some(request(0x12)));
    assert_eq!(queue.len(), 0);
}

#[test]
fn nothing_is_taken_from_the_queue_while_a_retry_is_due() {
    let sent = request(0x11);
    let (mut serial, mut queue) = port_with_pending(sent.clone());
    queue.send_all(vec![request(0x12), request(0x13)]);
    assert_eq!(serial.on_read(&[0x01, 0x02]), ReadEvent::Noise);
    for _ in 0..5 {
        assert_eq!(serial.on_timeout(&mut queue), TimeoutAction::Retry(sent.to_vec()));
        assert_eq!(queue.len(), 2);
    }
    serial.on_retry_written();
    assert_eq!(serial.on_timeout(&mut queue), TimeoutAction::Send(request(0x12).to_vec()));
    assert_eq!(queue.len(), 1);
}

#[test]
fn opening_the_port_starts_afresh() {
    let (mut serial, mut queue) = port_with_pending(request(0x11));
    queue.send_all(vec![request(0x12), request(0x13)]);
    assert_eq!(serial.on_read(&[0x00]), ReadEvent::Noise);
    assert_eq!(serial.on_read(&[0xF7, 0x0B]), ReadEvent::Waiting);
    assert!(!serial.reassembler.buffered().is_empty());
    serial.on_open(&mut queue);
    assert_eq!(queue.len(), 0);
    assert!(!serial.has_pending());
    assert!(!serial.retry_needed());
    assert!(serial.reassembler.buffered().is_empty());
    assert_eq!(serial.path, "/dev/ttyUSB0");
    assert_eq!(serial.on_timeout(&mut queue), TimeoutAction::Idle);
}
