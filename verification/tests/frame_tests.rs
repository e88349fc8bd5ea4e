use wifikey::frame::{
    decode_frame, encode_frame, messages_of, pack_slot, unpack_slot, Frame, FrameError,
    MessageRCV, PacketKind, MAX_SLOTS,
};

#[test]
fn encode_writes_header_and_slots() {
    let bytes = encode_frame(PacketKind::KeyerMessage, 0x0102_0304, &[0x05, 0x8a]);
    assert_eq!(bytes, vec![0, 1, 2, 3, 4, 2, 0x05, 0x8a]);
}

#[test]
fn encode_start_atu_has_kind_one() {
    let bytes = encode_frame(PacketKind::StartATU, 0, &[]);
    assert_eq!(bytes, vec![1, 0, 0, 0, 0, 0]);
}

#[test]
fn decode_gives_back_what_encode_took() {
    let slots: Vec<u8> = vec![0, 10 | 0x80, 20, 49 | 0x80];
    let bytes = encode_frame(PacketKind::KeyerMessage, 4_000_000_000, &slots);
    let frame = decode_frame(&bytes).unwrap();
    assert_eq!(frame.kind, PacketKind::KeyerMessage);
    assert_eq!(frame.base_ts, 4_000_000_000);
    assert_eq!(frame.slots, slots);
}

#[test]
fn decode_round_trip_with_full_frame() {
    let slots: Vec<u8> = (0..MAX_SLOTS).map(|i| (i % 50) as u8).collect();
    let bytes = encode_frame(PacketKind::KeyerMessage, 77, &slots);
    assert_eq!(bytes.len(), 6 + MAX_SLOTS);
    let frame = decode_frame(&bytes).unwrap();
    assert_eq!(frame, Frame { kind: PacketKind::KeyerMessage, base_ts: 77, slots });
}

#[test]
fn decode_ignores_trailing_bytes() {
    let mut bytes = encode_frame(PacketKind::KeyerMessage, 9, &[1, 2]);
    bytes.extend_from_slice(&[0xff; 120]);
    let frame = decode_frame(&bytes).unwrap();
    assert_eq!(frame.slots, vec![1, 2]);
    assert_eq!(frame.base_ts, 9);
}

#[test]
fn decode_rejects_short_header() {
    assert_eq!(decode_frame(&[0, 0, 0, 0, 0]), Err(FrameError::Truncated));
    assert_eq!(decode_frame(&[]), Err(FrameError::Truncated));
}

#[test]
fn decode_rejects_missing_slots() {
    assert_eq!(decode_frame(&[0, 0, 0, 0, 1, 3, 7, 7]), Err(FrameError::Truncated));
}

#[test]
fn decode_rejects_oversized_slot_count() {
    let mut bytes = vec![0u8, 0, 0, 0, 1, 129];
    bytes.extend_from_slice(&[0u8; 200]);
    assert_eq!(decode_frame(&bytes), Err(FrameError::TooManySlots));
}

#[test]
fn sync_frame_is_a_clock_reading() {
    let frame = decode_frame(&[0, 0, 0, 0x0b, 0xb8, 0]).unwrap();
    assert_eq!(messages_of(&frame), vec![MessageRCV::Sync(3000)]);
}

#[test]
fn start_atu_frame_is_the_tuner_command() {
    let frame = decode_frame(&[1, 0, 0, 0, 0, 0]).unwrap();
    assert_eq!(messages_of(&frame), vec![MessageRCV::StartATU]);
}

#[test]
fn edges_come_out_in_slot_order() {
    let frame = Frame { kind: PacketKind::KeyerMessage, base_ts: 1000, slots: vec![5, 0x80 | 30] };
    assert_eq!(
        messages_of(&frame),
        vec![MessageRCV::Keydown(1005), MessageRCV::Keyup(1030)]
    );
}

#[test]
fn edge_tick_wraps_with_the_clock() {
    assert_eq!(unpack_slot(u32::MAX - 1, 3), MessageRCV::Keydown(1));
    assert_eq!(unpack_slot(u32::MAX, 0x80 | 1), MessageRCV::Keyup(0));
}

#[test]
fn pack_slot_sets_the_edge_bit_for_release() {
    assert_eq!(pack_slot(true, 49), 0x80 | 49);
    assert_eq!(pack_slot(false, 49), 49);
}
