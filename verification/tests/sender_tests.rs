use wifikey::frame::{decode_frame, messages_of, MessageRCV, MessageSND, PacketKind, MAX_SLOTS};
use wifikey::sender::{
    SendError, Sender, SenderAction, WkSender, KEEP_ALIVE, SLEEP_PERIOD,
};

#[test]
fn frames_leave_every_fifty_ms() {
    let mut s = Sender::new(1_000);
    for now in 1_001..1_050 {
        assert_eq!(s.tick(now), None);
    }
    assert_eq!(s.tick(1_050), Some(MessageSND::SendPacket(1_000)));
    assert_eq!(s.last_sent(), 1_050);
    for now in 1_051..1_100 {
        assert_eq!(s.tick(now), None);
    }
    assert_eq!(s.tick(1_100), Some(MessageSND::SendPacket(1_050)));
}

#[test]
fn a_late_tick_moves_the_next_base() {
    let mut s = Sender::new(0);
    assert_eq!(s.tick(52), Some(MessageSND::SendPacket(0)));
    assert_eq!(s.tick(101), None);
    assert_eq!(s.tick(102), Some(MessageSND::SendPacket(52)));
}

#[test]
fn edges_carry_their_offset() {
    let mut s = Sender::new(100);
    assert_eq!(s.edge(100, false), vec![MessageSND::NegEdge(0)]);
    assert_eq!(s.edge(130, true), vec![MessageSND::PosEdge(30)]);
    assert_eq!(s.edge(149, false), vec![MessageSND::NegEdge(49)]);
    assert_eq!(s.slot_count(), 3);
    assert_eq!(s.tick(150), Some(MessageSND::SendPacket(100)));
    assert_eq!(s.slot_count(), 0);
}

#[test]
fn a_late_edge_sends_the_frame_early_and_opens_the_next() {
    let mut s = Sender::new(100);
    assert_eq!(s.edge(110, false), vec![MessageSND::NegEdge(10)]);
    assert_eq!(
        s.edge(150, true),
        vec![MessageSND::SendPacket(100), MessageSND::PosEdge(0)]
    );
    assert_eq!(s.last_sent(), 150);
    assert_eq!(s.slot_count(), 1);
}

#[test]
fn a_full_frame_leaves_with_the_next_edge() {
    let mut s = Sender::new(0);
    for _ in 0..MAX_SLOTS {
        assert_eq!(s.edge(1, false).len(), 1);
    }
    assert_eq!(s.slot_count(), MAX_SLOTS);
    assert_eq!(
        s.edge(2, true),
        vec![MessageSND::SendPacket(0), MessageSND::PosEdge(0)]
    );
    assert_eq!(s.slot_count(), 1);
    assert_eq!(s.last_sent(), 2);
}

#[test]
fn sender_dozes_after_the_sleep_period_and_keeps_alive() {
    let mut s = Sender::new(0);
    let mut now: u32 = 0;
    for _ in 0..SLEEP_PERIOD {
        assert!(!s.dozing());
        now += 50;
        assert_eq!(s.tick(now), Some(MessageSND::SendPacket(now - 50)));
    }
    assert!(s.dozing());
    let asleep = now;
    assert_eq!(s.tick(asleep + 50), None);
    assert_eq!(s.tick(asleep + KEEP_ALIVE), None);
    assert_eq!(s.tick(asleep + KEEP_ALIVE + 1), Some(MessageSND::SendPacket(asleep + KEEP_ALIVE + 1)));
    assert_eq!(s.tick(asleep + 2 * KEEP_ALIVE + 1), None);
    assert_eq!(
        s.tick(asleep + 2 * KEEP_ALIVE + 2),
        Some(MessageSND::SendPacket(asleep + 2 * KEEP_ALIVE + 2))
    );
    assert!(s.dozing());
}

#[test]
fn an_edge_resets_the_count_of_empty_frames() {
    let mut s = Sender::new(0);
    let mut now: u32 = 0;
    for _ in 0..SLEEP_PERIOD - 1 {
        now += 50;
        s.tick(now);
    }
    assert!(!s.dozing());
    s.edge(now + 1, false);
    now += 50;
    assert_eq!(s.tick(now), Some(MessageSND::SendPacket(now - 50)));
    now += 50;
    s.tick(now);
    assert!(!s.dozing());
}

#[test]
fn an_edge_wakes_a_dozing_sender() {
    let mut s = Sender::new(0);
    let mut now: u32 = 0;
    for _ in 0..SLEEP_PERIOD {
        now += 50;
        s.tick(now);
    }
    assert!(s.dozing());
    now += 10_000;
    assert_eq!(
        s.edge(now, false),
        vec![MessageSND::SendPacket(now), MessageSND::NegEdge(0)]
    );
    assert!(!s.dozing());
    assert_eq!(s.tick(now + 49), None);
    assert_eq!(s.tick(now + 50), Some(MessageSND::SendPacket(now)));
}

#[test]
fn the_tuner_button_wakes_a_dozing_sender() {
    let mut s = Sender::new(0);
    let mut now: u32 = 0;
    for _ in 0..SLEEP_PERIOD {
        now += 50;
        s.tick(now);
    }
    assert!(s.dozing());
    assert_eq!(s.start_atu(now + 777), MessageSND::StartATU);
    assert!(!s.dozing());
    assert_eq!(s.last_sent(), now + 777);
    let mut awake = Sender::new(5);
    assert_eq!(awake.start_atu(30), MessageSND::StartATU);
    assert_eq!(awake.last_sent(), 5);
}

#[test]
fn pacing_survives_the_wrap_of_the_clock() {
    let mut s = Sender::new(u32::MAX - 20);
    assert_eq!(s.edge(u32::MAX, true), vec![MessageSND::PosEdge(20)]);
    assert_eq!(s.edge(10, false), vec![MessageSND::NegEdge(31)]);
    assert_eq!(s.tick(28), None);
    assert_eq!(s.tick(29), Some(MessageSND::SendPacket(u32::MAX - 20)));
}

#[test]
fn an_edge_is_read_once_the_pin_is_quiet() {
    assert!(!Sender::edge_ready(100, 100));
    assert!(!Sender::edge_ready(101, 100));
    assert!(Sender::edge_ready(102, 100));
    assert!(!Sender::edge_ready(100, 102));
    assert!(Sender::edge_ready(1, u32::MAX));
}

#[test]
fn assembler_collects_edges_into_a_frame() {
    let mut a = WkSender::new();
    assert_eq!(a.send(MessageSND::NegEdge(3)), Ok(SenderAction::Nothing));
    assert_eq!(a.send(MessageSND::PosEdge(40)), Ok(SenderAction::Nothing));
    let frame = match a.send(MessageSND::SendPacket(0x01020304)) {
        Ok(SenderAction::Transmit(bytes)) => bytes,
        other => panic!("no frame: {:?}", other),
    };
    assert_eq!(frame, vec![0, 1, 2, 3, 4, 2, 3, 0x80 | 40]);
    // the next frame starts empty
    assert_eq!(
        a.send(MessageSND::SendPacket(7)),
        Ok(SenderAction::Transmit(vec![0, 0, 0, 0, 7, 0]))
    );
}

#[test]
fn assembler_start_atu_drops_the_edges() {
    let mut a = WkSender::new();
    a.send(MessageSND::NegEdge(3)).unwrap();
    assert_eq!(
        a.send(MessageSND::StartATU),
        Ok(SenderAction::Transmit(vec![1, 0, 0, 0, 0, 0]))
    );
    assert_eq!(
        a.send(MessageSND::SendPacket(1)),
        Ok(SenderAction::Transmit(vec![0, 0, 0, 0, 1, 0]))
    );
}

#[test]
fn assembler_refuses_the_edge_that_does_not_fit() {
    let mut a = WkSender::new();
    for i in 0..MAX_SLOTS {
        assert_eq!(a.send(MessageSND::NegEdge((i % 50) as u8)), Ok(SenderAction::Nothing));
    }
    assert_eq!(a.send(MessageSND::PosEdge(1)), Err(SendError::Overflow));
    match a.send(MessageSND::SendPacket(9)) {
        Ok(SenderAction::Transmit(bytes)) => assert_eq!(bytes.len(), 6 + MAX_SLOTS),
        other => panic!("no frame: {:?}", other),
    }
}

#[test]
fn assembler_closes_for_good() {
    let mut a = WkSender::new();
    assert!(!a.closed());
    assert_eq!(a.send(MessageSND::CloseSession), Ok(SenderAction::Close));
    assert!(a.closed());
    assert_eq!(a.send(MessageSND::SendPacket(1)), Err(SendError::Closed));
    assert_eq!(a.send(MessageSND::NegEdge(1)), Err(SendError::Closed));
    let mut b = WkSender::new();
    b.transmit_failed();
    assert!(b.closed());
    assert_eq!(b.send(MessageSND::StartATU), Err(SendError::Closed));
}

#[test]
fn encode_is_the_frame_codec() {
    assert_eq!(
        WkSender::encode(PacketKind::KeyerMessage, 258, &[1]),
        vec![0, 0, 0, 1, 2, 1, 1]
    );
}

#[test]
fn an_edge_reaches_the_keyer_with_its_tick() {
    let mut s = Sender::new(70_000);
    let mut a = WkSender::new();
    let mut frames: Vec<Vec<u8>> = Vec::new();
    let edges = [(70_003u32, false), (70_047, true), (70_051, false), (70_120, true)];
    let mut next = 0;
    for now in 70_000u32..70_200 {
        let mut msgs: Vec<MessageSND> = Vec::new();
        if let Some(m) = s.tick(now) {
            msgs.push(m);
        }
        if next < edges.len() && edges[next].0 == now {
            msgs.extend(s.edge(now, edges[next].1));
            next += 1;
        }
        for m in msgs {
            if let Ok(SenderAction::Transmit(bytes)) = a.send(m) {
                frames.push(bytes);
            }
        }
    }
    let mut seen: Vec<MessageRCV> = Vec::new();
    for f in &frames {
        let frame = decode_frame(f).unwrap();
        for m in messages_of(&frame) {
            match m {
                MessageRCV::Sync(_) => {}
                other => seen.push(other),
            }
        }
    }
    assert_eq!(
        seen,
        vec![
            MessageRCV::Keydown(70_003),
            MessageRCV::Keyup(70_047),
            MessageRCV::Keydown(70_051),
            MessageRCV::Keyup(70_120),
        ]
    );
}

#[test]
fn assembler_refuses_an_edge_behind_the_frame() {
    let mut a = WkSender::new();
    assert_eq!(a.send(MessageSND::NegEdge(49)), Ok(SenderAction::Nothing));
    assert_eq!(a.send(MessageSND::NegEdge(50)), Err(SendError::Overflow));
    assert_eq!(a.send(MessageSND::PosEdge(128)), Err(SendError::Overflow));
    assert_eq!(a.send(MessageSND::PosEdge(255)), Err(SendError::Overflow));
    assert_eq!(
        a.send(MessageSND::SendPacket(1)),
        Ok(SenderAction::Transmit(vec![0, 0, 0, 0, 1, 1, 49]))
    );
}
