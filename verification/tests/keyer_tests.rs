use wifikey::frame::MessageRCV;
use wifikey::keyer::{wpm_x10, KeyerStep, RemoteKeyer, MAX_ASSERT_DURATION};
use wifikey::receiver::{ProtocolErrorLog, WkReceiver};

#[test]
fn wpm_is_rounded_to_the_nearest_tenth() {
    assert_eq!(wpm_x10(0), 0);
    assert_eq!(wpm_x10(1), 36_000);
    assert_eq!(wpm_x10(60), 600);
    assert_eq!(wpm_x10(180), 200);
    assert_eq!(wpm_x10(7), 5_143);
    assert_eq!(wpm_x10(73), 493);
    assert_eq!(wpm_x10(72_000), 1);
    assert_eq!(wpm_x10(72_001), 0);
    assert_eq!(wpm_x10(u32::MAX), 0);
}

#[test]
fn new_keyer_is_idle_and_released() {
    let mut k = RemoteKeyer::new();
    assert!(!k.key_down());
    assert!(!k.stopped());
    assert_eq!(k.pending(), 0);
    assert_eq!(k.step(5), KeyerStep::Empty);
}

#[test]
fn first_edge_sets_the_epochs_and_leaves_at_once() {
    let mut k = RemoteKeyer::new();
    k.feed(&[MessageRCV::Keydown(100), MessageRCV::Keyup(160)]);
    assert_eq!(k.pending(), 2);
    assert_eq!(k.step(1_000), KeyerStep::KeyDown);
    assert!(k.key_down());
    assert_eq!(k.step(1_001), KeyerStep::Wait);
    assert_eq!(k.step(1_059), KeyerStep::Wait);
    assert_eq!(k.pending(), 1);
    assert_eq!(k.step(1_060), KeyerStep::KeyUp);
    assert!(!k.key_down());
    assert_eq!(k.step(1_061), KeyerStep::Empty);
}

#[test]
fn late_keyer_catches_up_in_order() {
    let mut k = RemoteKeyer::new();
    k.feed(&[MessageRCV::Keydown(10), MessageRCV::Keyup(20), MessageRCV::Keydown(30)]);
    assert_eq!(k.step(500), KeyerStep::KeyDown);
    assert_eq!(k.step(600), KeyerStep::KeyUp);
    assert_eq!(k.step(600), KeyerStep::KeyDown);
    assert_eq!(k.step(600), KeyerStep::Empty);
}

#[test]
fn sync_reports_speed_and_frame_rate() {
    let mut k = RemoteKeyer::new();
    k.feed(&[MessageRCV::Keydown(4_000)]);
    k.feed(&[MessageRCV::Keyup(4_180)]);
    assert_eq!(k.step(100), KeyerStep::KeyDown);
    assert_eq!(k.step(280), KeyerStep::KeyUp);
    for _ in 0..7 {
        k.feed(&[MessageRCV::Sync(4_200)]);
        assert_eq!(k.step(300), KeyerStep::Continue);
    }
    k.feed(&[MessageRCV::Sync(7_001)]);
    assert_eq!(k.step(3_100), KeyerStep::Stats { wpm_x10: 200, pkt_rate: 3 });
    // the counters start over
    k.feed(&[MessageRCV::Sync(10_002)]);
    assert_eq!(k.step(6_100), KeyerStep::Stats { wpm_x10: 0, pkt_rate: 0 });
}

#[test]
fn sync_within_three_seconds_leaves_the_epochs() {
    let mut k = RemoteKeyer::new();
    k.feed(&[MessageRCV::Sync(3_000)]);
    assert_eq!(k.step(50), KeyerStep::Continue);
    k.feed(&[MessageRCV::Sync(3_001)]);
    assert_eq!(k.step(60), KeyerStep::Stats { wpm_x10: 36_000, pkt_rate: 0 });
    // the epochs are (3001, 60): an edge at 3011 is due at 70
    k.feed(&[MessageRCV::Keydown(3_011)]);
    assert_eq!(k.step(69), KeyerStep::Wait);
    assert_eq!(k.step(70), KeyerStep::KeyDown);
}

#[test]
fn edges_wait_across_the_wrap_of_both_clocks() {
    let mut k = RemoteKeyer::new();
    k.feed(&[MessageRCV::Keydown(u32::MAX - 5), MessageRCV::Keyup(4)]);
    assert_eq!(k.step(u32::MAX - 1), KeyerStep::KeyDown);
    assert_eq!(k.step(u32::MAX), KeyerStep::Wait);
    assert_eq!(k.step(7), KeyerStep::Wait);
    assert_eq!(k.step(8), KeyerStep::KeyUp);
}

#[test]
fn start_atu_is_handed_on() {
    let mut k = RemoteKeyer::new();
    k.feed(&[MessageRCV::StartATU]);
    assert_eq!(k.step(1), KeyerStep::StartAtu);
    assert_eq!(k.step(1), KeyerStep::Empty);
}

#[test]
fn session_closed_releases_the_key_for_good() {
    let mut k = RemoteKeyer::new();
    k.feed(&[MessageRCV::Keydown(10), MessageRCV::SessionClosed, MessageRCV::Keydown(30)]);
    assert_eq!(k.step(100), KeyerStep::KeyDown);
    assert_eq!(k.step(100), KeyerStep::Closed);
    assert!(!k.key_down());
    assert!(k.stopped());
    assert_eq!(k.pending(), 0);
    k.feed(&[MessageRCV::Keydown(40)]);
    assert_eq!(k.pending(), 0);
    assert_eq!(k.step(200), KeyerStep::Closed);
    assert!(!k.key_down());
}

#[test]
fn stop_releases_the_key() {
    let mut k = RemoteKeyer::new();
    k.feed(&[MessageRCV::Keydown(10)]);
    assert_eq!(k.step(100), KeyerStep::KeyDown);
    k.stop();
    assert!(!k.key_down());
    assert!(k.stopped());
    assert_eq!(k.step(101), KeyerStep::Closed);
}

#[test]
fn watchdog_releases_a_key_that_is_held_too_long() {
    let mut k = RemoteKeyer::new();
    k.feed(&[MessageRCV::Keydown(10)]);
    assert_eq!(k.step(1_000), KeyerStep::KeyDown);
    assert!(!k.watchdog(1_000 + MAX_ASSERT_DURATION));
    assert!(k.key_down());
    assert!(k.watchdog(1_001 + MAX_ASSERT_DURATION));
    assert!(!k.key_down());
    assert!(!k.watchdog(1_002 + MAX_ASSERT_DURATION));
}

#[test]
fn watchdog_leaves_a_released_key() {
    let mut k = RemoteKeyer::new();
    assert!(!k.watchdog(4_000_000_000));
    k.feed(&[MessageRCV::Keydown(10), MessageRCV::Keyup(20)]);
    assert_eq!(k.step(1_000), KeyerStep::KeyDown);
    assert_eq!(k.step(1_010), KeyerStep::KeyUp);
    assert!(!k.watchdog(50_000));
}

#[test]
fn watchdog_counts_across_the_wrap() {
    let mut k = RemoteKeyer::new();
    k.feed(&[MessageRCV::Keydown(10)]);
    assert_eq!(k.step(u32::MAX - 100), KeyerStep::KeyDown);
    assert!(!k.watchdog(9_899));
    assert!(k.watchdog(9_900));
}

#[test]
fn receiver_decodes_a_frame() {
    let msgs = WkReceiver::decode(&[0, 0, 0, 3, 0xe8, 2, 5, 0x80 | 30, 0, 0]).unwrap();
    assert_eq!(msgs, vec![MessageRCV::Keydown(1_005), MessageRCV::Keyup(1_030)]);
}

#[test]
fn receiver_passes_frames_and_ends_with_the_session() {
    let mut r = WkReceiver::new();
    assert!(!r.closed());
    assert_eq!(r.on_read(Some(&[])), None);
    assert_eq!(r.on_read(Some(&[0, 0, 0, 0, 9, 0])), Some(vec![MessageRCV::Sync(9)]));
    assert_eq!(r.on_read(Some(&[1, 0, 0, 0, 0, 0])), Some(vec![MessageRCV::StartATU]));
    // what is no frame is dropped
    assert_eq!(r.on_read(Some(&[0, 0, 0])), None);
    assert_eq!(r.on_read(Some(&[0, 0, 0, 0, 0, 200])), None);
    assert!(!r.closed());
    assert_eq!(r.on_read(None), Some(vec![MessageRCV::SessionClosed]));
    assert!(r.closed());
    assert_eq!(r.on_read(Some(&[0, 0, 0, 0, 9, 0])), Some(vec![MessageRCV::Sync(9)]));
    assert!(r.closed());
}

#[test]
fn receiver_stop_closes() {
    let mut r = WkReceiver::new();
    r.stop();
    assert!(r.closed());
    let mut r = WkReceiver::new();
    r.close();
    assert!(r.closed());
}

#[test]
fn malformed_frames_are_logged_once_in_a_hundred() {
    let mut log = ProtocolErrorLog::new();
    let due: Vec<u32> = (0..250u32).filter(|_| log.record()).collect();
    assert_eq!(due, vec![0, 100, 200]);
    assert_eq!(log.count, 250);
    let mut log = ProtocolErrorLog { count: u32::MAX };
    assert!(!log.record());
    assert_eq!(log.count, 0);
}
