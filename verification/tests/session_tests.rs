use std::io::{self, Write};
use std::sync::{Arc, Mutex};
use wifikey::listener::{Endpoint, ListenerStep, WkListener};
use wifikey::auth::{AuthError, AuthStep};
use wifikey::session::{
    screen, timer_step, recv_outcome, ArqError, IngressStep, ENGINE_CLOCK_LIMIT, KcpMode, KcpSocket, RecvPoll, SessionError, UpdaterStep, WkSession,
    SESSION_TIMEOUT, UPDATE_RETRY,
};

#[derive(Clone, Default)]
struct Wire(Arc<Mutex<Vec<Vec<u8>>>>);

impl Wire {
    fn take(&self) -> Vec<Vec<u8>> {
        std::mem::take(&mut *self.0.lock().unwrap())
    }
}

impl Write for Wire {
    fn write(&mut self, data: &[u8]) -> io::Result<usize> {
        self.0.lock().unwrap().push(data.to_vec());
        Ok(data.len())
    }

    fn flush(&mut self) -> io::Result<()> {
        Ok(())
    }
}

struct Broken;

impl Write for Broken {
    fn write(&mut self, _data: &[u8]) -> io::Result<usize> {
        Err(io::Error::new(io::ErrorKind::Other, "down"))
    }

    fn flush(&mut self) -> io::Result<()> {
        Ok(())
    }
}

fn peer(port: u16) -> Endpoint {
    Endpoint { addr: 0x7f00_0001, port, v6: false }
}

#[test]
fn new_socket_is_open_and_waits_for_its_conv() {
    let s = KcpSocket::new(KcpMode::Fast, Wire::default(), 77).unwrap();
    assert!(!s.closed());
    assert_eq!(s.last_update(), 77);
    assert_eq!(s.conv(), 0);
    assert!(s.waiting_conv());
    for mode in [KcpMode::Default, KcpMode::Normal, KcpMode::FastNB] {
        assert!(KcpSocket::new(mode, Wire::default(), 0).is_ok());
    }
}

#[test]
fn closed_socket_takes_and_gives_nothing() {
    let wire = Wire::default();
    let mut s = KcpSocket::new(KcpMode::Fast, wire.clone(), 0).unwrap();
    s.close();
    assert!(s.closed());
    assert_eq!(s.send(b"x", 5), Err(SessionError::Closed));
    let mut buf = [0u8; 16];
    assert_eq!(s.recv(&mut buf), Err(SessionError::Closed));
    assert_eq!(s.last_update(), 0);
    assert!(wire.take().is_empty());
    s.close();
    assert!(s.closed());
}

#[test]
fn recv_on_an_empty_queue_gives_zero() {
    let mut s = KcpSocket::new(KcpMode::Fast, Wire::default(), 0).unwrap();
    let mut buf = [7u8; 16];
    assert_eq!(s.recv(&mut buf), Ok(0));
    assert_eq!(buf, [7u8; 16]);
}

#[test]
fn send_writes_one_datagram_with_header_and_payload() {
    let wire = Wire::default();
    let mut s = KcpSocket::new(KcpMode::Fast, wire.clone(), 0).unwrap();
    assert_eq!(s.send(b"hello", 3), Ok(5));
    // only what arrives restarts the idle time
    assert_eq!(s.last_update(), 0);
    let sent = wire.take();
    assert_eq!(sent.len(), 1);
    assert_eq!(sent[0].len(), 24 + 5);
    assert_eq!(&sent[0][0..4], &[0, 0, 0, 0]);
    assert_eq!(&sent[0][24..], b"hello");
}

#[test]
fn short_and_foreign_datagrams_are_refused() {
    let mut s = KcpSocket::new(KcpMode::Fast, Wire::default(), 0).unwrap();
    assert!(matches!(s.input(&[0u8; 23], 5), Err(SessionError::Arq(_))));
    assert_eq!(s.last_update(), 0);
}

#[test]
fn update_tells_when_it_is_due_again() {
    let mut s = KcpSocket::new(KcpMode::Fast, Wire::default(), 0).unwrap();
    let due = s.update(1).unwrap();
    assert!(due <= 10);
    assert_eq!(s.last_update(), 0);
    assert_eq!(s.flush(4), Ok(()));
    assert_eq!(s.last_update(), 0);
}

#[test]
fn a_failing_output_loses_datagrams_not_messages() {
    let mut s = KcpSocket::new(KcpMode::Fast, Broken, 0).unwrap();
    assert_eq!(s.send(b"x", 1), Ok(1));
    assert_eq!(s.flush(2), Ok(()));
    assert!(!s.closed());
}

#[test]
fn session_idles_out() {
    let mut s = WkSession::connect(Wire::default(), 1_000).unwrap();
    assert!(matches!(s.run_timers(1_010), UpdaterStep::Sleep(_)));
    assert!(matches!(s.run_timers(1_000 + SESSION_TIMEOUT), UpdaterStep::Sleep(_)));
    assert!(!s.closed());
    assert_eq!(s.run_timers(1_001 + SESSION_TIMEOUT), UpdaterStep::Exit);
    assert!(s.closed());
    assert_eq!(s.run_timers(1_002 + SESSION_TIMEOUT), UpdaterStep::Exit);
    assert_eq!(s.send(b"x", 40_000), Err(SessionError::Closed));
}

#[test]
fn session_with_its_own_expiry() {
    let mut s = WkSession::new(Wire::default(), KcpMode::Fast, 100, 0).unwrap();
    assert!(matches!(s.run_timers(100), UpdaterStep::Sleep(_)));
    assert_eq!(s.run_timers(101), UpdaterStep::Exit);
}

#[test]
fn timers_retry_after_a_refused_update() {
    let mut s = WkSession::connect(Broken, 0).unwrap();
    let _ = s.send(b"x", 0);
    assert_eq!(s.run_timers(20), UpdaterStep::Sleep(UPDATE_RETRY));
    assert!(!s.closed());
}

#[test]
fn ingest_drops_strangers_and_runts() {
    let mut s = WkSession::connect(Wire::default(), 0).unwrap();
    assert_eq!(s.ingest(&[0u8; 64], false, 1), IngressStep::Dropped);
    assert_eq!(s.ingest(&[0u8; 23], true, 1), IngressStep::Dropped);
    assert_eq!(s.ingest(&[0xffu8; 24], true, 1), IngressStep::Refused);
    s.close();
    assert_eq!(s.ingest(&[0u8; 24], true, 1), IngressStep::Exit);
    assert_eq!(s.ingest(&[0u8; 24], false, 1), IngressStep::Dropped);
}

#[test]
fn recv_timeout_polls_until_the_time_is_up() {
    let mut s = WkSession::connect(Wire::default(), 0).unwrap();
    let mut buf = [0u8; 128];
    assert_eq!(s.recv_timeout(&mut buf, 100, 1_000, 100), RecvPoll::Again);
    assert_eq!(s.recv_timeout(&mut buf, 100, 1_000, 1_099), RecvPoll::Again);
    assert_eq!(s.recv_timeout(&mut buf, 100, 1_000, 1_100), RecvPoll::TimedOut);
    assert_eq!(s.recv_timeout(&mut buf, u32::MAX, 10, 8), RecvPoll::Again);
    assert_eq!(s.recv_timeout(&mut buf, u32::MAX, 10, 9), RecvPoll::TimedOut);
}

#[test]
fn messages_cross_in_order_and_the_client_adopts_the_conv() {
    let c2s = Wire::default();
    let s2c = Wire::default();
    let mut client = WkSession::connect(c2s.clone(), 0).unwrap();
    let mut listener = WkListener::new();
    assert_eq!(listener.peer(), None);
    assert!(!listener.session_open());

    assert_eq!(client.send(b"one", 1), Ok(3));
    assert_eq!(client.send(b"two", 2), Ok(3));
    let mut steps = Vec::new();
    for mut pkt in c2s.take() {
        assert_eq!(&pkt[0..4], &[0, 0, 0, 0]);
        steps.push(listener.on_datagram_with(&mut pkt, peer(4000), 5, s2c.clone(), 0x0a0b_0c0c));
        // the conversation id was set on the way in
        assert_eq!(&pkt[0..4], &[0x0d, 0x0c, 0x0b, 0x0a]);
    }
    assert_eq!(steps[0], ListenerStep::Accepted);
    assert!(steps[1..].iter().all(|s| *s == ListenerStep::Fed));
    assert_eq!(listener.peer(), Some(peer(4000)));
    assert!(listener.session_open());

    let mut buf = [0u8; 128];
    assert_eq!(listener.recv(&mut buf), Ok(3));
    assert_eq!(&buf[..3], b"one");
    assert_eq!(listener.recv(&mut buf), Ok(3));
    assert_eq!(&buf[..3], b"two");
    assert_eq!(listener.recv(&mut buf), Ok(0));

    assert_eq!(listener.send(b"reply", 7), Ok(5));
    assert!(client.closed() == false);
    for pkt in s2c.take() {
        assert_eq!(&pkt[0..4], &[0x0d, 0x0c, 0x0b, 0x0a]);
        assert_eq!(client.ingest(&pkt, true, 8), IngressStep::Fed);
    }
    assert_eq!(client.recv_timeout(&mut buf, 8, 1_000, 9), RecvPoll::Got(5));
    assert_eq!(&buf[..5], b"reply");
}

#[test]
fn a_second_peer_is_dropped_while_a_session_is_open() {
    let c2s = Wire::default();
    let mut client = WkSession::connect(c2s.clone(), 0).unwrap();
    client.send(b"first", 1).unwrap();
    let first = c2s.take().remove(0);

    let mut listener = WkListener::new();
    let mut pkt = first.clone();
    assert_eq!(
        listener.on_datagram_with(&mut pkt, peer(1), 5, Wire::default(), 1),
        ListenerStep::Accepted
    );
    let mut other = first.clone();
    assert_eq!(
        listener.on_datagram_with(&mut other, peer(2), 6, Wire::default(), 2),
        ListenerStep::Dropped
    );
    assert_eq!(listener.peer(), Some(peer(1)));
    assert!(listener.session_open());

    // once the session is closed, the next peer is accepted
    listener.close_session();
    assert!(!listener.session_open());
    let mut other = first.clone();
    assert_eq!(
        listener.on_datagram_with(&mut other, peer(2), 7, Wire::default(), 3),
        ListenerStep::Accepted
    );
    assert_eq!(listener.peer(), Some(peer(2)));
    assert!(listener.session_open());
}

#[test]
fn listener_drops_runts_and_what_no_engine_takes() {
    let mut listener = WkListener::new();
    let mut runt = vec![0u8; 23];
    assert_eq!(
        listener.on_datagram_with(&mut runt, peer(1), 5, Wire::default(), 1),
        ListenerStep::Dropped
    );
    assert_eq!(runt, vec![0u8; 23]);
    let mut junk = vec![0xffu8; 40];
    assert_eq!(
        listener.on_datagram_with(&mut junk, peer(1), 5, Wire::default(), 1),
        ListenerStep::Dropped
    );
    assert_eq!(junk, vec![0xffu8; 40]);
    assert_eq!(listener.peer(), None);
    let mut buf = [0u8; 8];
    assert_eq!(listener.recv(&mut buf), Err(SessionError::Closed));
    assert_eq!(listener.send(b"x", 1), Err(SessionError::Closed));
    assert_eq!(listener.run_timers(1), UpdaterStep::Exit);
    assert_eq!(listener.recv_timeout(&mut buf, 0, 10, 5), RecvPoll::Closed);
    assert_eq!(listener.recv_timeout(&mut buf, 0, 10, 10), RecvPoll::Closed);
}

#[test]
fn listener_draws_a_conv_that_is_not_zero() {
    let c2s = Wire::default();
    let mut client = WkSession::connect(c2s.clone(), 0).unwrap();
    client.send(b"first", 1).unwrap();
    let mut pkt = c2s.take().remove(0);
    let mut listener = WkListener::new();
    assert_eq!(
        listener.on_datagram(&mut pkt, peer(1), 5, Wire::default()),
        ListenerStep::Accepted
    );
    assert_ne!(&pkt[0..4], &[0, 0, 0, 0]);
    assert_eq!(&pkt[4..], &{
        let mut c = WkSession::connect(c2s.clone(), 0).unwrap();
        c.send(b"first", 1).unwrap();
        c2s.take().remove(0)
    }[4..]);
}

#[test]
fn held_session_idles_out_and_makes_room() {
    let c2s = Wire::default();
    let mut client = WkSession::connect(c2s.clone(), 0).unwrap();
    client.send(b"first", 1).unwrap();
    let first = c2s.take().remove(0);
    let mut listener = WkListener::new();
    let mut pkt = first.clone();
    listener.on_datagram_with(&mut pkt, peer(1), 100, Wire::default(), 1);
    assert!(matches!(listener.run_timers(100 + SESSION_TIMEOUT), UpdaterStep::Sleep(_)));
    assert_eq!(listener.run_timers(101 + SESSION_TIMEOUT), UpdaterStep::Exit);
    assert!(!listener.session_open());
    assert_eq!(listener.peer(), Some(peer(1)));
    let mut pkt = first.clone();
    assert_eq!(
        listener.on_datagram_with(&mut pkt, peer(9), 50_000, Wire::default(), 1),
        ListenerStep::Accepted
    );
}

#[test]
fn update_fails_where_the_output_refuses() {
    let mut s = KcpSocket::new(KcpMode::Fast, Broken, 0).unwrap();
    assert_eq!(s.send(b"x", 1), Ok(1));
    assert_eq!(s.update(20), Err(SessionError::Arq(ArqError::IoError)));
    assert_eq!(s.last_update(), 0);
    assert!(!s.closed());
}

#[test]
fn update_asks_for_the_next_run_within_the_interval() {
    let wire = Wire::default();
    let mut s = KcpSocket::new(KcpMode::Fast, wire.clone(), 0).unwrap();
    assert_eq!(s.update(0), Ok(10));
    assert_eq!(s.update(4), Ok(6));
    assert_eq!(s.update(10), Ok(10));
    let mut slow = KcpSocket::new(KcpMode::Default, wire, 100).unwrap();
    assert_eq!(slow.update(105), Ok(5));
}

#[test]
fn listener_poll_ends_exactly_with_the_time() {
    let c2s = Wire::default();
    let mut client = WkSession::connect(c2s.clone(), 0).unwrap();
    client.send(b"first", 1).unwrap();
    let mut pkt = c2s.take().remove(0);
    let mut listener = WkListener::new();
    listener.on_datagram_with(&mut pkt, peer(1), 5, Wire::default(), 1);
    let mut buf = [0u8; 16];
    assert_eq!(listener.recv_timeout(&mut buf, 5, 100, 104), RecvPoll::Got(5));
    assert_eq!(&buf[..5], b"first");
    assert_eq!(listener.recv_timeout(&mut buf, 5, 100, 104), RecvPoll::Again);
    assert_eq!(listener.recv_timeout(&mut buf, 5, 100, 105), RecvPoll::TimedOut);
    // a closed session has no message any more
    client.send(b"second", 2).unwrap();
    let mut pkt = c2s.take().remove(0);
    pkt[0..4].copy_from_slice(&[2, 0, 0, 0]);
    assert_eq!(
        listener.on_datagram_with(&mut pkt, peer(1), 6, Wire::default(), 1),
        ListenerStep::Fed
    );
    listener.close_session();
    let before = buf;
    assert_eq!(listener.recv_timeout(&mut buf, 5, 100, 50), RecvPoll::Closed);
    assert_eq!(buf, before);
    assert_eq!(listener.recv_timeout(&mut buf, 5, 100, 200), RecvPoll::Closed);
}

fn segment(conv: u32, cmd: u8, frg: u8, ts: u32, sn: u32, una: u32, data: &[u8]) -> Vec<u8> {
    let mut d = Vec::new();
    d.extend_from_slice(&conv.to_le_bytes());
    d.push(cmd);
    d.push(frg);
    d.extend_from_slice(&128u16.to_le_bytes());
    d.extend_from_slice(&ts.to_le_bytes());
    d.extend_from_slice(&sn.to_le_bytes());
    d.extend_from_slice(&una.to_le_bytes());
    d.extend_from_slice(&(data.len() as u32).to_le_bytes());
    d.extend_from_slice(data);
    d
}

#[test]
fn datagrams_are_screened() {
    assert!(screen(&segment(7, 81, 0, 10, 0, 0, b"abc")));
    assert!(screen(&[0u8; 23]));
    assert!(screen(&[]));
    assert!(!screen(&segment(7, 81, 128, 10, 0, 0, b"abc")));
    assert!(!screen(&segment(7, 81, 255, 10, 0, 0, b"abc")));
    // the peer's own tick may be any number; one that comes back may not
    assert!(screen(&segment(7, 81, 0, 0x1000_0000, 0, 0, b"")));
    assert!(screen(&segment(7, 81, 0, 0xffff_ffff, 0, 0, b"")));
    assert!(screen(&segment(7, 83, 0, 0x8000_0000, 0, 0, b"")));
    assert!(screen(&segment(7, 82, 0, 0x0fff_ffff, 0, 0, b"")));
    assert!(!screen(&segment(7, 82, 0, 0x1000_0000, 0, 0, b"")));
    assert!(!screen(&segment(7, 82, 0, 0x8000_0000, 0, 0, b"")));
    assert!(!screen(&segment(7, 81, 0, 0, 0x8000_0000, 0, b"")));
    assert!(!screen(&segment(7, 81, 0, 0, 0, 0xffff_ffff, b"")));
    assert!(screen(&segment(7, 81, 127, 0x0fff_ffff, 0x0fff_ffff, 0x0fff_ffff, b"")));
    // every segment of a datagram is looked at
    let mut two = segment(7, 81, 0, 1, 0, 0, b"ab");
    two.extend_from_slice(&segment(7, 81, 0, 1, 0x8000_0000, 0, b""));
    assert!(!screen(&two));
    // what lies behind a length that leads out of the datagram is not
    let mut cut = segment(7, 81, 0, 1, 0, 0, b"ab");
    cut[20] = 200;
    assert!(screen(&cut));
}

#[test]
fn out_of_range_datagrams_never_reach_the_engine() {
    let mut s = KcpSocket::new(KcpMode::Fast, Wire::default(), 0).unwrap();
    let bad = segment(0, 81, 0, 0, 0x8000_0000, 0, b"");
    assert_eq!(s.input(&bad, 5), Err(SessionError::OutOfRange));
    assert_eq!(s.input(&segment(0, 81, 255, 0, 0, 0, b"x"), 5), Err(SessionError::OutOfRange));
    assert_eq!(s.last_update(), 0);
    assert!(s.waiting_conv());
    let mut session = WkSession::connect(Wire::default(), 0).unwrap();
    assert_eq!(session.ingest(&bad, true, 5), IngressStep::Refused);
    let mut listener = WkListener::new();
    let mut pkt = bad.clone();
    assert_eq!(
        listener.on_datagram_with(&mut pkt, peer(1), 5, Wire::default(), 1),
        ListenerStep::Dropped
    );
    assert_eq!(listener.peer(), None);
}

#[test]
fn one_whole_segment_is_taken_and_restarts_the_idle_time() {
    let mut s = KcpSocket::new(KcpMode::Fast, Wire::default(), 0).unwrap();
    assert_eq!(s.input(&segment(9, 81, 0, 3, 0, 0, b"hello"), 40), Ok(()));
    assert_eq!(s.last_update(), 40);
    assert_eq!(s.conv(), 9);
    assert!(!s.waiting_conv());
    // a pure acknowledgement counts as well
    assert_eq!(s.input(&segment(9, 82, 0, 3, 0, 0, b""), 50), Ok(()));
    assert_eq!(s.last_update(), 50);
    // a foreign conversation id and an unknown kind do not
    assert_eq!(
        s.input(&segment(8, 81, 0, 3, 1, 0, b"x"), 60),
        Err(SessionError::Arq(ArqError::ConvInconsistent(9, 8)))
    );
    assert_eq!(
        s.input(&segment(9, 80, 0, 3, 1, 0, b"x"), 60),
        Err(SessionError::Arq(ArqError::UnsupportedCmd(80)))
    );
    assert_eq!(s.last_update(), 50);
    let mut buf = [0u8; 8];
    assert_eq!(s.recv(&mut buf), Ok(5));
    assert_eq!(&buf, b"hello\0\0\0");
    assert_eq!(s.recv(&mut buf), Ok(0));
    assert_eq!(&buf, b"hello\0\0\0");
}

#[test]
fn a_message_in_fragments_is_read_once_it_is_whole() {
    let mut s = KcpSocket::new(KcpMode::Fast, Wire::default(), 0).unwrap();
    assert_eq!(s.input(&segment(9, 81, 1, 3, 0, 0, b"he"), 1), Ok(()));
    let mut buf = [0u8; 8];
    assert_eq!(s.recv(&mut buf), Err(SessionError::Closed));
    assert_eq!(buf, [0u8; 8]);
    assert!(!s.closed());
    assert_eq!(s.input(&segment(9, 81, 0, 3, 1, 0, b"llo"), 2), Ok(()));
    assert_eq!(s.recv(&mut buf), Ok(5));
    assert_eq!(&buf[..5], b"hello");
    // a buffer that is too small for the message ends the reading
    assert_eq!(s.input(&segment(9, 81, 0, 3, 2, 0, b"0123456789"), 3), Ok(()));
    assert_eq!(s.recv(&mut buf), Err(SessionError::Closed));
}

#[test]
fn answers_of_the_engine_are_mapped() {
    assert_eq!(recv_outcome(Ok(7)), Ok(7));
    assert_eq!(recv_outcome(Err(ArqError::RecvQueueEmpty)), Ok(0));
    assert_eq!(recv_outcome(Err(ArqError::ExpectingFragment)), Err(SessionError::Closed));
    assert_eq!(recv_outcome(Err(ArqError::UserBufTooSmall)), Err(SessionError::Closed));
    assert_eq!(timer_step(Ok(7), false, false), UpdaterStep::Sleep(7));
    assert_eq!(timer_step(Ok(7), true, false), UpdaterStep::Exit);
    assert_eq!(timer_step(Ok(7), false, true), UpdaterStep::Exit);
    assert_eq!(
        timer_step(Err(SessionError::Arq(ArqError::IoError)), false, false),
        UpdaterStep::Sleep(UPDATE_RETRY)
    );
    assert_eq!(timer_step(Err(SessionError::Arq(ArqError::IoError)), true, false), UpdaterStep::Exit);
    assert_eq!(timer_step(Err(SessionError::Closed), false, false), UpdaterStep::Exit);
}

#[test]
fn sessions_start_at_any_tick_and_cross_the_wrap() {
    for start in [0xffff_ffffu32, 0xffff_fff0, 0x7fff_ffff, 0x7fff_fff8, 0x8000_0000] {
        let c2s = Wire::default();
        let s2c = Wire::default();
        let mut client = WkSession::connect(c2s.clone(), start).unwrap();
        let mut listener = WkListener::new();
        let mut buf = [0u8; 128];
        for i in 0..40u32 {
            let now = start.wrapping_add(i * 7);
            let msg = [i as u8; 9];
            assert_eq!(client.send(&msg, now), Ok(9));
            for mut pkt in c2s.take() {
                let step = listener.on_datagram_with(&mut pkt, peer(4000), now, s2c.clone(), 5);
                assert_ne!(step, ListenerStep::Dropped);
            }
            assert_eq!(listener.recv_timeout(&mut buf, now, 100, now), RecvPoll::Got(9));
            assert_eq!(&buf[..9], &msg);
            assert!(matches!(listener.run_timers(now), UpdaterStep::Sleep(_)));
            assert!(matches!(client.run_timers(now), UpdaterStep::Sleep(_)));
            for pkt in s2c.take() {
                assert_eq!(client.ingest(&pkt, true, now), IngressStep::Fed);
            }
        }
        assert!(!client.closed());
        assert!(listener.session_open());
    }
}

#[test]
fn a_socket_that_is_too_old_is_closed() {
    let mut s = KcpSocket::new(KcpMode::Fast, Wire::default(), 0xffff_0000).unwrap();
    let last = 0xffff_0000u32.wrapping_add(ENGINE_CLOCK_LIMIT - 1);
    assert!(s.update(last).is_ok());
    assert!(!s.closed());
    assert_eq!(s.update(last.wrapping_add(1)), Err(SessionError::Closed));
    assert!(s.closed());
    let mut s = KcpSocket::new(KcpMode::Fast, Wire::default(), 5).unwrap();
    assert_eq!(s.send(b"x", 4), Err(SessionError::Closed));
    let mut s = KcpSocket::new(KcpMode::Fast, Wire::default(), 5).unwrap();
    assert_eq!(s.input(&segment(9, 81, 0, 3, 0, 0, b"x"), 5 + ENGINE_CLOCK_LIMIT), Err(SessionError::Closed));
    assert!(s.closed());
}

#[test]
fn a_dead_link_closes_the_session() {
    let wire = Wire::default();
    let mut s = WkSession::connect(wire.clone(), 0).unwrap();
    // the peer never answers, but the idle time is kept fresh from outside
    let mut s_kcp = s;
    assert_eq!(s_kcp.send(b"lost", 0), Ok(4));
    let mut now = 0u32;
    let mut step = UpdaterStep::Sleep(0);
    while now < 25_000 {
        step = s_kcp.run_timers(now);
        if step == UpdaterStep::Exit {
            break;
        }
        now += 10;
    }
    assert_eq!(step, UpdaterStep::Exit);
    assert!(now < 25_000);
    assert!(s_kcp.closed());
    assert!(wire.take().len() >= 10);
    s = s_kcp;
    assert_eq!(s.send(b"x", now), Err(SessionError::Closed));
}

#[test]
fn a_closed_session_ends_a_wait_at_once() {
    let mut s = WkSession::connect(Wire::default(), 0).unwrap();
    let mut buf = [0u8; 16];
    assert_eq!(s.recv_timeout(&mut buf, 0, 1_000, 1), RecvPoll::Again);
    s.close();
    assert_eq!(s.recv_timeout(&mut buf, 0, 1_000, 2), RecvPoll::Closed);
    assert_eq!(s.recv_timeout(&mut buf, 0, 1_000, 5_000), RecvPoll::Closed);
}

#[test]
fn messages_up_to_the_packet_size_are_taken() {
    let mut s = WkSession::connect(Wire::default(), 0).unwrap();
    assert_eq!(s.send(&[1u8; 128], 1), Ok(128));
    assert_eq!(s.send(&[1u8; 1], 1), Ok(1));
    assert_eq!(s.send(&[0u8; 100_000], 1), Err(SessionError::Arq(ArqError::UserBufTooBig)));
    assert!(!s.closed());
}

#[test]
fn a_failed_admission_closes_the_session() {
    let wire = Wire::default();
    let mut s = WkSession::connect(wire.clone(), 0).unwrap();
    let go_on = AuthStep { send: Some(vec![1, 2, 3, 4]), outcome: None };
    assert_eq!(s.carry_out(&go_on, 1), None);
    assert_eq!(wire.take().len(), 1);
    assert!(!s.closed());
    let admitted = AuthStep { send: Some(vec![0, 0, 1, 0]), outcome: Some(Ok(256)) };
    assert_eq!(s.carry_out(&admitted, 2), Some(Ok(256)));
    assert!(!s.closed());
    let refused = AuthStep { send: Some(vec![0, 0, 0, 0]), outcome: Some(Err(AuthError::AuthFailed)) };
    assert_eq!(s.carry_out(&refused, 3), Some(Err(AuthError::AuthFailed)));
    assert_eq!(wire.take().len(), 2);
    assert!(s.closed());
    // on a closed session nothing can be sent, so the admission fails
    assert_eq!(s.carry_out(&go_on, 4), Some(Err(AuthError::AuthFailed)));
    let mut listener = WkListener::new();
    assert_eq!(listener.carry_out(&go_on, 1), Some(Err(AuthError::AuthFailed)));
}

#[test]
fn a_message_is_too_big_from_128_datagrams_on() {
    let mut s = KcpSocket::new(KcpMode::Fast, Wire::default(), 0).unwrap();
    let room = wifikey::session::MTU_SIZE - 24;
    assert_eq!(s.send(&vec![7u8; room], 1), Ok(room));
    assert_eq!(s.send(&vec![7u8; room + 1], 1), Ok(room + 1));
    assert_eq!(s.send(&vec![7u8; 127 * room], 1), Ok(127 * room));
    assert_eq!(
        s.send(&vec![7u8; 127 * room + 1], 1),
        Err(SessionError::Arq(ArqError::UserBufTooBig))
    );
    assert_eq!(s.send(&[], 1), Ok(0));
    let mut d = KcpSocket::new(KcpMode::Default, Wire::default(), 0).unwrap();
    assert_eq!(d.send(&vec![7u8; 127 * 1376], 1), Ok(127 * 1376));
    assert_eq!(
        d.send(&vec![7u8; 127 * 1376 + 1], 1),
        Err(SessionError::Arq(ArqError::UserBufTooBig))
    );
}

#[test]
fn a_read_that_gives_nothing_changes_nothing() {
    let mut s = WkSession::connect(Wire::default(), 9).unwrap();
    let mut buf = [0x5au8; 32];
    assert_eq!(s.recv(&mut buf), Ok(0));
    assert_eq!(buf, [0x5au8; 32]);
    assert!(!s.closed());
    assert_eq!(s.recv_timeout(&mut buf, 9, 50, 20), RecvPoll::Again);
    assert_eq!(buf, [0x5au8; 32]);
    assert_eq!(s.run_timers(30_009), UpdaterStep::Sleep(10));
}

#[test]
fn a_peer_with_a_clock_of_its_own_is_heard() {
    for ts in [0u32, 0x7fff_ffff, 0x8000_0000, 0xffff_fff0, 0xffff_ffff] {
        let wire = Wire::default();
        let mut s = KcpSocket::new(KcpMode::Fast, wire.clone(), 0x8000_0000).unwrap();
        assert_eq!(s.input(&segment(3, 81, 0, ts, 0, 0, b"cq"), 0x8000_0001), Ok(()));
        let mut buf = [0u8; 4];
        assert_eq!(s.recv(&mut buf), Ok(2));
        assert_eq!(&buf[..2], b"cq");
        // the acknowledgement hands the peer's tick back
        assert!(s.flush(0x8000_0020).is_ok());
        let out = wire.take();
        assert_eq!(out.len(), 1);
        assert_eq!(out[0][4], 82);
        assert_eq!(&out[0][8..12], &ts.to_le_bytes());
        // an acknowledgement with a tick that this socket never wrote
        assert_eq!(
            s.input(&segment(3, 82, 0, 0x8000_0000, 0, 0, b""), 0x8000_0030),
            Err(SessionError::OutOfRange)
        );
    }
}
