use wifikey::stats::RemoteStats;

#[test]
fn default_stats_are_empty() {
    let s = RemoteStats::default();
    assert_eq!(s.get_misc_stats(), (false, false, 0, 0, 0));
    assert_eq!(
        s.get_session_stats(),
        vec![
            ("peer_address".to_string(), String::new()),
            ("session_start".to_string(), String::new())
        ]
    );
}

#[test]
fn new_stats_know_the_peer() {
    let s = RemoteStats::new("10.0.0.7:4000".to_string());
    assert_eq!(s.peer_address.as_deref(), Some("10.0.0.7:4000"));
    assert_eq!(s.get_session_stats()[0].1, "10.0.0.7:4000");
    assert_eq!(s.get_session_stats()[1].1, "");
}

#[test]
fn setters_set_one_thing_each() {
    let mut s = RemoteStats::default();
    s.set_peer("a:1");
    s.set_session_start("2024-01-01 10:00:00");
    s.set_session_active(true);
    s.set_auth_ok(true);
    s.set_atu_start(true);
    s.set_stats(200, 20);
    s.set_rtt(35);
    assert_eq!(s.get_misc_stats(), (true, true, 200, 20, 35));
    assert_eq!(
        s,
        RemoteStats {
            peer_address: Some("a:1".to_string()),
            session_start: Some("2024-01-01 10:00:00".to_string()),
            session_active: true,
            auth_ok: true,
            atu_start: true,
            wpm: 200,
            pkt: 20,
            rtt_ms: 35,
        }
    );
    s.clear_peer();
    s.clear_session_start();
    assert_eq!(s.peer_address, None);
    assert_eq!(s.session_start, None);
    assert_eq!(s.get_misc_stats(), (true, true, 200, 20, 35));
}

#[test]
fn a_session_comes_and_goes() {
    let mut s = RemoteStats::default();
    s.set_rtt(12);
    s.session_accepted("peer:9", "now");
    assert_eq!(s.get_session_stats()[0].1, "peer:9");
    assert_eq!(s.get_session_stats()[1].1, "now");
    assert!(!s.auth_ok);
    s.auth_succeeded();
    assert!(s.auth_ok);
    s.set_session_active(true);
    s.set_stats(180, 19);
    s.session_ended();
    assert_eq!(s, RemoteStats { rtt_ms: 12, ..RemoteStats::default() });
}

#[test]
fn a_refused_peer_leaves_no_trace() {
    let mut s = RemoteStats::default();
    s.session_accepted("peer:9", "now");
    s.auth_failed();
    assert_eq!(s, RemoteStats::default());
}
