//! What the server shows of the session that it serves.

use vstd::prelude::*;
use vstd::string::*;

verus! {

/// The statistics of the server's one session.
#[derive(Clone, Debug, PartialEq, Eq)]
pub struct RemoteStats {
    /// The peer's address, while a session is held.
    pub peer_address: Option<String>,
    /// Wall-clock time at which the session began.
    pub session_start: Option<String>,
    pub session_active: bool,
    pub auth_ok: bool,
    pub atu_start: bool,
    /// Ten times the words per minute.
    pub wpm: usize,
    /// Frames per second.
    pub pkt: usize,
    /// Round-trip time in ms.
    pub rtt_ms: usize,
}

/// The text of an optional string, empty for none.
pub open spec fn text_or_empty(s: Option<String>) -> Seq<char> {
    match s {
        Some(t) => t@,
        None => Seq::empty(),
    }
}

impl Default for RemoteStats {
    fn default() -> (s: Self)
        ensures
            s.peer_address is None,
            s.session_start is None,
            !s.session_active,
            !s.auth_ok,
            !s.atu_start,
            s.wpm == 0,
            s.pkt == 0,
            s.rtt_ms == 0,
    {
        RemoteStats {
            peer_address: None,
            session_start: None,
            session_active: false,
            auth_ok: false,
            atu_start: false,
            wpm: 0,
            pkt: 0,
            rtt_ms: 0,
        }
    }
}

impl RemoteStats {
    /// Fresh statistics for a session with `peer`.
    pub fn new(peer: String) -> (s: Self)
        ensures
            s.peer_address == Some(peer),
            s.session_start is None,
            !s.session_active,
            !s.auth_ok,
            !s.atu_start,
            s.wpm == 0,
            s.pkt == 0,
            s.rtt_ms == 0,
    {
        RemoteStats {
            peer_address: Some(peer),
            session_start: None,
            session_active: false,
            auth_ok: false,
            atu_start: false,
            wpm: 0,
            pkt: 0,
            rtt_ms: 0,
        }
    }

    pub fn set_peer(&mut self, name: &str)
        ensures
            text_or_empty(final(self).peer_address) == name@,
            final(self).peer_address is Some,
            final(self).session_start == old(self).session_start,
            final(self).session_active == old(self).session_active,
            final(self).auth_ok == old(self).auth_ok,
            final(self).atu_start == old(self).atu_start,
            final(self).wpm == old(self).wpm,
            final(self).pkt == old(self).pkt,
            final(self).rtt_ms == old(self).rtt_ms,
    {
        self.peer_address = Some(String::from_str(name));
    }

    pub fn clear_peer(&mut self)
        ensures
            *final(self) == (RemoteStats { peer_address: None, ..*old(self) }),
    {
        self.peer_address = None;
    }

    pub fn set_session_start(&mut self, start: &str)
        ensures
            text_or_empty(final(self).session_start) == start@,
            final(self).session_start is Some,
            final(self).peer_address == old(self).peer_address,
            final(self).session_active == old(self).session_active,
            final(self).auth_ok == old(self).auth_ok,
            final(self).atu_start == old(self).atu_start,
            final(self).wpm == old(self).wpm,
            final(self).pkt == old(self).pkt,
            final(self).rtt_ms == old(self).rtt_ms,
    {
        self.session_start = Some(String::from_str(start));
    }

    pub fn clear_session_start(&mut self)
        ensures
            *final(self) == (RemoteStats { session_start: None, ..*old(self) }),
    {
        self.session_start = None;
    }

    pub fn set_session_active(&mut self, state: bool)
        ensures
            *final(self) == (RemoteStats { session_active: state, ..*old(self) }),
    {
        self.session_active = state;
    }

    pub fn set_auth_ok(&mut self, state: bool)
        ensures
            *final(self) == (RemoteStats { auth_ok: state, ..*old(self) }),
    {
        self.auth_ok = state;
    }

    pub fn set_atu_start(&mut self, state: bool)
        ensures
            *final(self) == (RemoteStats { atu_start: state, ..*old(self) }),
    {
        self.atu_start = state;
    }

    pub fn set_stats(&mut self, wpm: usize, pkt: usize)
        ensures
            *final(self) == (RemoteStats { wpm, pkt, ..*old(self) }),
    {
        self.wpm = wpm;
        self.pkt = pkt;
    }

    pub fn set_rtt(&mut self, rtt_ms: usize)
        ensures
            *final(self) == (RemoteStats { rtt_ms, ..*old(self) }),
    {
        self.rtt_ms = rtt_ms;
    }

    /// Admission, tuner activity, ten times the words per minute, frames per
    /// second and round-trip time.
    pub fn get_misc_stats(&self) -> (r: (bool, bool, usize, usize, usize))
        ensures
            r == (self.auth_ok, self.atu_start, self.wpm, self.pkt, self.rtt_ms),
    {
        (self.auth_ok, self.atu_start, self.wpm, self.pkt, self.rtt_ms)
    }

    /// The peer's address under the key `peer_address` and the start of the
    /// session under `session_start`, in this order; empty texts where they
    /// are not set.
    pub fn get_session_stats(&self) -> (stats: Vec<(String, String)>)
        ensures
            stats@.len() == 2,
            stats@[0].0@ == "peer_address"@,
            stats@[0].1@ == text_or_empty(self.peer_address),
            stats@[1].0@ == "session_start"@,
            stats@[1].1@ == text_or_empty(self.session_start),
    {
        let mut stats: Vec<(String, String)> = Vec::new();
        let peer = match &self.peer_address {
            Some(p) => p.clone(),
            None => String::new(),
        };
        stats.push((String::from_str("peer_address"), peer));
        let start = match &self.session_start {
            Some(s) => s.clone(),
            None => String::new(),
        };
        stats.push((String::from_str("session_start"), start));
        stats
    }

    /// A session from `peer` was accepted at wall-clock time `start`.
    pub fn session_accepted(&mut self, peer: &str, start: &str)
        ensures
            text_or_empty(final(self).peer_address) == peer@,
            text_or_empty(final(self).session_start) == start@,
            final(self).peer_address is Some,
            final(self).session_start is Some,
            final(self).session_active == old(self).session_active,
            final(self).auth_ok == old(self).auth_ok,
            final(self).atu_start == old(self).atu_start,
            final(self).wpm == old(self).wpm,
            final(self).pkt == old(self).pkt,
            final(self).rtt_ms == old(self).rtt_ms,
    {
        self.set_peer(peer);
        self.set_session_start(start);
    }

    /// The peer was admitted.
    pub fn auth_succeeded(&mut self)
        ensures
            *final(self) == (RemoteStats { auth_ok: true, ..*old(self) }),
    {
        self.set_auth_ok(true);
    }

    /// The peer was refused: nothing of it stays.
    pub fn auth_failed(&mut self)
        ensures
            *final(self) == (RemoteStats {
                auth_ok: false,
                peer_address: None,
                session_start: None,
                ..*old(self)
            }),
    {
        self.set_auth_ok(false);
        self.clear_peer();
        self.clear_session_start();
    }

    /// The session has ended: nothing of it stays but the round-trip time
    /// and the tuner flag.
    pub fn session_ended(&mut self)
        ensures
            *final(self) == (RemoteStats {
                auth_ok: false,
                peer_address: None,
                session_start: None,
                session_active: false,
                wpm: 0,
                pkt: 0,
                ..*old(self)
            }),
    {
        self.set_auth_ok(false);
        self.clear_peer();
        self.clear_session_start();
        self.set_session_active(false);
        self.set_stats(0, 0);
    }
}

} // verus!
