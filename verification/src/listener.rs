//! The accepting side of the datagram socket: at most one session at a time.
//!
//! Every datagram that the socket receives is shown to the listener with the
//! address it came from. The listener feeds it to the session it holds, opens
//! a new session for it, or drops it. While a session is open, datagrams from
//! any other address are dropped.

use crate::auth::{fresh_token, random_u32, token_spec, AuthError, AuthStep};
use crate::session::{
    carry_out_spec, conv_of, datagram_conv, engine_next, engine_recv, idle_too_long, input_answer,
    le32, mode_tuning, poll_spec, recv_spec, screened, send_spec, set_datagram_conv,
    single_segment, KcpMode, RecvPoll, SessionError, SessionState, UpdaterStep, WkSession,
    ARQ_OVERHEAD, SESSION_TIMEOUT, UPDATE_RETRY,
};
use std::io::Write;
use vstd::prelude::*;

verus! {

/// An address and a port. An IPv4 address stands in the low 32 bits.
#[derive(Clone, Copy, Debug, PartialEq, Eq, Structural)]
pub struct Endpoint {
    pub addr: u128,
    pub port: u16,
    pub v6: bool,
}

/// What became of a datagram.
#[derive(Clone, Copy, Debug, PartialEq, Eq, Structural)]
pub enum ListenerStep {
    /// It was dropped.
    Dropped,
    /// The session that the listener holds took it.
    Fed,
    /// A new session was opened for its sender and took it.
    Accepted,
}

/// A listener, as the contracts see it.
pub struct ListenerState {
    /// The one session that the listener holds, if any.
    pub session: Option<SessionState>,
    /// The peer of that session.
    pub peer: Endpoint,
}

/// Whether the listener holds a session that is not closed.
pub open spec fn has_open_session(s: ListenerState) -> bool {
    s.session matches Some(x) && !x.socket.closed
}

/// A datagram as it reaches the engine: one that asks for a conversation id,
/// with 0 in its place, is given the id that the random draw `rnd` sets,
/// which is never 0.
pub open spec fn stamped(datagram: Seq<u8>, rnd: u32) -> Seq<u8> {
    if datagram.len() >= ARQ_OVERHEAD && conv_of(datagram) == 0 {
        le32(token_spec(rnd)) + datagram.skip(4)
    } else {
        datagram
    }
}

/// What becomes of a datagram, for each answer of the sessions: behind an
/// open session of another peer it is dropped; the open session of the same
/// peer is fed where it takes the datagram; else a new session is accepted
/// where that takes the datagram; and else the datagram is dropped.
pub open spec fn route_spec(
    open: bool,
    same_peer: bool,
    held_took: bool,
    fresh_took: bool,
) -> ListenerStep {
    if open && !same_peer {
        ListenerStep::Dropped
    } else if open && held_took {
        ListenerStep::Fed
    } else if fresh_took {
        ListenerStep::Accepted
    } else {
        ListenerStep::Dropped
    }
}

/// What becomes of a datagram, for each answer of the sessions.
pub fn route(open: bool, same_peer: bool, held_took: bool, fresh_took: bool) -> (step: ListenerStep)
    ensures
        step == route_spec(open, same_peer, held_took, fresh_took),
{
    if open && !same_peer {
        ListenerStep::Dropped
    } else if open && held_took {
        ListenerStep::Fed
    } else if fresh_took {
        ListenerStep::Accepted
    } else {
        ListenerStep::Dropped
    }
}

/// Whether the session that the listener holds takes a datagram at `now`.
pub open spec fn held_takes(before: ListenerState, datagram: Seq<u8>, now: u32) -> bool {
    has_open_session(before) && before.session->0.socket.takes(datagram, now)
}

/// Whether a session that is new at this moment takes a datagram: the
/// datagram is in range, and an engine that waits for its conversation id
/// accepts it.
pub open spec fn fresh_takes(datagram: Seq<u8>) -> bool {
    screened(datagram) && input_answer(0, true, datagram) is Ok
}

/// What the listener does with a datagram from `src` at `now`, as it reaches
/// the engine. A datagram shorter than a header is dropped.
pub open spec fn on_datagram_spec(
    before: ListenerState,
    datagram: Seq<u8>,
    src: Endpoint,
    now: u32,
) -> ListenerStep {
    if datagram.len() < ARQ_OVERHEAD {
        ListenerStep::Dropped
    } else {
        route_spec(
            has_open_session(before),
            src == before.peer,
            held_takes(before, datagram, now),
            fresh_takes(datagram),
        )
    }
}

/// Whether a datagram leaves the listener as it was: it is shorter than a
/// header, or it comes from a stranger while a session is open.
pub open spec fn passes_by(before: ListenerState, datagram: Seq<u8>, src: Endpoint) -> bool {
    datagram.len() < ARQ_OVERHEAD || (has_open_session(before) && src != before.peer)
}

/// Whether a listener holds, after a datagram, the open session that it held
/// before, as old and tuned as it was, with its idle time begun anew at
/// `now`.
pub open spec fn fed_session(before: ListenerState, after: ListenerState, now: u32) -> bool {
    &&& has_open_session(after)
    &&& after.peer == before.peer
    &&& after.session->0.expire == before.session->0.expire
    &&& after.session->0.socket.base == before.session->0.socket.base
    &&& after.session->0.socket.calls == before.session->0.socket.calls + 1
    &&& after.session->0.socket.tuning() == before.session->0.socket.tuning()
    &&& after.session->0.socket.last_update == now
}

/// Whether a listener holds an open session with `src` that is new at `now`,
/// tuned for speed, and idles out after `SESSION_TIMEOUT`.
pub open spec fn accepted_session(after: ListenerState, src: Endpoint, now: u32) -> bool {
    &&& has_open_session(after)
    &&& after.peer == src
    &&& after.session->0.expire == SESSION_TIMEOUT
    &&& after.session->0.socket.base == now
    &&& after.session->0.socket.calls == 1
    &&& after.session->0.socket.tuning() == mode_tuning(KcpMode::Fast)
    &&& after.session->0.socket.last_update == now
}

/// Whether a listener still holds its session, if it held one, for the same
/// peer, and that session is as old, has idled as long and is tuned as it
/// was, and has called its engine once more at most.
pub open spec fn keeps_session(before: ListenerState, after: ListenerState) -> bool {
    &&& after.peer == before.peer
    &&& after.session is Some == before.session is Some
    &&& before.session matches Some(x) ==> {
        &&& after.session->0.expire == x.expire
        &&& after.session->0.socket.base == x.socket.base
        &&& x.socket.calls <= after.session->0.socket.calls <= x.socket.calls + 1
        &&& after.session->0.socket.last_update == x.socket.last_update
        &&& after.session->0.socket.tuning() == x.socket.tuning()
    }
}

/// Whether the timers end a session at `now`: it is worn out, it has idled
/// for too long, or its link is dead after the timers have run.
pub open spec fn ends_session(before: SessionState, after: SessionState, now: u32) -> bool {
    before.socket.worn_out(now) || idle_too_long(before, now) || after.socket.dead()
}

/// The period of the timers of the session that a listener holds, in ms.
pub open spec fn timer_period(s: ListenerState) -> u32 {
    s.session->0.socket.tuning().interval
}

/// Holds the one session of a datagram socket.
pub struct WkListener {
    current: Option<WkSession>,
    peer: Endpoint,
}

impl View for WkListener {
    type V = ListenerState;

    closed spec fn view(&self) -> ListenerState {
        ListenerState {
            session: match self.current {
                Some(s) => Some(s@),
                None => None,
            },
            peer: self.peer,
        }
    }
}

impl WkListener {
    /// A listener without a session.
    pub fn new() -> (l: Self)
        ensures
            l@.session is None,
    {
        WkListener { current: None, peer: Endpoint { addr: 0, port: 0, v6: false } }
    }

    /// The peer of the session that the listener holds.
    pub fn peer(&self) -> (p: Option<Endpoint>)
        ensures
            p == if self@.session is Some {
                Some(self@.peer)
            } else {
                None
            },
    {
        match &self.current {
            Some(_) => Some(self.peer),
            None => None,
        }
    }

    /// Whether the listener holds a session that is not closed.
    pub fn session_open(&self) -> (b: bool)
        ensures
            b == has_open_session(self@),
    {
        match &self.current {
            Some(s) => !s.closed(),
            None => false,
        }
    }

    /// Takes one datagram from `src`. `output` is where a new session would
    /// write to reach `src`, and `rnd` a fresh random number for its
    /// conversation id.
    ///
    /// The datagram is stamped first. Then it is dropped, fed or accepted as
    /// `on_datagram_spec` says of the stamped datagram. A datagram that
    /// passes by changes nothing. A fed session stays with its peer and
    /// starts its idle time anew. An accepted session is new at `now`, tuned
    /// for speed, and belongs to `src`; the session that was held before, if
    /// any, was closed first and is gone. A datagram that is dropped
    /// otherwise leaves no session.
    pub fn on_datagram_with<O: Write + Send + 'static>(
        &mut self,
        pkt: &mut Vec<u8>,
        src: Endpoint,
        now: u32,
        output: O,
        rnd: u32,
    ) -> (step: ListenerStep)
        ensures
            final(pkt)@ == stamped(old(pkt)@, rnd),
            step == on_datagram_spec(old(self)@, stamped(old(pkt)@, rnd), src, now),
            passes_by(old(self)@, old(pkt)@, src) ==> final(self)@ == old(self)@,
            step == ListenerStep::Fed ==> fed_session(old(self)@, final(self)@, now),
            step == ListenerStep::Accepted ==> accepted_session(final(self)@, src, now),
            step == ListenerStep::Dropped && !passes_by(old(self)@, old(pkt)@, src)
                ==> final(self)@.session is None,
            !has_open_session(old(self)@) && screened(stamped(old(pkt)@, rnd)) && single_segment(
                0,
                true,
                stamped(old(pkt)@, rnd),
            ) ==> step == ListenerStep::Accepted,
    {
        if pkt.len() < ARQ_OVERHEAD {
            return ListenerStep::Dropped;
        }
        let conv = datagram_conv(pkt.as_slice());
        if conv == 0 {
            set_datagram_conv(pkt, fresh_token(rnd));
        }
        let held = self.current.take();
        let mut open = false;
        let mut held_took = false;
        match held {
            Some(mut session) => {
                if !session.closed() {
                    open = true;
                    if src != self.peer {
                        self.current = Some(session);
                        return route(true, false, false, false);
                    }
                    match session.input(pkt.as_slice(), now) {
                        Ok(()) => {
                            held_took = true;
                            self.current = Some(session);
                        },
                        Err(_) => {
                            session.close();
                        },
                    }
                }
            },
            None => {},
        }
        if held_took {
            return route(true, true, true, false);
        }
        let mut fresh_took = false;
        match WkSession::new(output, KcpMode::Fast, SESSION_TIMEOUT, now) {
            Ok(mut fresh) => {
                match fresh.input(pkt.as_slice(), now) {
                    Ok(()) => {
                        fresh_took = true;
                        self.current = Some(fresh);
                        self.peer = src;
                    },
                    Err(_) => {},
                }
            },
            Err(_) => {},
        }
        route(open, true, false, fresh_took)
    }

    /// Takes one datagram from `src`, with a random number drawn here.
    pub fn on_datagram<O: Write + Send + 'static>(
        &mut self,
        pkt: &mut Vec<u8>,
        src: Endpoint,
        now: u32,
        output: O,
    ) -> (step: ListenerStep)
        ensures
            exists|rnd: u32|
                final(pkt)@ == #[trigger] stamped(old(pkt)@, rnd) && step == on_datagram_spec(
                    old(self)@,
                    stamped(old(pkt)@, rnd),
                    src,
                    now,
                ),
            passes_by(old(self)@, old(pkt)@, src) ==> final(self)@ == old(self)@,
            step == ListenerStep::Fed ==> has_open_session(final(self)@) && final(self)@.peer
                == old(self)@.peer,
            step == ListenerStep::Accepted ==> has_open_session(final(self)@) && final(self)@.peer
                == src,
            step == ListenerStep::Dropped && !passes_by(old(self)@, old(pkt)@, src)
                ==> final(self)@.session is None,
    {
        let rnd = random_u32();
        self.on_datagram_with(pkt, src, now, output, rnd)
    }

    /// Queues a message for the peer of the session that the listener holds.
    /// The answer is `Closed` where the listener holds no open session, and
    /// else what the session answers; a session that is worn out or whose
    /// link is dead is closed.
    pub fn send(&mut self, buf: &[u8], now: u32) -> (r: Result<usize, SessionError>)
        ensures
            r == if has_open_session(old(self)@) {
                send_spec(old(self)@.session->0.socket, buf@.len(), now)
            } else {
                Err(SessionError::Closed)
            },
            has_open_session(final(self)@) <==> has_open_session(old(self)@)
                && !old(self)@.session->0.socket.worn_out(now)
                && !old(self)@.session->0.socket.dead(),
            keeps_session(old(self)@, final(self)@),
    {
        let held = self.current.take();
        match held {
            Some(mut session) => {
                let r = session.send(buf, now);
                self.current = Some(session);
                r
            },
            None => Err(SessionError::Closed),
        }
    }

    /// Copies the oldest complete message of the session to the front of
    /// `buf`; 0 where nothing is queued. The answer is `Closed` where the
    /// listener holds no open session, and else what a read of the session
    /// gives.
    pub fn recv(&mut self, buf: &mut [u8]) -> (r: Result<usize, SessionError>)
        ensures
            final(buf)@.len() == old(buf)@.len(),
            r == if has_open_session(old(self)@) {
                recv_spec(old(self)@.session->0.socket, old(buf)@.len())
            } else {
                Err(SessionError::Closed)
            },
            has_open_session(final(self)@) == has_open_session(old(self)@),
            keeps_session(old(self)@, final(self)@),
            !(has_open_session(old(self)@) && engine_recv(
                old(self)@.session->0.socket.engine,
                old(buf)@.len(),
            ) is Ok) ==> final(self)@ == old(self)@ && final(buf)@ == old(buf)@,
            has_open_session(old(self)@) && engine_recv(
                old(self)@.session->0.socket.engine,
                old(buf)@.len(),
            ) is Ok ==> r is Ok && r->Ok_0 <= old(buf)@.len() && final(buf)@ == engine_next(
                old(self)@.session->0.socket.engine,
            ) + old(buf)@.skip(r->Ok_0 as int),
    {
        let held = self.current.take();
        match held {
            Some(mut session) => {
                let r = session.recv(buf);
                self.current = Some(session);
                r
            },
            None => Err(SessionError::Closed),
        }
    }

    /// One poll of a wait for a message that began at `started` and may last
    /// `timeout` ms. Without an open session the wait ends at once as
    /// `Closed`; else the poll gives what a poll of the session gives.
    pub fn recv_timeout(&mut self, buf: &mut [u8], started: u32, timeout: u32, now: u32) -> (r:
        RecvPoll)
        ensures
            final(buf)@.len() == old(buf)@.len(),
            r == if has_open_session(old(self)@) {
                poll_spec(old(self)@.session->0, old(buf)@.len(), started, timeout, now)
            } else {
                RecvPoll::Closed
            },
            has_open_session(final(self)@) == has_open_session(old(self)@),
            keeps_session(old(self)@, final(self)@),
            !has_open_session(old(self)@) ==> final(self)@ == old(self)@,
            r matches RecvPoll::Got(n) ==> 0 < n <= old(buf)@.len() && final(buf)@ == engine_next(
                old(self)@.session->0.socket.engine,
            ) + old(buf)@.skip(n as int),
            !(r is Got) ==> final(buf)@ == old(buf)@,
    {
        let held = self.current.take();
        match held {
            Some(mut session) => {
                let r = session.recv_timeout(buf, started, timeout, now);
                self.current = Some(session);
                r
            },
            None => RecvPoll::Closed,
        }
    }

    /// The timer task's turn for the session that the listener holds. An
    /// open session is closed exactly where it has idled for too long, is
    /// worn out, or its link is dead.
    pub fn run_timers(&mut self, now: u32) -> (step: UpdaterStep)
        ensures
            !has_open_session(old(self)@) ==> step == UpdaterStep::Exit,
            !has_open_session(old(self)@) ==> final(self)@ == old(self)@,
            step == UpdaterStep::Exit <==> !has_open_session(final(self)@),
            has_open_session(old(self)@) ==> (!has_open_session(final(self)@) <==> ends_session(
                old(self)@.session->0,
                final(self)@.session->0,
                now,
            )),
            step matches UpdaterStep::Sleep(due) ==> due == UPDATE_RETRY || due <= timer_period(
                old(self)@,
            ),
            keeps_session(old(self)@, final(self)@),
    {
        let held = self.current.take();
        match held {
            Some(mut session) => {
                let step = session.run_timers(now);
                self.current = Some(session);
                step
            },
            None => UpdaterStep::Exit,
        }
    }

    /// Carries out a step of the admission on the session that the listener
    /// holds, and closes that session where the admission failed. Without a
    /// session the admission fails.
    pub fn carry_out(&mut self, step: &AuthStep, now: u32) -> (outcome: Option<
        Result<u32, AuthError>,
    >)
        ensures
            outcome == match old(self)@.session {
                Some(x) => carry_out_spec(x.socket, *step, now),
                None => Some(Err(AuthError::AuthFailed)),
            },
            has_open_session(final(self)@) <==> has_open_session(old(self)@) && !(outcome matches
                Some(Err(_))),
            keeps_session(old(self)@, final(self)@),
    {
        let held = self.current.take();
        match held {
            Some(mut session) => {
                let outcome = session.carry_out(step, now);
                self.current = Some(session);
                outcome
            },
            None => Some(Err(AuthError::AuthFailed)),
        }
    }

    /// Closes the session that the listener holds, if any. The next datagram
    /// from any address may open a new one.
    pub fn close_session(&mut self)
        ensures
            !has_open_session(final(self)@),
            keeps_session(old(self)@, final(self)@),
    {
        let held = self.current.take();
        match held {
            Some(mut session) => {
                session.close();
                self.current = Some(session);
            },
            None => {},
        }
    }
}

/// A listener never holds more than one session, and it opens none while it
/// holds an open session with another peer: such a datagram is dropped.
pub proof fn lemma_one_session_at_a_time(
    before: ListenerState,
    datagram: Seq<u8>,
    src: Endpoint,
    now: u32,
)
    requires
        has_open_session(before),
        src != before.peer,
    ensures
        on_datagram_spec(before, datagram, src, now) == ListenerStep::Dropped,
        passes_by(before, datagram, src),
{
}

/// Where a session is accepted, the listener held no open session when the
/// datagram arrived, or it held one with the same peer, which did not take
/// the datagram and was closed before the new one was opened.
pub proof fn lemma_accept_replaces(
    before: ListenerState,
    datagram: Seq<u8>,
    src: Endpoint,
    now: u32,
)
    requires
        on_datagram_spec(before, datagram, src, now) == ListenerStep::Accepted,
    ensures
        !has_open_session(before) || (src == before.peer && !held_takes(before, datagram, now)),
        fresh_takes(datagram),
        datagram.len() >= ARQ_OVERHEAD,
{
}

/// The conversation id that the engine sees is never 0.
pub proof fn lemma_stamped_conv_is_set(datagram: Seq<u8>, rnd: u32)
    requires
        datagram.len() >= ARQ_OVERHEAD,
    ensures
        conv_of(stamped(datagram, rnd)) != 0,
        stamped(datagram, rnd).len() == datagram.len(),
        stamped(datagram, rnd).skip(4) == datagram.skip(4),
{
    let t = token_spec(rnd);
    if conv_of(datagram) == 0 {
        let s = stamped(datagram, rnd);
        assert(s[0] == le32(t)[0] && s[1] == le32(t)[1] && s[2] == le32(t)[2] && s[3] == le32(
            t,
        )[3]);
        assert(conv_of(s) == t);
        assert(s.skip(4) =~= datagram.skip(4));
    }
}

} // verus!
