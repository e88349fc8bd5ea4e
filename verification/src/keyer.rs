//! The receiving side: replays the sender's keying edges on the local key
//! output, at the pace of the sender's clock.
//!
//! The keyer never sleeps and never touches a pin. Its caller feeds it the
//! messages of each frame, asks it with the current tick what to do next, and
//! does it: drive the pin, publish statistics, or sleep a millisecond.

use crate::frame::MessageRCV;
use crate::tick::{elapsed, elapsed_spec};
use vstd::prelude::*;

verus! {

/// Longest time the key may stay pressed without a release, in ms.
pub const MAX_ASSERT_DURATION: u32 = 10_000;

/// A clock reading moves the epochs only if it is more than this many ms
/// ahead of the remote epoch.
pub const SYNC_INTERVAL: u32 = 3_000;

/// Longest time between two runs of the watchdog, in ms.
pub const WATCHDOG_PERIOD: u32 = 1_000;

/// Length of one dot at one word per minute, in ms.
pub const MSPERWPM: u32 = 1200;

/// What the caller has to do after a step of the keyer.
#[derive(Clone, Copy, Debug, PartialEq, Eq, Structural)]
pub enum KeyerStep {
    /// Nothing is queued: feed the next frame.
    Empty,
    /// A message was consumed that asks nothing of the caller: step again.
    Continue,
    /// The next edge is not due yet: sleep a millisecond and step again.
    Wait,
    /// Press the key now.
    KeyDown,
    /// Release the key now.
    KeyUp,
    /// A clock reading moved the epochs: publish these statistics.
    Stats { wpm_x10: u32, pkt_rate: u32 },
    /// Hand the tuner command to the radio control, if there is one.
    StartAtu,
    /// The session is over: release the key and stop.
    Closed,
}

/// The state of a keyer, as the contracts see it.
pub struct KeyerState {
    /// The sender's tick at the last clock alignment; 0 before the first.
    pub rmt_epoch: u32,
    /// The local tick at the last clock alignment.
    pub epoch: u32,
    /// The local tick at which the key was pressed; 0 while it is released.
    pub asserted: u32,
    /// Whether the key output is pressed.
    pub key_down: bool,
    /// Frames fed since the last clock alignment.
    pub pkt: u32,
    /// Longest press since the last clock alignment, in ms.
    pub duration_max: u32,
    /// Messages fed and not yet consumed, oldest first.
    pub pending: Seq<MessageRCV>,
    /// Whether the keyer has stopped for good.
    pub stopped: bool,
}

/// Ten times the words per minute at which the longest press is one dash:
/// 36 000 / `duration_max`, rounded to the nearest integer, and 0 for 0.
pub open spec fn wpm_x10_spec(duration_max: u32) -> u32 {
    if duration_max == 0 {
        0
    } else {
        ((72_000 + duration_max) / (2 * duration_max)) as u32
    }
}

/// Frames per second over the three seconds between two clock alignments.
pub open spec fn pkt_rate_spec(pkt: u32) -> u32 {
    pkt / 3
}

/// Whether the watchdog must release a key that was pressed at `asserted`.
pub open spec fn watchdog_expired(asserted: u32, now: u32) -> bool {
    asserted != 0 && elapsed_spec(now, asserted) > MAX_ASSERT_DURATION
}

/// Whether an edge stamped `tm` by the sender is due at local tick `now`.
pub open spec fn edge_due(rmt_epoch: u32, epoch: u32, tm: u32, now: u32) -> bool {
    elapsed_spec(now, epoch) >= elapsed_spec(tm, rmt_epoch)
}

/// The local tick that stands for the sender's tick `tm`.
pub open spec fn due_tick(rmt_epoch: u32, epoch: u32, tm: u32) -> u32 {
    let d = elapsed_spec(tm, rmt_epoch);
    if epoch + d < 0x1_0000_0000 {
        (epoch + d) as u32
    } else {
        (epoch + d - 0x1_0000_0000) as u32
    }
}

/// The state after the oldest pending message was dropped.
pub open spec fn consumed(s: KeyerState) -> KeyerState {
    KeyerState { pending: s.pending.drop_first(), ..s }
}

/// The state in which the epochs stand when an edge stamped `tm` is looked at:
/// the first edge before any clock alignment sets both.
pub open spec fn with_epochs(s: KeyerState, tm: u32, now: u32) -> KeyerState {
    if s.rmt_epoch == 0 {
        KeyerState { rmt_epoch: tm, epoch: now, ..s }
    } else {
        s
    }
}

/// One step of the keyer at local tick `now`: the next state and what the
/// caller has to do. Only the oldest pending message is looked at.
pub open spec fn step_spec(s: KeyerState, now: u32) -> (KeyerState, KeyerStep) {
    if s.stopped {
        (KeyerState { key_down: false, asserted: 0, ..s }, KeyerStep::Closed)
    } else if s.pending.len() == 0 {
        (s, KeyerStep::Empty)
    } else {
        match s.pending[0] {
            MessageRCV::Sync(rmt) => {
                if elapsed_spec(rmt, s.rmt_epoch) > SYNC_INTERVAL {
                    (
                        KeyerState {
                            rmt_epoch: rmt,
                            epoch: now,
                            duration_max: 0,
                            pkt: 0,
                            ..consumed(s)
                        },
                        KeyerStep::Stats {
                            wpm_x10: wpm_x10_spec(s.duration_max),
                            pkt_rate: pkt_rate_spec(s.pkt),
                        },
                    )
                } else {
                    (consumed(s), KeyerStep::Continue)
                }
            },
            MessageRCV::StartATU => (consumed(s), KeyerStep::StartAtu),
            MessageRCV::SessionClosed => (
                KeyerState {
                    key_down: false,
                    asserted: 0,
                    stopped: true,
                    pending: Seq::empty(),
                    ..s
                },
                KeyerStep::Closed,
            ),
            MessageRCV::Keydown(tm) => {
                let e = with_epochs(s, tm, now);
                if edge_due(e.rmt_epoch, e.epoch, tm, now) {
                    (KeyerState { key_down: true, asserted: now, ..consumed(e) }, KeyerStep::KeyDown)
                } else {
                    (e, KeyerStep::Wait)
                }
            },
            MessageRCV::Keyup(tm) => {
                let e = with_epochs(s, tm, now);
                if edge_due(e.rmt_epoch, e.epoch, tm, now) {
                    let held = elapsed_spec(now, e.asserted);
                    (
                        KeyerState {
                            key_down: false,
                            asserted: 0,
                            duration_max: if held > e.duration_max {
                                held
                            } else {
                                e.duration_max
                            },
                            ..consumed(e)
                        },
                        KeyerStep::KeyUp,
                    )
                } else {
                    (e, KeyerStep::Wait)
                }
            },
        }
    }
}

/// The state after the watchdog ran at local tick `now`.
pub open spec fn watchdog_spec(s: KeyerState, now: u32) -> KeyerState {
    if watchdog_expired(s.asserted, now) {
        KeyerState { key_down: false, asserted: 0, ..s }
    } else {
        s
    }
}

/// Ten times the words per minute for a longest press of `duration_max` ms.
pub fn wpm_x10(duration_max: u32) -> (w: u32)
    ensures
        w == wpm_x10_spec(duration_max),
        w <= 36_000,
{
    if duration_max == 0 {
        0
    } else {
        let d: u64 = duration_max as u64;
        let q: u64 = (72_000 + d) / (2 * d);
        assert(q <= 36_000) by (nonlinear_arith)
            requires
                d >= 1,
                q == (72_000 + d) / (2 * d),
        ;
        q as u32
    }
}

/// Replays keying edges at the pace of the sender's clock.
pub struct RemoteKeyer {
    rmt_epoch: u32,
    epoch: u32,
    asserted: u32,
    key_down: bool,
    pkt: u32,
    duration_max: u32,
    queue: Vec<MessageRCV>,
    stopped: bool,
}

impl View for RemoteKeyer {
    type V = KeyerState;

    closed spec fn view(&self) -> KeyerState {
        KeyerState {
            rmt_epoch: self.rmt_epoch,
            epoch: self.epoch,
            asserted: self.asserted,
            key_down: self.key_down,
            pkt: self.pkt,
            duration_max: self.duration_max,
            pending: self.queue@,
            stopped: self.stopped,
        }
    }
}

impl RemoteKeyer {
    /// A keyer with the key released, no epochs and nothing pending.
    pub fn new() -> (k: Self)
        ensures
            k@ == (KeyerState {
                rmt_epoch: 0,
                epoch: 0,
                asserted: 0,
                key_down: false,
                pkt: 0,
                duration_max: 1,
                pending: Seq::empty(),
                stopped: false,
            }),
    {
        RemoteKeyer {
            rmt_epoch: 0,
            epoch: 0,
            asserted: 0,
            key_down: false,
            pkt: 0,
            duration_max: 1,
            queue: Vec::new(),
            stopped: false,
        }
    }

    /// Whether the keyer has stopped for good.
    pub fn stopped(&self) -> (b: bool)
        ensures
            b == self@.stopped,
    {
        self.stopped
    }

    /// Whether the key output is pressed.
    pub fn key_down(&self) -> (b: bool)
        ensures
            b == self@.key_down,
    {
        self.key_down
    }

    /// How many messages wait for their turn.
    pub fn pending(&self) -> (n: usize)
        ensures
            n == self@.pending.len(),
    {
        self.queue.len()
    }

    /// Queues the messages of one frame behind those that wait, and counts the
    /// frame. A stopped keyer takes nothing.
    pub fn feed(&mut self, msgs: &[MessageRCV])
        ensures
            old(self)@.stopped ==> final(self)@ == old(self)@,
            !old(self)@.stopped ==> final(self)@ == (KeyerState {
                pending: old(self)@.pending + msgs@,
                pkt: if old(self)@.pkt == u32::MAX {
                    u32::MAX
                } else {
                    (old(self)@.pkt + 1) as u32
                },
                ..old(self)@
            }),
    {
        if self.stopped {
            return ;
        }
        let n: usize = msgs.len();
        let mut i: usize = 0;
        while i < n
            invariant
                n == msgs@.len(),
                i <= n,
                self.queue@ == old(self).queue@ + msgs@.subrange(0, i as int),
                self.rmt_epoch == old(self).rmt_epoch,
                self.epoch == old(self).epoch,
                self.asserted == old(self).asserted,
                self.key_down == old(self).key_down,
                self.pkt == old(self).pkt,
                self.duration_max == old(self).duration_max,
                self.stopped == old(self).stopped,
            decreases n - i,
        {
            self.queue.push(msgs[i]);
            assert(msgs@.subrange(0, i + 1) =~= msgs@.subrange(0, i as int).push(msgs@[i as int]));
            i += 1;
        }
        assert(msgs@.subrange(0, n as int) =~= msgs@);
        self.pkt = self.pkt.saturating_add(1);
    }

    /// One step at local tick `now`: looks at the oldest pending message only,
    /// so edges leave in the order in which they were fed.
    pub fn step(&mut self, now: u32) -> (r: KeyerStep)
        ensures
            (final(self)@, r) == step_spec(old(self)@, now),
            r == KeyerStep::Closed ==> !final(self)@.key_down && final(self)@.stopped,
    {
        if self.stopped {
            self.key_down = false;
            self.asserted = 0;
            return KeyerStep::Closed;
        }
        if self.queue.len() == 0 {
            return KeyerStep::Empty;
        }
        let m = self.queue[0];
        match m {
            MessageRCV::Sync(rmt) => {
                let _ = self.queue.remove(0);
                if elapsed(rmt, self.rmt_epoch) > SYNC_INTERVAL {
                    let wpm = wpm_x10(self.duration_max);
                    let rate = self.pkt / 3;
                    self.rmt_epoch = rmt;
                    self.epoch = now;
                    self.duration_max = 0;
                    self.pkt = 0;
                    KeyerStep::Stats { wpm_x10: wpm, pkt_rate: rate }
                } else {
                    KeyerStep::Continue
                }
            },
            MessageRCV::StartATU => {
                let _ = self.queue.remove(0);
                KeyerStep::StartAtu
            },
            MessageRCV::SessionClosed => {
                self.key_down = false;
                self.asserted = 0;
                self.stopped = true;
                self.queue.clear();
                KeyerStep::Closed
            },
            MessageRCV::Keydown(tm) => {
                if self.rmt_epoch == 0 {
                    self.rmt_epoch = tm;
                    self.epoch = now;
                }
                if elapsed(now, self.epoch) >= elapsed(tm, self.rmt_epoch) {
                    let _ = self.queue.remove(0);
                    self.key_down = true;
                    self.asserted = now;
                    KeyerStep::KeyDown
                } else {
                    KeyerStep::Wait
                }
            },
            MessageRCV::Keyup(tm) => {
                if self.rmt_epoch == 0 {
                    self.rmt_epoch = tm;
                    self.epoch = now;
                }
                if elapsed(now, self.epoch) >= elapsed(tm, self.rmt_epoch) {
                    let held = elapsed(now, self.asserted);
                    let _ = self.queue.remove(0);
                    self.key_down = false;
                    self.asserted = 0;
                    if held > self.duration_max {
                        self.duration_max = held;
                    }
                    KeyerStep::KeyUp
                } else {
                    KeyerStep::Wait
                }
            },
        }
    }

    /// The watchdog, to be run at least every `WATCHDOG_PERIOD` ms: tells
    /// whether the key has been pressed for too long and must be released now.
    pub fn watchdog(&mut self, now: u32) -> (release: bool)
        ensures
            release == watchdog_expired(old(self)@.asserted, now),
            final(self)@ == watchdog_spec(old(self)@, now),
            release ==> !final(self)@.key_down,
    {
        if self.asserted != 0 && elapsed(now, self.asserted) > MAX_ASSERT_DURATION {
            self.asserted = 0;
            self.key_down = false;
            true
        } else {
            false
        }
    }

    /// Stops the keyer for good and releases the key, whatever is pending.
    /// The caller drives the output low.
    pub fn stop(&mut self)
        ensures
            final(self)@ == (KeyerState {
                key_down: false,
                asserted: 0,
                stopped: true,
                pending: Seq::empty(),
                ..old(self)@
            }),
    {
        self.key_down = false;
        self.asserted = 0;
        self.stopped = true;
        self.queue.clear();
    }
}

/// While the watchdog runs at least every `WATCHDOG_PERIOD` ms, the key is
/// never pressed for longer than `MAX_ASSERT_DURATION + WATCHDOG_PERIOD`.
///
/// `pressed` is the tick of the press, `poll` the last run of the watchdog
/// that left the key pressed (or the press itself, before the first run), and
/// `t` any tick up to the next run.
pub proof fn lemma_watchdog_bounds_press(pressed: u32, poll: u32, t: u32)
    requires
        pressed != 0,
        !watchdog_expired(pressed, poll),
        elapsed_spec(t, poll) <= WATCHDOG_PERIOD,
    ensures
        elapsed_spec(t, pressed) <= MAX_ASSERT_DURATION + WATCHDOG_PERIOD,
{
}

/// Two edges leave as far apart on the local clock as the sender stamped
/// them, as long as no clock alignment falls between them.
pub proof fn lemma_edges_keep_their_distance(rmt_epoch: u32, epoch: u32, t1: u32, t2: u32)
    ensures
        elapsed_spec(due_tick(rmt_epoch, epoch, t2), due_tick(rmt_epoch, epoch, t1))
            == elapsed_spec(t2, t1),
{
}

/// An edge is due from the local tick that stands for its stamp, and on that
/// tick exactly as much local time has passed as the sender measured.
pub proof fn lemma_edge_due_at_due_tick(rmt_epoch: u32, epoch: u32, tm: u32)
    ensures
        edge_due(rmt_epoch, epoch, tm, due_tick(rmt_epoch, epoch, tm)),
        elapsed_spec(due_tick(rmt_epoch, epoch, tm), epoch) == elapsed_spec(tm, rmt_epoch),
{
}

/// A stopped keyer stays stopped, with the key released, however often it
/// is stepped and whenever its watchdog runs.
pub proof fn lemma_stopped_is_terminal(s: KeyerState, now: u32)
    requires
        s.stopped,
    ensures
        step_spec(s, now).1 == KeyerStep::Closed,
        step_spec(s, now).0.stopped,
        !step_spec(s, now).0.key_down,
        watchdog_spec(s, now).stopped,
{
}

} // verus!
