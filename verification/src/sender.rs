//! The sending side: turns sampled key edges into a paced stream of frames.
//!
//! `Sender` decides when a frame is due and where in it an edge falls;
//! `WkSender` collects the edges of the frame under assembly and writes the
//! frame out. Neither sleeps or sends: the caller reads the clock and the pin,
//! and transmits what comes out.

use crate::frame::{
    decode_spec, encode_frame, encode_spec, lemma_decode_encode, pack_slot, slot_byte, slot_is_up,
    slot_message, slot_offset, tick_after, FrameError, FrameSpec, MessageRCV, MessageSND,
    PacketKind, MAX_SLOTS, PKT_INTERVAL,
};
use crate::tick::{elapsed, elapsed_spec};
use vstd::prelude::*;

verus! {

/// Period of the frames that keep a dozing link alive, in ms.
pub const KEEP_ALIVE: u32 = 3_000;

/// Empty frames in a row after which the sender dozes.
pub const SLEEP_PERIOD: u32 = 148_000;

/// An edge is read once the pin has been quiet for more than this many ms.
pub const STABLE_PERIOD: u32 = 1;

/// The state of the pacing, as the contracts see it.
pub struct SenderState {
    /// Base tick of the frame under assembly.
    pub last_sent: u32,
    /// Tick of the last keep-alive, or of falling asleep.
    pub last_stat: u32,
    /// Edges in the frame under assembly.
    pub slot_count: nat,
    /// Empty frames emitted in a row.
    pub sleep_count: u32,
    /// Whether periodic emission is suspended.
    pub dozing: bool,
}

/// What holds of every state that the sender reaches.
pub open spec fn sender_wf(s: SenderState) -> bool {
    &&& s.slot_count <= MAX_SLOTS
    &&& s.sleep_count < SLEEP_PERIOD
    &&& s.dozing ==> s.slot_count == 0
}

/// The edge message for a key that went up or down at `offset`.
pub open spec fn edge_message(key_up: bool, offset: u8) -> MessageSND {
    if key_up {
        MessageSND::PosEdge(offset)
    } else {
        MessageSND::NegEdge(offset)
    }
}

/// Whether the pin has been quiet long enough since the interrupt at `isr`.
/// The difference is read as signed, as the interrupt may be ahead of `now`.
pub open spec fn edge_ready_spec(now: u32, isr: u32) -> bool {
    let d = elapsed_spec(now, isr);
    STABLE_PERIOD < d && d < 0x8000_0000
}

/// The clock tick: a keep-alive while dozing, else the frame under assembly
/// once `PKT_INTERVAL` has passed since its base.
pub open spec fn tick_spec(s: SenderState, now: u32) -> (SenderState, Option<MessageSND>) {
    if s.dozing {
        if elapsed_spec(now, s.last_stat) > KEEP_ALIVE {
            (SenderState { last_stat: now, ..s }, Some(MessageSND::SendPacket(now)))
        } else {
            (s, None)
        }
    } else if elapsed_spec(now, s.last_sent) >= PKT_INTERVAL {
        let idle = s.slot_count == 0;
        let doze = idle && s.sleep_count + 1 >= SLEEP_PERIOD;
        (
            SenderState {
                last_sent: now,
                last_stat: if doze {
                    now
                } else {
                    s.last_stat
                },
                slot_count: 0,
                sleep_count: if doze {
                    0
                } else if idle {
                    (s.sleep_count + 1) as u32
                } else {
                    s.sleep_count
                },
                dozing: doze,
            },
            Some(MessageSND::SendPacket(s.last_sent)),
        )
    } else {
        (s, None)
    }
}

/// The state after the sender was woken at `now`, if it dozed.
pub open spec fn woken(s: SenderState, now: u32) -> SenderState {
    if s.dozing {
        SenderState { dozing: false, last_sent: now, sleep_count: 0, ..s }
    } else {
        s
    }
}

/// Whether an edge at `now` no longer fits the frame under assembly.
pub open spec fn overflows(s: SenderState, now: u32) -> bool {
    elapsed_spec(now, s.last_sent) >= PKT_INTERVAL || s.slot_count >= MAX_SLOTS
}

/// An edge at `now`: wakes a dozing sender with a frame based at `now`; where
/// the edge no longer fits, the frame under assembly leaves early and the edge
/// opens the next one at offset 0.
pub open spec fn edge_spec(s: SenderState, now: u32, key_up: bool) -> (
    SenderState,
    Seq<MessageSND>,
) {
    let w = woken(s, now);
    let wake = if s.dozing {
        seq![MessageSND::SendPacket(now)]
    } else {
        Seq::<MessageSND>::empty()
    };
    if overflows(w, now) {
        (
            SenderState { last_sent: now, slot_count: 1, sleep_count: 0, ..w },
            wake + seq![MessageSND::SendPacket(w.last_sent), edge_message(key_up, 0)],
        )
    } else {
        (
            SenderState { slot_count: w.slot_count + 1, sleep_count: 0, ..w },
            wake + seq![edge_message(key_up, elapsed_spec(now, w.last_sent) as u8)],
        )
    }
}

/// Paces the frames and places the edges in them.
pub struct Sender {
    last_sent: u32,
    last_stat: u32,
    slot_count: usize,
    sleep_count: u32,
    dozing: bool,
}

impl View for Sender {
    type V = SenderState;

    closed spec fn view(&self) -> SenderState {
        SenderState {
            last_sent: self.last_sent,
            last_stat: self.last_stat,
            slot_count: self.slot_count as nat,
            sleep_count: self.sleep_count,
            dozing: self.dozing,
        }
    }
}

impl Sender {
    /// A sender that starts its first frame at `now`.
    pub fn new(now: u32) -> (s: Self)
        ensures
            s@ == (SenderState {
                last_sent: now,
                last_stat: now,
                slot_count: 0,
                sleep_count: 0,
                dozing: false,
            }),
            sender_wf(s@),
    {
        Sender { last_sent: now, last_stat: now, slot_count: 0, sleep_count: 0, dozing: false }
    }

    /// Whether periodic emission is suspended.
    pub fn dozing(&self) -> (b: bool)
        ensures
            b == self@.dozing,
    {
        self.dozing
    }

    /// Base tick of the frame under assembly.
    pub fn last_sent(&self) -> (t: u32)
        ensures
            t == self@.last_sent,
    {
        self.last_sent
    }

    /// Edges in the frame under assembly.
    pub fn slot_count(&self) -> (n: usize)
        ensures
            n == self@.slot_count,
    {
        self.slot_count
    }

    /// Whether the pin has been quiet long enough since the interrupt at `isr`.
    pub fn edge_ready(now: u32, isr: u32) -> (b: bool)
        ensures
            b == edge_ready_spec(now, isr),
    {
        let d = elapsed(now, isr);
        STABLE_PERIOD < d && d < 0x8000_0000
    }

    /// The clock tick, once a millisecond: what to hand to the assembler, if
    /// anything.
    pub fn tick(&mut self, now: u32) -> (msg: Option<MessageSND>)
        ensures
            (final(self)@, msg) == tick_spec(old(self)@, now),
            sender_wf(old(self)@) ==> sender_wf(final(self)@),
    {
        if self.dozing {
            if elapsed(now, self.last_stat) > KEEP_ALIVE {
                self.last_stat = now;
                Some(MessageSND::SendPacket(now))
            } else {
                None
            }
        } else if elapsed(now, self.last_sent) >= PKT_INTERVAL {
            let msg = MessageSND::SendPacket(self.last_sent);
            if self.slot_count == 0 {
                if self.sleep_count >= SLEEP_PERIOD - 1 {
                    self.sleep_count = 0;
                    self.dozing = true;
                    self.last_stat = now;
                } else {
                    self.sleep_count = self.sleep_count + 1;
                }
            }
            self.last_sent = now;
            self.slot_count = 0;
            Some(msg)
        } else {
            None
        }
    }

    /// The tuner button at `now`: wakes a dozing sender and asks for the tuner
    /// command.
    pub fn start_atu(&mut self, now: u32) -> (msg: MessageSND)
        ensures
            final(self)@ == woken(old(self)@, now),
            msg == MessageSND::StartATU,
            sender_wf(old(self)@) ==> sender_wf(final(self)@),
    {
        if self.dozing {
            self.dozing = false;
            self.last_sent = now;
            self.sleep_count = 0;
        }
        MessageSND::StartATU
    }

    /// A key edge read at `now`: what to hand to the assembler, in order.
    pub fn edge(&mut self, now: u32, key_up: bool) -> (msgs: Vec<MessageSND>)
        ensures
            (final(self)@, msgs@) == edge_spec(old(self)@, now, key_up),
            sender_wf(final(self)@),
    {
        let mut msgs: Vec<MessageSND> = Vec::new();
        if self.dozing {
            self.dozing = false;
            self.last_sent = now;
            msgs.push(MessageSND::SendPacket(now));
        }
        self.sleep_count = 0;
        let pos = elapsed(now, self.last_sent);
        let mut offset: u8 = 0;
        if pos >= PKT_INTERVAL || self.slot_count >= MAX_SLOTS {
            msgs.push(MessageSND::SendPacket(self.last_sent));
            self.last_sent = now;
            self.slot_count = 0;
        } else {
            offset = pos as u8;
        }
        if key_up {
            msgs.push(MessageSND::PosEdge(offset));
        } else {
            msgs.push(MessageSND::NegEdge(offset));
        }
        self.slot_count = self.slot_count + 1;
        assert(msgs@ =~= edge_spec(old(self)@, now, key_up).1);
        msgs
    }
}

/// Why the assembler took no message.
#[derive(Clone, Copy, Debug, PartialEq, Eq, Structural)]
pub enum SendError {
    /// The session is closed.
    Closed,
    /// The frame under assembly is full, or the edge lies `PKT_INTERVAL` ms
    /// or more behind the frame's base.
    Overflow,
}

/// What the caller has to do with the session after a message was taken.
#[derive(Clone, Debug, PartialEq, Eq)]
pub enum SenderAction {
    Nothing,
    /// Send these bytes; if that fails, report it with `transmit_failed`.
    Transmit(Vec<u8>),
    /// Close the session.
    Close,
}

/// A `SenderAction` as the contracts see it.
pub enum SenderActionSpec {
    Nothing,
    Transmit(Seq<u8>),
    Close,
}

impl View for SenderAction {
    type V = SenderActionSpec;

    open spec fn view(&self) -> SenderActionSpec {
        match self {
            SenderAction::Nothing => SenderActionSpec::Nothing,
            SenderAction::Transmit(b) => SenderActionSpec::Transmit(b@),
            SenderAction::Close => SenderActionSpec::Close,
        }
    }
}

/// The state of the assembler, as the contracts see it.
pub struct AssemblerState {
    /// Slots of the frame under assembly, oldest first.
    pub slots: Seq<u8>,
    /// Whether the session is closed.
    pub closed: bool,
}

/// The assembler's answer to a message, and its next state.
pub open spec fn send_spec(s: AssemblerState, msg: MessageSND) -> (
    AssemblerState,
    Result<SenderActionSpec, SendError>,
) {
    if s.closed {
        (s, Err(SendError::Closed))
    } else {
        match msg {
            MessageSND::CloseSession => (
                AssemblerState { closed: true, ..s },
                Ok(SenderActionSpec::Close),
            ),
            MessageSND::StartATU => (
                AssemblerState { slots: Seq::empty(), ..s },
                Ok(
                    SenderActionSpec::Transmit(
                        encode_spec(PacketKind::StartATU, 0, Seq::<u8>::empty()),
                    ),
                ),
            ),
            MessageSND::SendPacket(tm) => (
                AssemblerState { slots: Seq::empty(), ..s },
                Ok(SenderActionSpec::Transmit(encode_spec(PacketKind::KeyerMessage, tm, s.slots))),
            ),
            MessageSND::PosEdge(offset) => if s.slots.len() >= MAX_SLOTS || offset >= PKT_INTERVAL {
                (s, Err(SendError::Overflow))
            } else {
                (
                    AssemblerState { slots: s.slots.push(slot_byte(true, offset)), ..s },
                    Ok(SenderActionSpec::Nothing),
                )
            },
            MessageSND::NegEdge(offset) => if s.slots.len() >= MAX_SLOTS || offset >= PKT_INTERVAL {
                (s, Err(SendError::Overflow))
            } else {
                (
                    AssemblerState { slots: s.slots.push(slot_byte(false, offset)), ..s },
                    Ok(SenderActionSpec::Nothing),
                )
            },
        }
    }
}

/// The answer of `send`, as the contracts see it.
pub open spec fn action_view(r: Result<SenderAction, SendError>) -> Result<
    SenderActionSpec,
    SendError,
> {
    match r {
        Ok(a) => Ok(a@),
        Err(e) => Err(e),
    }
}

/// Collects the edges of the frame under assembly and writes frames out.
pub struct WkSender {
    slots: Vec<u8>,
    session_closed: bool,
}

impl View for WkSender {
    type V = AssemblerState;

    closed spec fn view(&self) -> AssemblerState {
        AssemblerState { slots: self.slots@, closed: self.session_closed }
    }
}

impl WkSender {
    /// An assembler with an empty frame and an open session.
    pub fn new() -> (s: Self)
        ensures
            s@ == (AssemblerState { slots: Seq::empty(), closed: false }),
    {
        WkSender { slots: Vec::new(), session_closed: false }
    }

    /// Whether the session is closed.
    pub fn closed(&self) -> (b: bool)
        ensures
            b == self@.closed,
    {
        self.session_closed
    }

    /// The wire form of a frame.
    pub fn encode(cmd: PacketKind, tm: u32, slots: &[u8]) -> (bytes: Vec<u8>)
        requires
            slots@.len() <= MAX_SLOTS,
        ensures
            bytes@ == encode_spec(cmd, tm, slots@),
    {
        encode_frame(cmd, tm, slots)
    }

    /// Takes one message from the pacing.
    pub fn send(&mut self, msg: MessageSND) -> (r: Result<SenderAction, SendError>)
        requires
            old(self)@.slots.len() <= MAX_SLOTS,
        ensures
            (final(self)@, action_view(r)) == send_spec(old(self)@, msg),
            final(self)@.slots.len() <= MAX_SLOTS,
            old(self)@.closed ==> final(self)@.closed,
    {
        if self.session_closed {
            return Err(SendError::Closed);
        }
        match msg {
            MessageSND::CloseSession => {
                self.session_closed = true;
                Ok(SenderAction::Close)
            },
            MessageSND::StartATU => {
                self.slots.clear();
                let bytes = encode_frame(PacketKind::StartATU, 0, self.slots.as_slice());
                Ok(SenderAction::Transmit(bytes))
            },
            MessageSND::SendPacket(tm) => {
                let bytes = encode_frame(PacketKind::KeyerMessage, tm, self.slots.as_slice());
                self.slots.clear();
                Ok(SenderAction::Transmit(bytes))
            },
            MessageSND::PosEdge(offset) => {
                if self.slots.len() >= MAX_SLOTS || offset as u32 >= PKT_INTERVAL {
                    Err(SendError::Overflow)
                } else {
                    self.slots.push(pack_slot(true, offset));
                    Ok(SenderAction::Nothing)
                }
            },
            MessageSND::NegEdge(offset) => {
                if self.slots.len() >= MAX_SLOTS || offset as u32 >= PKT_INTERVAL {
                    Err(SendError::Overflow)
                } else {
                    self.slots.push(pack_slot(false, offset));
                    Ok(SenderAction::Nothing)
                }
            },
        }
    }

    /// The session refused a frame: it counts as closed from now on.
    pub fn transmit_failed(&mut self)
        ensures
            final(self)@ == (AssemblerState { closed: true, ..old(self)@ }),
    {
        self.session_closed = true;
    }
}

/// Between two frames of a sender that is awake lie at least `PKT_INTERVAL`
/// ms, and no more than the scheduler is late: where the clock tick before
/// `now` came at `prev` and emitted nothing, and the two lie at most
/// `1 + jitter` ms apart, the frame emitted at `now` has its base
/// `PKT_INTERVAL` to `PKT_INTERVAL + jitter` ms before `now`, and `now` is the
/// base of the frame that follows.
pub proof fn lemma_frame_spacing(s: SenderState, prev: u32, now: u32, jitter: u32)
    requires
        !s.dozing,
        tick_spec(s, prev).1 is None,
        tick_spec(s, now).1 is Some,
        elapsed_spec(now, prev) <= 1 + jitter,
    ensures
        tick_spec(s, now).1 == Some(MessageSND::SendPacket(s.last_sent)),
        tick_spec(s, now).0.last_sent == now,
        PKT_INTERVAL <= elapsed_spec(now, s.last_sent) <= PKT_INTERVAL + jitter,
{
}

/// An edge that fits its frame reaches the keyer with the tick at which the
/// sender read it: the offset written at `now` into a frame based at `base`,
/// added to that base again, is `now`.
pub proof fn lemma_edge_keeps_its_tick(base: u32, now: u32, key_up: bool)
    requires
        elapsed_spec(now, base) < PKT_INTERVAL,
    ensures
        slot_message(base, slot_byte(key_up, elapsed_spec(now, base) as u8)) == if key_up {
            MessageRCV::Keyup(now)
        } else {
            MessageRCV::Keydown(now)
        },
{
    let offset = elapsed_spec(now, base) as u8;
    assert(offset < 128 ==> (0x80u8 | offset) & 0x7fu8 == offset && (0x80u8 | offset) & 0x80u8 != 0
        && offset & 0x7fu8 == offset && offset & 0x80u8 == 0) by (bit_vector);
    assert(slot_offset(slot_byte(key_up, offset)) == offset);
    assert(slot_is_up(slot_byte(key_up, offset)) == key_up);
    assert(tick_after(base, offset) == now);
}

/// Whether a message, if it is an edge, carries an offset below
/// `PKT_INTERVAL`.
pub open spec fn offset_fits(msg: MessageSND) -> bool {
    match msg {
        MessageSND::PosEdge(offset) => offset < PKT_INTERVAL,
        MessageSND::NegEdge(offset) => offset < PKT_INTERVAL,
        _ => true,
    }
}

/// Whatever the state before it, an edge leaves the sender well formed, and
/// every edge message that it hands out carries an offset below
/// `PKT_INTERVAL`.
pub proof fn lemma_edge_offsets_fit(s: SenderState, now: u32, key_up: bool)
    ensures
        sender_wf(edge_spec(s, now, key_up).0),
        forall|i: int|
            0 <= i < edge_spec(s, now, key_up).1.len() ==> offset_fits(
                #[trigger] edge_spec(s, now, key_up).1[i],
            ),
{
}

/// The frame that the assembler writes for `SendPacket` reads back as the
/// base tick of the message and the edges that the assembler took since its
/// last frame, in their order; and the next frame starts without edges.
pub proof fn lemma_frame_carries_the_edges(s: AssemblerState, tm: u32)
    requires
        !s.closed,
        s.slots.len() <= MAX_SLOTS,
    ensures
        send_spec(s, MessageSND::SendPacket(tm)).1 matches Ok(SenderActionSpec::Transmit(bytes))
            && decode_spec(bytes) == Ok::<FrameSpec, FrameError>(
            FrameSpec { kind: PacketKind::KeyerMessage, base_ts: tm, slots: s.slots },
        ),
        send_spec(s, MessageSND::SendPacket(tm)).0.slots.len() == 0,
{
    lemma_decode_encode(PacketKind::KeyerMessage, tm, s.slots, Seq::empty());
    let bytes = encode_spec(PacketKind::KeyerMessage, tm, s.slots);
    assert(bytes + Seq::<u8>::empty() =~= bytes);
}

} // verus!
