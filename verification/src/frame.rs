//! Keying frames: a kind byte, the sender's base tick in big-endian, a slot
//! count and one byte per keying edge.
//!
//! ```text
//! [0]     kind        0 = keyer message, 1 = start the antenna tuner
//! [1..5]  base tick   u32, big-endian
//! [5]     slot count  0..=MAX_SLOTS
//! [6..]   slots       one byte each: edge bit (0x80 = key up) and a 7-bit offset in ms
//! ```

use vstd::prelude::*;

verus! {

/// Most slots one frame can carry.
pub const MAX_SLOTS: usize = 128;

/// Bytes in front of the slots: kind, base tick and slot count.
pub const FRAME_HEADER_LEN: usize = 6;

/// Nominal period between two frames, and the bound on a slot's offset, in ms.
pub const PKT_INTERVAL: u32 = 50;

/// What a frame is for.
#[derive(Clone, Copy, Debug, PartialEq, Eq, Structural)]
pub enum PacketKind {
    KeyerMessage,
    StartATU,
}

/// What the key sampler hands to the frame assembler.
#[derive(Clone, Copy, Debug, PartialEq, Eq, Structural)]
pub enum MessageSND {
    /// Emit the frame under assembly with this base tick.
    SendPacket(u32),
    /// The key was released at this offset from the frame's base.
    PosEdge(u8),
    /// The key was pressed at this offset from the frame's base.
    NegEdge(u8),
    CloseSession,
    StartATU,
}

/// What a received frame means to the keyer.
#[derive(Clone, Copy, Debug, PartialEq, Eq, Structural)]
pub enum MessageRCV {
    /// A frame without slots: the sender's clock read this tick.
    Sync(u32),
    /// Press the key at this tick of the sender's clock.
    Keydown(u32),
    /// Release the key at this tick of the sender's clock.
    Keyup(u32),
    SessionClosed,
    StartATU,
}

/// Why a byte string is no frame.
#[derive(Clone, Copy, Debug, PartialEq, Eq, Structural)]
pub enum FrameError {
    /// Fewer bytes than the header, or fewer slots than the header declares.
    Truncated,
    /// The header declares more than `MAX_SLOTS` slots.
    TooManySlots,
}

/// A decoded frame.
#[derive(Clone, Debug, PartialEq, Eq)]
pub struct Frame {
    pub kind: PacketKind,
    pub base_ts: u32,
    pub slots: Vec<u8>,
}

/// The mathematical content of a frame.
pub struct FrameSpec {
    pub kind: PacketKind,
    pub base_ts: u32,
    pub slots: Seq<u8>,
}

impl View for Frame {
    type V = FrameSpec;

    open spec fn view(&self) -> FrameSpec {
        FrameSpec { kind: self.kind, base_ts: self.base_ts, slots: self.slots@ }
    }
}

/// The four bytes of `v`, most significant first.
pub open spec fn be32(v: u32) -> Seq<u8> {
    seq![
        (v / 0x100_0000) as u8,
        ((v / 0x1_0000) % 0x100) as u8,
        ((v / 0x100) % 0x100) as u8,
        (v % 0x100) as u8,
    ]
}

/// The number whose big-endian bytes are `b0 b1 b2 b3`.
pub open spec fn from_be32(b0: u8, b1: u8, b2: u8, b3: u8) -> u32 {
    (b0 * 0x100_0000 + b1 * 0x1_0000 + b2 * 0x100 + b3) as u32
}

pub open spec fn kind_byte(kind: PacketKind) -> u8 {
    match kind {
        PacketKind::KeyerMessage => 0u8,
        PacketKind::StartATU => 1u8,
    }
}

/// Byte 1 names the tuner command; every other value is a keyer message.
pub open spec fn kind_of_byte(b: u8) -> PacketKind {
    if b == 1 {
        PacketKind::StartATU
    } else {
        PacketKind::KeyerMessage
    }
}

/// The wire form of a frame with at most `MAX_SLOTS` slots.
pub open spec fn encode_spec(kind: PacketKind, base_ts: u32, slots: Seq<u8>) -> Seq<u8> {
    seq![kind_byte(kind)] + be32(base_ts) + seq![slots.len() as u8] + slots
}

/// What a byte string decodes to. Bytes behind the declared slots are ignored.
pub open spec fn decode_spec(bytes: Seq<u8>) -> Result<FrameSpec, FrameError> {
    if bytes.len() < FRAME_HEADER_LEN {
        Err(FrameError::Truncated)
    } else if bytes[5] > MAX_SLOTS {
        Err(FrameError::TooManySlots)
    } else if bytes.len() < FRAME_HEADER_LEN + bytes[5] {
        Err(FrameError::Truncated)
    } else {
        Ok(
            FrameSpec {
                kind: kind_of_byte(bytes[0]),
                base_ts: from_be32(bytes[1], bytes[2], bytes[3], bytes[4]),
                slots: bytes.subrange(FRAME_HEADER_LEN as int, FRAME_HEADER_LEN + bytes[5]),
            },
        )
    }
}

/// The slot byte of an edge: the edge bit is set for a release.
pub open spec fn slot_byte(key_up: bool, offset: u8) -> u8 {
    if key_up {
        0x80u8 | offset
    } else {
        offset
    }
}

/// The offset that a slot carries, in ms behind the frame's base.
pub open spec fn slot_offset(slot: u8) -> u8 {
    slot & 0x7fu8
}

/// Whether a slot is a release of the key.
pub open spec fn slot_is_up(slot: u8) -> bool {
    slot & 0x80u8 != 0
}

/// The tick `offset` ms behind `base`, on a clock that wraps at 2^32.
pub open spec fn tick_after(base: u32, offset: u8) -> u32 {
    if base + offset < 0x1_0000_0000 {
        (base + offset) as u32
    } else {
        (base + offset - 0x1_0000_0000) as u32
    }
}

/// What one slot of a frame with base tick `base` asks of the keyer.
pub open spec fn slot_message(base: u32, slot: u8) -> MessageRCV {
    if slot_is_up(slot) {
        MessageRCV::Keyup(tick_after(base, slot_offset(slot)))
    } else {
        MessageRCV::Keydown(tick_after(base, slot_offset(slot)))
    }
}

/// What a frame asks of the keyer: the tuner command, a clock reading, or its
/// edges in the order of its slots.
pub open spec fn frame_messages(frame: FrameSpec) -> Seq<MessageRCV> {
    if frame.kind == PacketKind::StartATU {
        seq![MessageRCV::StartATU]
    } else if frame.slots.len() == 0 {
        seq![MessageRCV::Sync(frame.base_ts)]
    } else {
        Seq::new(frame.slots.len(), |i: int| slot_message(frame.base_ts, frame.slots[i]))
    }
}

/// Packs an edge and its offset into a slot byte.
pub fn pack_slot(key_up: bool, offset: u8) -> (slot: u8)
    ensures
        slot == slot_byte(key_up, offset),
        offset < 128 ==> slot_offset(slot) == offset && slot_is_up(slot) == key_up,
{
    assert(offset < 128 ==> (0x80u8 | offset) & 0x7fu8 == offset && (0x80u8 | offset) & 0x80u8 != 0
        && offset & 0x7fu8 == offset && offset & 0x80u8 == 0) by (bit_vector);
    if key_up {
        0x80u8 | offset
    } else {
        offset
    }
}

/// The message of one slot.
pub fn unpack_slot(base: u32, slot: u8) -> (m: MessageRCV)
    ensures
        m == slot_message(base, slot),
{
    let offset: u8 = slot & 0x7f;
    let tick = base.wrapping_add(offset as u32);
    if slot & 0x80 == 0 {
        MessageRCV::Keydown(tick)
    } else {
        MessageRCV::Keyup(tick)
    }
}

/// Appends the big-endian bytes of `v` to `buf`.
pub fn put_be32(buf: &mut Vec<u8>, v: u32)
    ensures
        final(buf)@ == old(buf)@ + be32(v),
{
    buf.push((v / 0x100_0000) as u8);
    buf.push(((v / 0x1_0000) % 0x100) as u8);
    buf.push(((v / 0x100) % 0x100) as u8);
    buf.push((v % 0x100) as u8);
}

/// Reads a big-endian `u32` at `at`.
pub fn get_be32(buf: &[u8], at: usize) -> (v: u32)
    requires
        at + 4 <= buf@.len(),
    ensures
        v == from_be32(buf@[at as int], buf@[at + 1], buf@[at + 2], buf@[at + 3]),
{
    let b0: u32 = buf[at] as u32;
    let b1: u32 = buf[at + 1] as u32;
    let b2: u32 = buf[at + 2] as u32;
    let b3: u32 = buf[at + 3] as u32;
    b0 * 0x100_0000 + b1 * 0x1_0000 + b2 * 0x100 + b3
}

/// Writes a frame in its wire form.
pub fn encode_frame(kind: PacketKind, base_ts: u32, slots: &[u8]) -> (bytes: Vec<u8>)
    requires
        slots@.len() <= MAX_SLOTS,
    ensures
        bytes@ == encode_spec(kind, base_ts, slots@),
        bytes@.len() == FRAME_HEADER_LEN + slots@.len(),
{
    let mut buf: Vec<u8> = Vec::new();
    let k: u8 = match kind {
        PacketKind::KeyerMessage => 0,
        PacketKind::StartATU => 1,
    };
    buf.push(k);
    put_be32(&mut buf, base_ts);
    buf.push(slots.len() as u8);
    let n: usize = slots.len();
    let mut i: usize = 0;
    while i < n
        invariant
            n == slots@.len(),
            i <= n,
            buf@ == seq![kind_byte(kind)] + be32(base_ts) + seq![slots@.len() as u8]
                + slots@.subrange(0, i as int),
        decreases n - i,
    {
        buf.push(slots[i]);
        i += 1;
    }
    assert(slots@.subrange(0, n as int) == slots@);
    buf
}

/// Reads a frame from its wire form.
pub fn decode_frame(buf: &[u8]) -> (r: Result<Frame, FrameError>)
    ensures
        match r {
            Ok(f) => decode_spec(buf@) == Ok::<FrameSpec, FrameError>(f@),
            Err(e) => decode_spec(buf@) == Err::<FrameSpec, FrameError>(e),
        },
{
    if buf.len() < FRAME_HEADER_LEN {
        return Err(FrameError::Truncated);
    }
    let count: usize = buf[5] as usize;
    if count > MAX_SLOTS {
        return Err(FrameError::TooManySlots);
    }
    if buf.len() < FRAME_HEADER_LEN + count {
        return Err(FrameError::Truncated);
    }
    let kind = if buf[0] == 1 {
        PacketKind::StartATU
    } else {
        PacketKind::KeyerMessage
    };
    let base_ts = get_be32(buf, 1);
    let mut slots: Vec<u8> = Vec::new();
    let mut i: usize = 0;
    while i < count
        invariant
            i <= count <= MAX_SLOTS,
            FRAME_HEADER_LEN + count <= buf@.len(),
            slots@ == buf@.subrange(FRAME_HEADER_LEN as int, FRAME_HEADER_LEN + i),
        decreases count - i,
    {
        slots.push(buf[FRAME_HEADER_LEN + i]);
        i += 1;
    }
    Ok(Frame { kind, base_ts, slots })
}

/// The messages of a frame, in the order of its slots.
pub fn messages_of(frame: &Frame) -> (msgs: Vec<MessageRCV>)
    ensures
        msgs@ == frame_messages(frame@),
{
    let mut msgs: Vec<MessageRCV> = Vec::new();
    match frame.kind {
        PacketKind::StartATU => {
            msgs.push(MessageRCV::StartATU);
        },
        PacketKind::KeyerMessage => {
            if frame.slots.len() == 0 {
                msgs.push(MessageRCV::Sync(frame.base_ts));
            } else {
                let n: usize = frame.slots.len();
                let mut i: usize = 0;
                while i < n
                    invariant
                        n == frame.slots@.len(),
                        i <= n,
                        msgs@ == Seq::new(
                            i as nat,
                            |j: int| slot_message(frame.base_ts, frame.slots@[j]),
                        ),
                    decreases n - i,
                {
                    msgs.push(unpack_slot(frame.base_ts, frame.slots[i]));
                    i += 1;
                }
            }
        },
    }
    msgs
}

/// Decoding what was encoded gives the frame back, whatever its kind, and
/// whatever bytes follow it.
pub proof fn lemma_decode_encode(kind: PacketKind, base_ts: u32, slots: Seq<u8>, tail: Seq<u8>)
    requires
        slots.len() <= MAX_SLOTS,
    ensures
        decode_spec(encode_spec(kind, base_ts, slots) + tail) == Ok::<FrameSpec, FrameError>(
            FrameSpec { kind, base_ts, slots },
        ),
{
    let bytes = encode_spec(kind, base_ts, slots) + tail;
    lemma_be32_inverse(base_ts);
    assert(bytes.len() == FRAME_HEADER_LEN + slots.len() + tail.len());
    assert(bytes[0] == kind_byte(kind));
    assert(bytes[1] == be32(base_ts)[0]);
    assert(bytes[2] == be32(base_ts)[1]);
    assert(bytes[3] == be32(base_ts)[2]);
    assert(bytes[4] == be32(base_ts)[3]);
    assert(bytes[5] == slots.len() as u8);
    assert(bytes.subrange(FRAME_HEADER_LEN as int, FRAME_HEADER_LEN + bytes[5]) =~= slots);
}

/// Reading the big-endian bytes of a number gives the number back.
pub proof fn lemma_be32_inverse(v: u32)
    ensures
        from_be32(be32(v)[0], be32(v)[1], be32(v)[2], be32(v)[3]) == v,
        be32(v).len() == 4,
{
}

} // verus!
