//! The reliable session over datagrams.
//!
//! The retransmission engine is the kcp crate's. It writes its datagrams to
//! an output that the caller supplies, and is told the time at every call.
//! This module keeps what surrounds the engine: whether a session is closed,
//! when it last received, when it has idled for too long, and which datagrams
//! reach it.
//!
//! The engine compares ticks and sequence numbers as signed 32-bit numbers and
//! adds to them without regard to overflow. It is therefore never told the
//! caller's tick, which may stand anywhere in its 32 bits: each socket counts
//! a clock of its own from 0 at its making, and is closed before that clock
//! reaches `ENGINE_CLOCK_LIMIT`. The engine's counters rise with the calls
//! that have it send, so a socket is also closed before it has made
//! `ENGINE_CALL_LIMIT` of them. And a datagram reaches the engine only where
//! every number in it that the engine reckons with is in range: the sequence
//! numbers, the fragment counts, and the ticks that acknowledgements bring
//! back. The tick of the peer's own clock, which stands in every other
//! segment and may be any number, is only handed back.

use crate::auth::{AuthError, AuthStep};
use crate::tick::{elapsed, elapsed_spec};
use kcp::Kcp;
use std::io::Write;
use vstd::prelude::*;

verus! {

/// Largest datagram the engine writes, in bytes.
pub const MTU_SIZE: usize = 512;

/// A session that has received nothing for this many ms is closed.
pub const SESSION_TIMEOUT: u32 = 30_000;

/// Largest message of the application, in bytes.
pub const PKT_SIZE: usize = 128;

/// Bytes of the engine's header in front of every segment.
pub const ARQ_OVERHEAD: usize = 24;

/// How long the timer task sleeps after the engine refused an update, in ms.
pub const UPDATE_RETRY: u32 = 1_000;

/// The engine's clock stays below this many ms: a socket of this age is
/// closed.
pub const ENGINE_CLOCK_LIMIT: u32 = 0x1000_0000;

/// A socket that has called its engine this often is closed: with each call
/// the engine sends at most 32 segments, and it numbers them in 31 bits.
pub const ENGINE_CALL_LIMIT: u32 = 0x0300_0000;

/// Sequence numbers in a datagram, and the ticks that acknowledgements bring
/// back, stay below this.
pub const SEGMENT_FIELD_LIMIT: u32 = 0x1000_0000;

/// The kind of a segment that carries a message.
pub const CMD_PUSH: u8 = 81;

/// The kind of a segment that acknowledges one.
pub const CMD_ACK: u8 = 82;

/// The last of the four kinds of segment.
pub const CMD_LAST: u8 = 84;

/// Fragment counts in a datagram stay below this.
pub const FRAGMENT_LIMIT: u8 = 128;

/// The retransmission engine of the kcp crate, writing to a boxed output.
///
/// An engine is made by `arq_new` and reached through the functions of this
/// file alone, which a socket calls. So it has been told no tick from
/// `ENGINE_CLOCK_LIMIT` on, it holds no segment of a datagram that was not
/// screened, and it has been fed, updated and made to send fewer than
/// `ENGINE_CALL_LIMIT` times in all: on that the contracts below rest where
/// they say that a call returns. With its clock, the ticks that come back to
/// it and the sequence numbers that it is shown below 2^28, the engine's
/// round-trip estimates, timeouts and resend times stay below 2^31. Its
/// counters of segments sent, of resends and of acknowledgements seen start
/// at 0 and rise with each such call by no more than its window of 32
/// segments, so they stay below 2^31 as well.
#[verifier::external_body]
pub struct ArqEngine {
    inner: Kcp<Box<dyn Write + Send>>,
}

/// The error type of the kcp crate.
#[verifier::external_type_specification]
#[verifier::external_body]
pub struct ExKcpError(kcp::Error);

/// How an engine is tuned.
pub struct Tuning {
    /// Largest datagram, in bytes.
    pub mtu: usize,
    /// Whether retransmission timeouts grow slowly.
    pub nodelay: bool,
    /// Period of the timers, in ms.
    pub interval: u32,
    /// Missing acknowledgements after which a segment is sent again at once; 0
    /// for never.
    pub fast_resend: u32,
    /// Whether the congestion window is switched off.
    pub nocwnd: bool,
    /// Transmissions of one segment after which the link is given up.
    pub max_resend: u32,
}

/// The conversation id that the engine stamps on what it sends and expects
/// on what it is fed.
pub uninterp spec fn engine_conv(engine: ArqEngine) -> u32;

/// Whether the engine takes its conversation id from the next datagram.
pub uninterp spec fn engine_waiting_conv(engine: ArqEngine) -> bool;

/// Whether the engine has resent a segment too often and given the link up.
pub uninterp spec fn engine_dead(engine: ArqEngine) -> bool;

/// How the engine is tuned.
pub uninterp spec fn engine_tuning(engine: ArqEngine) -> Tuning;

/// Whether the engine holds nothing that it would write: no segment, no
/// acknowledgement, no window probe and no datagram that its output refused,
/// and its peer has not closed its window.
pub uninterp spec fn engine_quiet(engine: ArqEngine) -> bool;

/// In how many ms the engine's timers are due again at tick `current`.
pub uninterp spec fn engine_check(engine: ArqEngine, current: u32) -> u32;

/// What an engine with conversation id `conv`, waiting for one or not,
/// answers to a datagram.
pub uninterp spec fn input_answer(conv: u32, waiting: bool, datagram: Seq<u8>) -> Result<
    usize,
    ArqError,
>;

/// What the engine answers to a read into a buffer of `room` bytes.
pub uninterp spec fn engine_recv(engine: ArqEngine, room: nat) -> Result<usize, ArqError>;

/// The oldest complete message that the engine holds.
pub uninterp spec fn engine_next(engine: ArqEngine) -> Seq<u8>;

/// How the engine is tuned in a given mode.
#[derive(Clone, Copy, Debug, PartialEq, Eq, Structural)]
pub enum KcpMode {
    Default,
    Normal,
    Fast,
    FastNB,
}

/// What the engine refused, variant for variant.
#[derive(Clone, Copy, Debug, PartialEq, Eq, Structural)]
pub enum ArqError {
    ConvInconsistent(u32, u32),
    InvalidMtu(usize),
    InvalidSegmentSize(usize),
    InvalidSegmentDataSize(usize, usize),
    IoError,
    NeedUpdate,
    RecvQueueEmpty,
    ExpectingFragment,
    UnsupportedCmd(u8),
    UserBufTooBig,
    UserBufTooSmall,
}

/// Why a session took or gave nothing.
#[derive(Clone, Copy, Debug, PartialEq, Eq, Structural)]
pub enum SessionError {
    /// The session is closed, the link is dead, or the socket is worn out.
    Closed,
    /// The datagram holds a tick, a sequence number or a fragment count that
    /// is out of range.
    OutOfRange,
    /// The engine refused.
    Arq(ArqError),
}

/// The variants of `kcp::Error` under the names of `ArqError`; the payload
/// of an I/O error is dropped.
#[verifier::external_body]
fn arq_error(e: kcp::Error) -> ArqError {
    match e {
        kcp::Error::ConvInconsistent(a, b) => ArqError::ConvInconsistent(a, b),
        kcp::Error::InvalidMtu(n) => ArqError::InvalidMtu(n),
        kcp::Error::InvalidSegmentSize(n) => ArqError::InvalidSegmentSize(n),
        kcp::Error::InvalidSegmentDataSize(a, b) => ArqError::InvalidSegmentDataSize(a, b),
        kcp::Error::IoError(_) => ArqError::IoError,
        kcp::Error::NeedUpdate => ArqError::NeedUpdate,
        kcp::Error::RecvQueueEmpty => ArqError::RecvQueueEmpty,
        kcp::Error::ExpectingFragment => ArqError::ExpectingFragment,
        kcp::Error::UnsupportedCmd(c) => ArqError::UnsupportedCmd(c),
        kcp::Error::UserBufTooBig => ArqError::UserBufTooBig,
        kcp::Error::UserBufTooSmall => ArqError::UserBufTooSmall,
    }
}

/// The four bytes of `v`, least significant first.
pub open spec fn le32(v: u32) -> Seq<u8> {
    seq![
        (v % 0x100) as u8,
        ((v / 0x100) % 0x100) as u8,
        ((v / 0x1_0000) % 0x100) as u8,
        (v / 0x100_0000) as u8,
    ]
}

/// The number whose little-endian bytes are `b0 b1 b2 b3`.
pub open spec fn from_le32(b0: u8, b1: u8, b2: u8, b3: u8) -> u32 {
    (b0 + b1 * 0x100 + b2 * 0x1_0000 + b3 * 0x100_0000) as u32
}

/// The little-endian number that stands at `at` in a datagram.
pub open spec fn le32_at(datagram: Seq<u8>, at: int) -> u32 {
    from_le32(datagram[at], datagram[at + 1], datagram[at + 2], datagram[at + 3])
}

/// The conversation id at the front of a datagram.
pub open spec fn conv_of(datagram: Seq<u8>) -> u32 {
    le32_at(datagram, 0)
}

/// Whether the segment whose header stands at `at` holds a fragment count,
/// a sequence number and an acknowledged number in range, and a tick in
/// range where it is an acknowledgement.
///
/// ```text
/// conv u32 | cmd u8 | frg u8 | wnd u16 | ts u32 | sn u32 | una u32 | len u32
/// ```
pub open spec fn segment_in_range(datagram: Seq<u8>, at: int) -> bool {
    &&& datagram[at + 5] < FRAGMENT_LIMIT
    &&& datagram[at + 4] == CMD_ACK ==> le32_at(datagram, at + 8) < SEGMENT_FIELD_LIMIT
    &&& le32_at(datagram, at + 12) < SEGMENT_FIELD_LIMIT
    &&& le32_at(datagram, at + 16) < SEGMENT_FIELD_LIMIT
}

/// Whether every segment from `at` on is in range, as far as their lengths
/// lead through the datagram.
pub open spec fn screened_from(datagram: Seq<u8>, at: int) -> bool
    decreases datagram.len() - at,
{
    if at < 0 || datagram.len() - at < ARQ_OVERHEAD {
        true
    } else if !segment_in_range(datagram, at) {
        false
    } else if le32_at(datagram, at + 20) > datagram.len() - at - ARQ_OVERHEAD {
        true
    } else {
        screened_from(datagram, at + ARQ_OVERHEAD + le32_at(datagram, at + 20))
    }
}

/// Whether every segment of a datagram is in range.
pub open spec fn screened(datagram: Seq<u8>) -> bool {
    screened_from(datagram, 0)
}

/// Whether a datagram is one whole segment of a known kind for an engine
/// with conversation id `conv`, waiting for one or not.
pub open spec fn single_segment(conv: u32, waiting: bool, datagram: Seq<u8>) -> bool {
    &&& datagram.len() >= ARQ_OVERHEAD
    &&& datagram.len() == ARQ_OVERHEAD + le32_at(datagram, 20)
    &&& CMD_PUSH <= datagram[4] <= CMD_LAST
    &&& (waiting || conv_of(datagram) == conv)
}

/// The refusal of a datagram at first sight: it is shorter than a header, or
/// it opens with another conversation id than that of an engine that waits
/// for none.
pub open spec fn first_sight_refusal(conv: u32, waiting: bool, datagram: Seq<u8>) -> Option<
    ArqError,
> {
    if datagram.len() < ARQ_OVERHEAD {
        Some(ArqError::InvalidSegmentSize(datagram.len() as usize))
    } else if !waiting && conv_of(datagram) != conv {
        Some(ArqError::ConvInconsistent(conv, conv_of(datagram)))
    } else {
        None
    }
}

/// The answer of an engine that refuses.
pub open spec fn refused(e: ArqError) -> Result<usize, ArqError> {
    Err(e)
}

/// The answer of an engine that has taken `n` bytes.
pub open spec fn taken(n: nat) -> Result<usize, ArqError> {
    Ok(n as usize)
}

/// Most segments that one message may be cut into.
pub const MAX_FRAGMENTS: usize = 127;

/// What an engine with datagrams of `mtu` bytes answers to a message of
/// `len` bytes: every datagram carries `mtu - ARQ_OVERHEAD` bytes of it, and
/// a message that needs more than `MAX_FRAGMENTS` datagrams is too big.
pub open spec fn send_answer(len: nat, mtu: usize) -> Result<usize, ArqError> {
    let room = mtu - ARQ_OVERHEAD;
    if len <= room || (len + room - 1) / room <= MAX_FRAGMENTS {
        Ok(len as usize)
    } else {
        Err(ArqError::UserBufTooBig)
    }
}

/// Whether two engines have the same conversation id, wait alike for one and
/// are tuned alike.
pub open spec fn same_link(a: ArqEngine, b: ArqEngine) -> bool {
    &&& engine_conv(a) == engine_conv(b)
    &&& engine_waiting_conv(a) == engine_waiting_conv(b)
    &&& engine_tuning(a) == engine_tuning(b)
}

/// The interval that the engine makes of the one it is given.
pub open spec fn clamp_interval(interval: i32) -> u32 {
    if interval < 10 {
        10
    } else if interval > 5000 {
        5000
    } else {
        interval as u32
    }
}

/// `Kcp::new` with conversation id 0: a live, quiet engine that writes to
/// `output`, does not wait for a conversation id, and is tuned to datagrams
/// of 1400 bytes, timers every 100 ms and 20 transmissions.
#[verifier::external_body]
fn arq_new<O: Write + Send + 'static>(output: O) -> (engine: ArqEngine)
    ensures
        engine_conv(engine) == 0,
        !engine_waiting_conv(engine),
        !engine_dead(engine),
        engine_quiet(engine),
        engine_tuning(engine) == (Tuning {
            mtu: 1400,
            nodelay: false,
            interval: 100,
            fast_resend: 0,
            nocwnd: false,
            max_resend: 20,
        }),
{
    ArqEngine { inner: Kcp::new(0, Box::new(output)) }
}

/// `Kcp::set_nodelay`: sets the four, the interval brought between 10 and
/// 5000 ms and a negative `resend` left out.
#[verifier::external_body]
fn arq_set_nodelay(engine: &mut ArqEngine, nodelay: bool, interval: i32, resend: i32, nc: bool)
    ensures
        engine_conv(*final(engine)) == engine_conv(*old(engine)),
        engine_waiting_conv(*final(engine)) == engine_waiting_conv(*old(engine)),
        engine_dead(*final(engine)) == engine_dead(*old(engine)),
        engine_quiet(*final(engine)) == engine_quiet(*old(engine)),
        engine_tuning(*final(engine)) == (Tuning {
            nodelay,
            interval: clamp_interval(interval),
            fast_resend: if resend >= 0 {
                resend as u32
            } else {
                engine_tuning(*old(engine)).fast_resend
            },
            nocwnd: nc,
            ..engine_tuning(*old(engine))
        }),
{
    engine.inner.set_nodelay(nodelay, interval, resend, nc)
}

/// `Kcp::set_mtu`, which takes every size from 50 bytes on and no other.
#[verifier::external_body]
fn arq_set_mtu(engine: &mut ArqEngine, mtu: usize) -> (ok: bool)
    requires
        mtu <= 0x1000_0000,
    ensures
        ok == (mtu >= 50),
        engine_conv(*final(engine)) == engine_conv(*old(engine)),
        engine_waiting_conv(*final(engine)) == engine_waiting_conv(*old(engine)),
        engine_dead(*final(engine)) == engine_dead(*old(engine)),
        engine_quiet(*final(engine)) == engine_quiet(*old(engine)),
        engine_tuning(*final(engine)) == if mtu >= 50 {
            Tuning { mtu, ..engine_tuning(*old(engine)) }
        } else {
            engine_tuning(*old(engine))
        },
{
    engine.inner.set_mtu(mtu).is_ok()
}

/// `Kcp::set_maximum_resend_times`.
#[verifier::external_body]
fn arq_set_maximum_resend_times(engine: &mut ArqEngine, times: u32)
    ensures
        engine_conv(*final(engine)) == engine_conv(*old(engine)),
        engine_waiting_conv(*final(engine)) == engine_waiting_conv(*old(engine)),
        engine_dead(*final(engine)) == engine_dead(*old(engine)),
        engine_quiet(*final(engine)) == engine_quiet(*old(engine)),
        engine_tuning(*final(engine)) == (Tuning {
            max_resend: times,
            ..engine_tuning(*old(engine))
        }),
{
    engine.inner.set_maximum_resend_times(times)
}

/// `Kcp::input_conv`: from now on the engine takes its conversation id from
/// the next datagram that it is fed.
#[verifier::external_body]
fn arq_input_conv(engine: &mut ArqEngine)
    ensures
        engine_waiting_conv(*final(engine)),
        engine_conv(*final(engine)) == engine_conv(*old(engine)),
        engine_dead(*final(engine)) == engine_dead(*old(engine)),
        engine_quiet(*final(engine)) == engine_quiet(*old(engine)),
        engine_tuning(*final(engine)) == engine_tuning(*old(engine)),
{
    engine.inner.input_conv()
}

/// `Kcp::update`: runs the engine's timers at tick `current`, which may give
/// the link up. It fails only where the output refuses what the engine
/// writes, and a quiet engine writes nothing. The tick is kept below
/// `ENGINE_CLOCK_LIMIT`, so that no sum or difference of ticks in the engine
/// leaves the range of its numbers.
#[verifier::external_body]
fn arq_update(engine: &mut ArqEngine, current: u32) -> (r: Result<(), ArqError>)
    requires
        current < ENGINE_CLOCK_LIMIT,
    ensures
        same_link(*old(engine), *final(engine)),
        r matches Err(e) ==> e == ArqError::IoError,
        engine_quiet(*old(engine)) ==> r is Ok && engine_quiet(*final(engine)),
        engine_quiet(*old(engine)) ==> engine_dead(*final(engine)) == engine_dead(*old(engine)),
{
    engine.inner.update(current).map_err(arq_error)
}

/// `Kcp::check`: in how many ms `update` is due again, which is a matter of
/// the engine and of `current` alone and never more than the engine's
/// interval.
#[verifier::external_body]
fn arq_check(engine: &ArqEngine, current: u32) -> (due: u32)
    requires
        current < ENGINE_CLOCK_LIMIT,
    ensures
        due == engine_check(*engine, current),
        due <= engine_tuning(*engine).interval,
{
    engine.inner.check(current)
}

/// `Kcp::input`: feeds a datagram to the engine. The answer is a matter of
/// the engine's conversation id, of whether it waits for one, and of the
/// datagram. A datagram shorter than a header, and one that opens with a
/// foreign conversation id, is refused before anything changes; one whole
/// segment of a known kind is taken. No datagram gives the link up or
/// revives it, changes the tuning, or changes the conversation id of an
/// engine that waits for none. The datagram is screened, so that no
/// difference of its sequence numbers, or of a tick that comes back in an
/// acknowledgement, to the engine's leaves the range of the engine's
/// numbers.
#[verifier::external_body]
fn arq_input(engine: &mut ArqEngine, buf: &[u8]) -> (r: Result<usize, ArqError>)
    requires
        screened(buf@),
    ensures
        r == input_answer(engine_conv(*old(engine)), engine_waiting_conv(*old(engine)), buf@),
        first_sight_refusal(
            engine_conv(*old(engine)),
            engine_waiting_conv(*old(engine)),
            buf@,
        ) matches Some(e) ==> r == refused(e),
        single_segment(engine_conv(*old(engine)), engine_waiting_conv(*old(engine)), buf@) ==> r
            == taken(buf@.len()),
        engine_dead(*final(engine)) == engine_dead(*old(engine)),
        engine_tuning(*final(engine)) == engine_tuning(*old(engine)),
        !engine_waiting_conv(*old(engine)) ==> !engine_waiting_conv(*final(engine)),
        !engine_waiting_conv(*old(engine)) ==> engine_conv(*final(engine)) == engine_conv(
            *old(engine),
        ),
{
    engine.inner.input(buf).map_err(arq_error)
}

/// `Kcp::flush_ack`: writes acknowledgements where they fill a datagram, and
/// leaves the conversation, the tuning and the link alone.
#[verifier::external_body]
fn arq_flush_ack(engine: &mut ArqEngine) -> (r: Result<(), ArqError>)
    ensures
        same_link(*old(engine), *final(engine)),
        engine_dead(*final(engine)) == engine_dead(*old(engine)),
{
    engine.inner.flush_ack().map_err(arq_error)
}

/// `Kcp::flush`: writes what is due, which may give the link up and leaves
/// the conversation and the tuning alone.
#[verifier::external_body]
fn arq_flush(engine: &mut ArqEngine) -> (r: Result<(), ArqError>)
    ensures
        same_link(*old(engine), *final(engine)),
{
    engine.inner.flush().map_err(arq_error)
}

/// `Kcp::send`: queues a message, cut into as many segments as it needs.
/// It takes all of a message or refuses it as too big, as `send_answer`
/// says. The conversation, the tuning and the link are left alone.
#[verifier::external_body]
fn arq_send(engine: &mut ArqEngine, buf: &[u8]) -> (r: Result<usize, ArqError>)
    ensures
        r == send_answer(buf@.len(), engine_tuning(*old(engine)).mtu),
        same_link(*old(engine), *final(engine)),
        engine_dead(*final(engine)) == engine_dead(*old(engine)),
{
    engine.inner.send(buf).map_err(arq_error)
}

/// `Kcp::recv`: where the engine holds a complete message that fits `buf`,
/// copies it to the front of `buf`, leaves the rest of `buf`, and returns
/// its length; else it changes nothing, neither in `buf` nor in the engine,
/// and says why. The answer is a matter of the engine and of the size of
/// `buf`. The conversation, the tuning and the link are left alone. The
/// fragment counts that the engine adds to are those of screened datagrams.
#[verifier::external_body]
fn arq_recv(engine: &mut ArqEngine, buf: &mut [u8]) -> (r: Result<usize, ArqError>)
    ensures
        r == engine_recv(*old(engine), old(buf)@.len()),
        final(buf)@.len() == old(buf)@.len(),
        r matches Ok(n) ==> n == engine_next(*old(engine)).len() && n <= old(buf)@.len(),
        r matches Ok(n) ==> final(buf)@ == engine_next(*old(engine)) + old(buf)@.skip(n as int),
        r is Err ==> final(buf)@ == old(buf)@ && *final(engine) == *old(engine),
        r matches Err(e) ==> e == ArqError::RecvQueueEmpty || e == ArqError::ExpectingFragment
            || e == ArqError::UserBufTooSmall,
        same_link(*old(engine), *final(engine)),
        engine_dead(*final(engine)) == engine_dead(*old(engine)),
{
    engine.inner.recv(buf).map_err(arq_error)
}

/// `Kcp::is_dead_link`.
#[verifier::external_body]
fn arq_is_dead_link(engine: &ArqEngine) -> (dead: bool)
    ensures
        dead == engine_dead(*engine),
{
    engine.inner.is_dead_link()
}

/// `Kcp::conv`.
#[verifier::external_body]
fn arq_conv(engine: &ArqEngine) -> (conv: u32)
    ensures
        conv == engine_conv(*engine),
{
    engine.inner.conv()
}

/// `Kcp::waiting_conv`.
#[verifier::external_body]
fn arq_waiting_conv(engine: &ArqEngine) -> (waiting: bool)
    ensures
        waiting == engine_waiting_conv(*engine),
{
    engine.inner.waiting_conv()
}

/// `kcp::get_conv`: the little-endian number in the first four bytes of a
/// datagram that holds a header at least.
#[verifier::external_body]
pub(crate) fn datagram_conv(buf: &[u8]) -> (conv: u32)
    requires
        buf@.len() >= ARQ_OVERHEAD,
    ensures
        conv == conv_of(buf@),
{
    kcp::get_conv(buf)
}

/// `kcp::set_conv`: writes `conv` in little-endian over the first four bytes
/// of a datagram that holds a header at least, and leaves the rest.
#[verifier::external_body]
pub(crate) fn set_datagram_conv(buf: &mut Vec<u8>, conv: u32)
    requires
        old(buf)@.len() >= ARQ_OVERHEAD,
    ensures
        final(buf)@ == le32(conv) + old(buf)@.skip(4),
{
    kcp::set_conv(buf.as_mut_slice(), conv)
}

/// Reads the little-endian number that stands at `at`.
pub fn get_le32(buf: &[u8], at: usize) -> (v: u32)
    requires
        at + 4 <= buf@.len(),
    ensures
        v == le32_at(buf@, at as int),
{
    let b0: u32 = buf[at] as u32;
    let b1: u32 = buf[at + 1] as u32;
    let b2: u32 = buf[at + 2] as u32;
    let b3: u32 = buf[at + 3] as u32;
    b0 + b1 * 0x100 + b2 * 0x1_0000 + b3 * 0x100_0000
}

/// Whether every segment of a datagram holds a fragment count, a sequence
/// number and an acknowledged number in range, and every acknowledgement a
/// tick in range.
pub fn screen(buf: &[u8]) -> (ok: bool)
    ensures
        ok == screened(buf@),
{
    let n: usize = buf.len();
    let mut at: usize = 0;
    while n - at >= ARQ_OVERHEAD
        invariant
            n == buf@.len(),
            at <= n,
            screened(buf@) == screened_from(buf@, at as int),
        decreases n - at,
    {
        if buf[at + 5] >= FRAGMENT_LIMIT || (buf[at + 4] == CMD_ACK && get_le32(buf, at + 8)
            >= SEGMENT_FIELD_LIMIT) || get_le32(buf, at + 12) >= SEGMENT_FIELD_LIMIT || get_le32(
            buf,
            at + 16,
        ) >= SEGMENT_FIELD_LIMIT {
            return false;
        }
        let len: u32 = get_le32(buf, at + 20);
        if len as u64 > (n - at - ARQ_OVERHEAD) as u64 {
            return true;
        }
        at = at + ARQ_OVERHEAD + len as usize;
    }
    true
}

/// How each mode tunes the engine: the fast modes to datagrams of 512 bytes,
/// slowly growing timeouts, a resend after one missing acknowledgement, no
/// congestion window and 10 transmissions; all modes to timers every 10 ms.
pub open spec fn mode_tuning(mode: KcpMode) -> Tuning {
    match mode {
        KcpMode::Default => Tuning {
            mtu: 1400,
            nodelay: false,
            interval: 10,
            fast_resend: 0,
            nocwnd: false,
            max_resend: 20,
        },
        KcpMode::Normal => Tuning {
            mtu: 1400,
            nodelay: false,
            interval: 10,
            fast_resend: 0,
            nocwnd: true,
            max_resend: 20,
        },
        _ => Tuning {
            mtu: MTU_SIZE,
            nodelay: true,
            interval: 10,
            fast_resend: 1,
            nocwnd: true,
            max_resend: 10,
        },
    }
}

/// A socket, as the contracts see it.
pub struct SocketState {
    pub closed: bool,
    /// Tick of the last datagram that the engine took.
    pub last_update: u32,
    /// Tick at which the socket was made.
    pub base: u32,
    /// How often the socket has called its engine.
    pub calls: u32,
    /// The engine.
    pub engine: ArqEngine,
}

impl SocketState {
    /// The engine's conversation id.
    pub open spec fn conv(self) -> u32 {
        engine_conv(self.engine)
    }

    /// Whether the engine still waits to learn its conversation id.
    pub open spec fn waiting_conv(self) -> bool {
        engine_waiting_conv(self.engine)
    }

    /// Whether the engine has given the link up.
    pub open spec fn dead(self) -> bool {
        engine_dead(self.engine)
    }

    /// How the engine is tuned.
    pub open spec fn tuning(self) -> Tuning {
        engine_tuning(self.engine)
    }

    /// Whether the socket is worn out at `now`: it is too old for its
    /// engine's clock, or has called its engine too often.
    pub open spec fn worn_out(self, now: u32) -> bool {
        elapsed_spec(now, self.base) >= ENGINE_CLOCK_LIMIT || self.calls >= ENGINE_CALL_LIMIT
    }

    /// Whether the socket takes nothing at `now`: it is closed or worn out.
    pub open spec fn shut(self, now: u32) -> bool {
        self.closed || self.worn_out(now)
    }

    /// How often the socket has called its engine after a call at `now`: a
    /// socket that is shut calls it no more.
    pub open spec fn counted(self, now: u32) -> u32 {
        if self.shut(now) {
            self.calls
        } else {
            (self.calls + 1) as u32
        }
    }

    /// What the engine answers to a datagram.
    pub open spec fn answer(self, datagram: Seq<u8>) -> Result<usize, ArqError> {
        input_answer(self.conv(), self.waiting_conv(), datagram)
    }

    /// Whether the socket takes a datagram at `now`.
    pub open spec fn takes(self, datagram: Seq<u8>, now: u32) -> bool {
        !self.shut(now) && screened(datagram) && self.answer(datagram) is Ok
    }
}

/// Whether a socket is as it is made at `now` in a given mode: open, with
/// a live and quiet engine that waits to learn its conversation id and is
/// tuned as the mode says.
pub open spec fn fresh_socket(s: SocketState, mode: KcpMode, now: u32) -> bool {
    &&& !s.closed
    &&& s.last_update == now
    &&& s.base == now
    &&& s.calls == 0
    &&& s.conv() == 0
    &&& s.waiting_conv()
    &&& !s.dead()
    &&& s.tuning() == mode_tuning(mode)
    &&& engine_quiet(s.engine)
}

/// What the socket answers to a datagram at `now`.
pub open spec fn input_spec(s: SocketState, datagram: Seq<u8>, now: u32) -> Result<
    (),
    SessionError,
> {
    if s.shut(now) {
        Err(SessionError::Closed)
    } else if !screened(datagram) {
        Err(SessionError::OutOfRange)
    } else {
        match s.answer(datagram) {
            Ok(_) => Ok(()),
            Err(e) => Err(SessionError::Arq(e)),
        }
    }
}

/// What the socket answers at `now` to a message of `len` bytes: `Closed`
/// where it is shut or its link is dead, and else what the engine answers.
pub open spec fn send_spec(s: SocketState, len: nat, now: u32) -> Result<usize, SessionError> {
    if s.shut(now) || s.dead() {
        Err(SessionError::Closed)
    } else {
        match send_answer(len, s.tuning().mtu) {
            Ok(n) => Ok(n),
            Err(e) => Err(SessionError::Arq(e)),
        }
    }
}

/// What a read gives, for each answer of the engine: the message, nothing
/// where nothing is queued, and `Closed` for every other refusal.
pub open spec fn recv_outcome_spec(answer: Result<usize, ArqError>) -> Result<usize, SessionError> {
    match answer {
        Ok(n) => Ok(n),
        Err(ArqError::RecvQueueEmpty) => Ok(0),
        Err(_) => Err(SessionError::Closed),
    }
}

/// What a read gives, for each answer of the engine.
pub fn recv_outcome(answer: Result<usize, ArqError>) -> (r: Result<usize, SessionError>)
    ensures
        r == recv_outcome_spec(answer),
{
    match answer {
        Ok(n) => Ok(n),
        Err(ArqError::RecvQueueEmpty) => Ok(0),
        Err(_) => Err(SessionError::Closed),
    }
}

/// What a read of a socket gives into a buffer of `room` bytes.
pub open spec fn recv_spec(s: SocketState, room: nat) -> Result<usize, SessionError> {
    if s.closed {
        Err(SessionError::Closed)
    } else {
        recv_outcome_spec(engine_recv(s.engine, room))
    }
}

/// The engine and the three facts that the session keeps beside it.
pub struct KcpSocket {
    kcp: ArqEngine,
    base: u32,
    calls: u32,
    last_update: u32,
    closed: bool,
}

impl View for KcpSocket {
    type V = SocketState;

    closed spec fn view(&self) -> SocketState {
        SocketState {
            closed: self.closed,
            last_update: self.last_update,
            base: self.base,
            calls: self.calls,
            engine: self.kcp,
        }
    }
}

impl KcpSocket {
    /// An open socket whose engine writes to `output`, tuned as `mode` says,
    /// and waiting to learn its conversation id from the peer.
    pub fn new<O: Write + Send + 'static>(mode: KcpMode, output: O, now: u32) -> (r: Result<
        Self,
        SessionError,
    >)
        ensures
            r is Ok,
            r matches Ok(s) ==> fresh_socket(s@, mode, now),
    {
        let mut kcp = arq_new(output);
        match mode {
            KcpMode::Default => arq_set_nodelay(&mut kcp, false, 10, 0, false),
            KcpMode::Normal => arq_set_nodelay(&mut kcp, false, 10, 0, true),
            KcpMode::Fast | KcpMode::FastNB => {
                let ok = arq_set_mtu(&mut kcp, MTU_SIZE);
                assert(ok);
                arq_set_nodelay(&mut kcp, true, 10, 1, true);
                arq_set_maximum_resend_times(&mut kcp, 10);
            },
        }
        arq_input_conv(&mut kcp);
        match arq_update(&mut kcp, 0) {
            Ok(()) => Ok(KcpSocket { kcp, base: now, calls: 0, last_update: now, closed: false }),
            Err(e) => Err(SessionError::Arq(e)),
        }
    }

    /// Counts a call of the engine at `now` and gives the engine's clock,
    /// where the socket is not worn out; a socket that is worn out is closed.
    fn clock(&mut self, now: u32) -> (c: Option<u32>)
        requires
            !old(self)@.closed,
        ensures
            final(self)@ == (SocketState {
                closed: old(self)@.worn_out(now),
                calls: old(self)@.counted(now),
                ..old(self)@
            }),
            c is Some == !old(self)@.worn_out(now),
            c matches Some(t) ==> t < ENGINE_CLOCK_LIMIT && t == elapsed_spec(now, old(self)@.base),
    {
        let age = elapsed(now, self.base);
        if age >= ENGINE_CLOCK_LIMIT || self.calls >= ENGINE_CALL_LIMIT {
            self.closed = true;
            None
        } else {
            self.calls = self.calls + 1;
            Some(age)
        }
    }

    /// Feeds a datagram from the peer to the engine and has it acknowledged.
    /// The idle time starts anew exactly where the engine took the datagram.
    pub fn input(&mut self, buf: &[u8], now: u32) -> (r: Result<(), SessionError>)
        ensures
            r == input_spec(old(self)@, buf@, now),
            final(self)@.closed == old(self)@.shut(now),
            final(self)@.base == old(self)@.base,
            final(self)@.calls == old(self)@.counted(now),
            final(self)@.last_update == if r is Ok {
                now
            } else {
                old(self)@.last_update
            },
            final(self)@.tuning() == old(self)@.tuning(),
            !old(self)@.waiting_conv() ==> final(self)@.conv() == old(self)@.conv()
                && !final(self)@.waiting_conv(),
            !old(self)@.shut(now) && screened(buf@) && single_segment(
                old(self)@.conv(),
                old(self)@.waiting_conv(),
                buf@,
            ) ==> r is Ok,
            first_sight_refusal(old(self)@.conv(), old(self)@.waiting_conv(), buf@) is Some ==> r
                is Err,
            old(self)@.closed ==> final(self)@ == old(self)@,
            !screened(buf@) ==> final(self)@.engine == old(self)@.engine,
    {
        if self.closed {
            return Err(SessionError::Closed);
        }
        if self.clock(now).is_none() {
            return Err(SessionError::Closed);
        }
        if !screen(buf) {
            return Err(SessionError::OutOfRange);
        }
        match arq_input(&mut self.kcp, buf) {
            Ok(_) => {},
            Err(e) => {
                return Err(SessionError::Arq(e));
            },
        }
        self.last_update = now;
        let _ = arq_flush_ack(&mut self.kcp);
        Ok(())
    }

    /// Queues a message for the peer and has the engine write what is due;
    /// what the output refuses, the engine sends again. The answer is
    /// `Closed` exactly where the socket was closed or worn out or the link
    /// is dead, and then the socket is closed; else a message is refused
    /// only where it is too big for the engine.
    pub fn send(&mut self, buf: &[u8], now: u32) -> (r: Result<usize, SessionError>)
        ensures
            r == send_spec(old(self)@, buf@.len(), now),
            final(self)@.closed <==> old(self)@.shut(now) || old(self)@.dead(),
            final(self)@.last_update == old(self)@.last_update,
            final(self)@.base == old(self)@.base,
            final(self)@.calls == old(self)@.counted(now),
            final(self)@.conv() == old(self)@.conv(),
            final(self)@.waiting_conv() == old(self)@.waiting_conv(),
            final(self)@.tuning() == old(self)@.tuning(),
    {
        if self.closed {
            return Err(SessionError::Closed);
        }
        if self.clock(now).is_none() {
            return Err(SessionError::Closed);
        }
        if arq_is_dead_link(&self.kcp) {
            self.closed = true;
            return Err(SessionError::Closed);
        }
        let n = match arq_send(&mut self.kcp, buf) {
            Ok(n) => n,
            Err(e) => {
                return Err(SessionError::Arq(e));
            },
        };
        let _ = arq_flush(&mut self.kcp);
        Ok(n)
    }

    /// Copies the oldest complete message to the front of `buf` and returns
    /// its length, or 0 where nothing is queued. A closed socket gives
    /// nothing, and what the engine refuses for another reason, a message
    /// that is not yet whole or does not fit `buf`, is reported as `Closed`
    /// too. Apart from the message, nothing changes.
    pub fn recv(&mut self, buf: &mut [u8]) -> (r: Result<usize, SessionError>)
        ensures
            r == recv_spec(old(self)@, old(buf)@.len()),
            final(buf)@.len() == old(buf)@.len(),
            final(self)@.closed == old(self)@.closed,
            final(self)@.last_update == old(self)@.last_update,
            final(self)@.base == old(self)@.base,
            final(self)@.calls == old(self)@.calls,
            final(self)@.conv() == old(self)@.conv(),
            final(self)@.waiting_conv() == old(self)@.waiting_conv(),
            final(self)@.dead() == old(self)@.dead(),
            final(self)@.tuning() == old(self)@.tuning(),
            engine_recv(old(self)@.engine, old(buf)@.len()) is Ok && !old(self)@.closed ==> r is Ok
                && r->Ok_0 <= old(buf)@.len() && final(buf)@ == engine_next(old(self)@.engine)
                + old(buf)@.skip(r->Ok_0 as int),
            !(engine_recv(old(self)@.engine, old(buf)@.len()) is Ok && !old(self)@.closed)
                ==> final(buf)@ == old(buf)@ && final(self)@ == old(self)@,
    {
        if self.closed {
            return Err(SessionError::Closed);
        }
        let answer = arq_recv(&mut self.kcp, buf);
        recv_outcome(answer)
    }

    /// Has the engine write what is due. What the output refuses, the engine
    /// writes again later.
    pub fn flush(&mut self, now: u32) -> (r: Result<(), SessionError>)
        ensures
            r is Err <==> old(self)@.shut(now),
            r matches Err(e) ==> e == SessionError::Closed,
            final(self)@.closed == old(self)@.shut(now),
            final(self)@.last_update == old(self)@.last_update,
            final(self)@.base == old(self)@.base,
            final(self)@.calls == old(self)@.counted(now),
            final(self)@.conv() == old(self)@.conv(),
            final(self)@.waiting_conv() == old(self)@.waiting_conv(),
            final(self)@.tuning() == old(self)@.tuning(),
    {
        if self.closed {
            return Err(SessionError::Closed);
        }
        if self.clock(now).is_none() {
            return Err(SessionError::Closed);
        }
        let _ = arq_flush(&mut self.kcp);
        Ok(())
    }

    /// In how many ms the engine's timers are due again at tick `now` of a
    /// socket that is not worn out.
    pub closed spec fn due_in(&self, now: u32) -> u32 {
        engine_check(self.kcp, elapsed_spec(now, self.base))
    }

    /// Runs the engine's timers at tick `now` and returns in how many ms the
    /// engine wants them run again, as it stands after this run. It fails
    /// as `Closed` exactly where the socket is closed or worn out, and else
    /// only where the output refused a datagram, which a quiet engine does
    /// not write.
    pub fn update(&mut self, now: u32) -> (r: Result<u32, SessionError>)
        ensures
            r == Err::<u32, SessionError>(SessionError::Closed) <==> old(self)@.shut(now),
            final(self)@.closed == old(self)@.shut(now),
            final(self)@.last_update == old(self)@.last_update,
            final(self)@.base == old(self)@.base,
            final(self)@.calls == old(self)@.counted(now),
            final(self)@.conv() == old(self)@.conv(),
            final(self)@.waiting_conv() == old(self)@.waiting_conv(),
            final(self)@.tuning() == old(self)@.tuning(),
            r matches Ok(due) ==> due == final(self).due_in(now),
            r matches Ok(due) ==> due <= old(self)@.tuning().interval,
            r matches Err(e) ==> e == SessionError::Closed || e == SessionError::Arq(
                ArqError::IoError,
            ),
            old(self)@.shut(now) ==> final(self)@.engine == old(self)@.engine,
            engine_quiet(old(self)@.engine) && !old(self)@.shut(now) ==> r is Ok && engine_quiet(
                final(self)@.engine,
            ) && final(self)@.dead() == old(self)@.dead(),
    {
        if self.closed {
            return Err(SessionError::Closed);
        }
        let clock = match self.clock(now) {
            Some(c) => c,
            None => {
                return Err(SessionError::Closed);
            },
        };
        match arq_update(&mut self.kcp, clock) {
            Ok(()) => {
                let due = arq_check(&self.kcp, clock);
                assert(clock == elapsed_spec(now, self.base));
                assert(due == self.due_in(now));
                Ok(due)
            },
            Err(e) => Err(SessionError::Arq(e)),
        }
    }

    /// The conversation id that the engine stamps on what it sends.
    pub fn conv(&self) -> (c: u32)
        ensures
            c == self@.conv(),
    {
        arq_conv(&self.kcp)
    }

    /// Whether the engine still waits to learn its conversation id.
    pub fn waiting_conv(&self) -> (w: bool)
        ensures
            w == self@.waiting_conv(),
    {
        arq_waiting_conv(&self.kcp)
    }

    /// Whether the engine has given the link up.
    pub fn dead(&self) -> (d: bool)
        ensures
            d == self@.dead(),
    {
        arq_is_dead_link(&self.kcp)
    }

    /// Closes the socket. It never opens again.
    pub fn close(&mut self)
        ensures
            final(self)@ == (SocketState { closed: true, ..old(self)@ }),
    {
        self.closed = true;
    }

    pub fn closed(&self) -> (b: bool)
        ensures
            b == self@.closed,
    {
        self.closed
    }

    pub fn last_update(&self) -> (t: u32)
        ensures
            t == self@.last_update,
    {
        self.last_update
    }
}

/// What the timer task has to do next.
#[derive(Clone, Copy, Debug, PartialEq, Eq, Structural)]
pub enum UpdaterStep {
    /// The session is closed: end the task.
    Exit,
    /// Sleep this many ms and run the timers again.
    Sleep(u32),
}

/// What became of a datagram that the socket received.
#[derive(Clone, Copy, Debug, PartialEq, Eq, Structural)]
pub enum IngressStep {
    /// It came from another address than the peer's, or is shorter than a
    /// header: it was dropped.
    Dropped,
    /// The engine took it.
    Fed,
    /// It was refused.
    Refused,
    /// The session is closed: end the task.
    Exit,
}

/// What a poll for a message gave.
#[derive(Clone, Copy, Debug, PartialEq, Eq, Structural)]
pub enum RecvPoll {
    /// A message of this length lies at the front of the buffer.
    Got(usize),
    /// Nothing yet: sleep a millisecond and poll again.
    Again,
    /// The time is up.
    TimedOut,
    /// The session is closed or the read failed: the wait is over.
    Closed,
}

/// A session, as the contracts see it.
pub struct SessionState {
    pub socket: SocketState,
    /// Idle time after which the session is closed, in ms.
    pub expire: u32,
}

/// A session idles out once its engine has taken no datagram for longer
/// than `expire`.
pub open spec fn idle_too_long(s: SessionState, now: u32) -> bool {
    elapsed_spec(now, s.socket.last_update) > s.expire
}

/// Whether a wait that began at `started` is over at `now`.
pub open spec fn timed_out(started: u32, timeout: u32, now: u32) -> bool {
    elapsed_spec(now, started) >= timeout
}

/// The step of the timer task for each answer of the engine's timers: a
/// session that closed itself, has idled for too long or whose link is dead
/// ends; else the task sleeps as long as the engine says, or
/// `UPDATE_RETRY` where the output refused a datagram.
pub open spec fn timer_step_spec(
    answer: Result<u32, SessionError>,
    idle: bool,
    dead: bool,
) -> UpdaterStep {
    if answer == Err::<u32, SessionError>(SessionError::Closed) || idle || dead {
        UpdaterStep::Exit
    } else {
        match answer {
            Ok(due) => UpdaterStep::Sleep(due),
            Err(_) => UpdaterStep::Sleep(UPDATE_RETRY),
        }
    }
}

/// The step of the timer task for each answer of the engine's timers.
pub fn timer_step(answer: Result<u32, SessionError>, idle: bool, dead: bool) -> (step: UpdaterStep)
    ensures
        step == timer_step_spec(answer, idle, dead),
{
    if idle || dead {
        return UpdaterStep::Exit;
    }
    match answer {
        Ok(due) => UpdaterStep::Sleep(due),
        Err(SessionError::Closed) => UpdaterStep::Exit,
        Err(_) => UpdaterStep::Sleep(UPDATE_RETRY),
    }
}

/// What a poll gives for each answer of a read: a message, nothing yet, or
/// the end of the session.
pub open spec fn poll_outcome_spec(answer: Result<usize, SessionError>) -> RecvPoll {
    match answer {
        Ok(n) => if n > 0 {
            RecvPoll::Got(n)
        } else {
            RecvPoll::Again
        },
        Err(_) => RecvPoll::Closed,
    }
}

/// What a poll of a session gives into a buffer of `room` bytes: the end of
/// a closed session first, then the end of the time, then what a read gives.
pub open spec fn poll_spec(
    s: SessionState,
    room: nat,
    started: u32,
    timeout: u32,
    now: u32,
) -> RecvPoll {
    if s.socket.closed {
        RecvPoll::Closed
    } else if timed_out(started, timeout, now) {
        RecvPoll::TimedOut
    } else {
        poll_outcome_spec(recv_spec(s.socket, room))
    }
}

/// Whether the message of an admission step, if it has one, can be sent at
/// `now`.
pub open spec fn step_goes_out(s: SocketState, step: AuthStep, now: u32) -> bool {
    step.send matches Some(bytes) ==> send_spec(s, bytes@.len(), now) is Ok
}

/// How an admission stands after a step was carried out: it has failed
/// where the step says so or the step's message could not be sent, and else
/// it stands as the step says.
pub open spec fn carry_out_spec(s: SocketState, step: AuthStep, now: u32) -> Option<
    Result<u32, AuthError>,
> {
    if step.outcome matches Some(Err(_)) || !step_goes_out(s, step, now) {
        Some(Err(AuthError::AuthFailed))
    } else {
        step.outcome
    }
}

/// A message of `PKT_SIZE` bytes or fewer is refused by a socket of any mode
/// exactly where the socket is shut or its link is dead, and then as
/// `Closed`; else all of it is taken.
pub proof fn lemma_packet_is_sent(s: SocketState, mode: KcpMode, len: nat, now: u32)
    requires
        s.tuning() == mode_tuning(mode),
        len <= PKT_SIZE,
    ensures
        send_spec(s, len, now) == if s.shut(now) || s.dead() {
            Err::<usize, SessionError>(SessionError::Closed)
        } else {
            Ok::<usize, SessionError>(len as usize)
        },
{
}

/// One end of a session.
pub struct WkSession {
    socket: KcpSocket,
    expire: u32,
}

impl View for WkSession {
    type V = SessionState;

    closed spec fn view(&self) -> SessionState {
        SessionState { socket: self.socket@, expire: self.expire }
    }
}

impl WkSession {
    /// An open session that idles out after `expire` ms.
    pub fn new<O: Write + Send + 'static>(output: O, mode: KcpMode, expire: u32, now: u32) -> (r:
        Result<Self, SessionError>)
        ensures
            r is Ok,
            r matches Ok(s) ==> fresh_socket(s@.socket, mode, now) && s@.expire == expire,
    {
        match KcpSocket::new(mode, output, now) {
            Ok(socket) => Ok(WkSession { socket, expire }),
            Err(e) => Err(e),
        }
    }

    /// The client's end: tuned for speed, idling out after `SESSION_TIMEOUT`.
    pub fn connect<O: Write + Send + 'static>(output: O, now: u32) -> (r: Result<
        Self,
        SessionError,
    >)
        ensures
            r is Ok,
            r matches Ok(s) ==> fresh_socket(s@.socket, KcpMode::FastNB, now) && s@.expire
                == SESSION_TIMEOUT,
    {
        Self::new(output, KcpMode::FastNB, SESSION_TIMEOUT, now)
    }

    /// Feeds a datagram from the peer to the engine. The idle time starts
    /// anew exactly where the engine took the datagram.
    pub fn input(&mut self, buf: &[u8], now: u32) -> (r: Result<(), SessionError>)
        ensures
            r == input_spec(old(self)@.socket, buf@, now),
            final(self)@.socket.closed == old(self)@.socket.shut(now),
            final(self)@.socket.base == old(self)@.socket.base,
            final(self)@.socket.calls == old(self)@.socket.counted(now),
            final(self)@.expire == old(self)@.expire,
            final(self)@.socket.last_update == if r is Ok {
                now
            } else {
                old(self)@.socket.last_update
            },
            final(self)@.socket.tuning() == old(self)@.socket.tuning(),
            !old(self)@.socket.shut(now) && screened(buf@) && single_segment(
                old(self)@.socket.conv(),
                old(self)@.socket.waiting_conv(),
                buf@,
            ) ==> r is Ok,
            first_sight_refusal(
                old(self)@.socket.conv(),
                old(self)@.socket.waiting_conv(),
                buf@,
            ) is Some ==> r is Err,
            old(self)@.socket.closed ==> final(self)@ == old(self)@,
            !screened(buf@) ==> final(self)@.socket.engine == old(self)@.socket.engine,
    {
        self.socket.input(buf, now)
    }

    /// Queues a message for the peer. The answer is `Closed` exactly where
    /// the session was closed or worn out or the link is dead, and then the
    /// session is closed; else a message is refused only where it is too
    /// big for the engine, which one of `PKT_SIZE` bytes never is.
    pub fn send(&mut self, buf: &[u8], now: u32) -> (r: Result<usize, SessionError>)
        ensures
            r == send_spec(old(self)@.socket, buf@.len(), now),
            final(self)@.socket.closed <==> old(self)@.socket.shut(now) || old(self)@.socket.dead(),
            final(self)@.socket.last_update == old(self)@.socket.last_update,
            final(self)@.socket.base == old(self)@.socket.base,
            final(self)@.socket.calls == old(self)@.socket.counted(now),
            final(self)@.socket.conv() == old(self)@.socket.conv(),
            final(self)@.socket.waiting_conv() == old(self)@.socket.waiting_conv(),
            final(self)@.socket.tuning() == old(self)@.socket.tuning(),
            final(self)@.expire == old(self)@.expire,
    {
        self.socket.send(buf, now)
    }

    /// Copies the oldest complete message to the front of `buf`; 0 where
    /// nothing is queued.
    pub fn recv(&mut self, buf: &mut [u8]) -> (r: Result<usize, SessionError>)
        ensures
            r == recv_spec(old(self)@.socket, old(buf)@.len()),
            final(buf)@.len() == old(buf)@.len(),
            final(self)@.socket.closed == old(self)@.socket.closed,
            final(self)@.socket.last_update == old(self)@.socket.last_update,
            final(self)@.socket.base == old(self)@.socket.base,
            final(self)@.socket.calls == old(self)@.socket.calls,
            final(self)@.socket.dead() == old(self)@.socket.dead(),
            final(self)@.socket.tuning() == old(self)@.socket.tuning(),
            final(self)@.expire == old(self)@.expire,
            engine_recv(old(self)@.socket.engine, old(buf)@.len()) is Ok
                && !old(self)@.socket.closed ==> r is Ok && r->Ok_0 <= old(buf)@.len()
                && final(buf)@ == engine_next(old(self)@.socket.engine) + old(buf)@.skip(
                r->Ok_0 as int,
            ),
            !(engine_recv(old(self)@.socket.engine, old(buf)@.len()) is Ok
                && !old(self)@.socket.closed) ==> final(buf)@ == old(buf)@,
            !(engine_recv(old(self)@.socket.engine, old(buf)@.len()) is Ok
                && !old(self)@.socket.closed) ==> final(self)@ == old(self)@,
    {
        self.socket.recv(buf)
    }

    /// One poll of a wait for a message that began at `started` and may last
    /// `timeout` ms. A closed session ends the wait at once.
    pub fn recv_timeout(&mut self, buf: &mut [u8], started: u32, timeout: u32, now: u32) -> (r:
        RecvPoll)
        ensures
            r == poll_spec(old(self)@, old(buf)@.len(), started, timeout, now),
            final(buf)@.len() == old(buf)@.len(),
            final(self)@.socket.closed == old(self)@.socket.closed,
            final(self)@.socket.last_update == old(self)@.socket.last_update,
            final(self)@.socket.base == old(self)@.socket.base,
            final(self)@.socket.calls == old(self)@.socket.calls,
            final(self)@.socket.dead() == old(self)@.socket.dead(),
            final(self)@.socket.tuning() == old(self)@.socket.tuning(),
            final(self)@.expire == old(self)@.expire,
            r matches RecvPoll::Got(n) ==> 0 < n <= old(buf)@.len() && final(buf)@ == engine_next(
                old(self)@.socket.engine,
            ) + old(buf)@.skip(n as int),
            !(r is Got) ==> final(buf)@ == old(buf)@,
            old(self)@.socket.closed || timed_out(started, timeout, now) || engine_recv(
                old(self)@.socket.engine,
                old(buf)@.len(),
            ) is Err ==> final(self)@ == old(self)@,
    {
        if self.socket.closed() {
            return RecvPoll::Closed;
        }
        if elapsed(now, started) >= timeout {
            return RecvPoll::TimedOut;
        }
        match self.socket.recv(buf) {
            Ok(n) => {
                if n > 0 {
                    RecvPoll::Got(n)
                } else {
                    RecvPoll::Again
                }
            },
            Err(_) => RecvPoll::Closed,
        }
    }

    /// The timer task's turn: runs the engine's timers, and closes a session
    /// that has idled for too long, whose link is dead, or that is worn out.
    pub fn run_timers(&mut self, now: u32) -> (step: UpdaterStep)
        ensures
            old(self)@.socket.closed ==> step == UpdaterStep::Exit && final(self)@ == old(self)@,
            final(self)@.expire == old(self)@.expire,
            final(self)@.socket.last_update == old(self)@.socket.last_update,
            final(self)@.socket.base == old(self)@.socket.base,
            final(self)@.socket.calls == old(self)@.socket.counted(now),
            final(self)@.socket.tuning() == old(self)@.socket.tuning(),
            step == UpdaterStep::Exit <==> final(self)@.socket.closed,
            final(self)@.socket.closed <==> old(self)@.socket.shut(now) || idle_too_long(
                old(self)@,
                now,
            ) || final(self)@.socket.dead(),
            step matches UpdaterStep::Sleep(due) ==> due == UPDATE_RETRY || (due
                == final(self).due_in(now) && due <= old(self)@.socket.tuning().interval),
            engine_quiet(old(self)@.socket.engine) ==> final(self)@.socket.dead()
                == old(self)@.socket.dead(),
            engine_quiet(old(self)@.socket.engine) && !final(self)@.socket.closed ==> step
                == UpdaterStep::Sleep(final(self).due_in(now)) && engine_quiet(
                final(self)@.socket.engine,
            ),
    {
        if self.socket.closed() {
            return UpdaterStep::Exit;
        }
        let answer = self.socket.update(now);
        let idle = elapsed(now, self.socket.last_update()) > self.expire;
        let dead = self.socket.dead();
        let step = timer_step(answer, idle, dead);
        match step {
            UpdaterStep::Exit => {
                self.socket.close();
            },
            UpdaterStep::Sleep(_) => {},
        }
        step
    }

    /// In how many ms the engine's timers are due again at tick `now`.
    pub closed spec fn due_in(&self, now: u32) -> u32 {
        self.socket.due_in(now)
    }

    /// The receiving task's turn with one datagram from the socket.
    /// `from_peer` says whether it came from the peer's address.
    pub fn ingest(&mut self, pkt: &[u8], from_peer: bool, now: u32) -> (step: IngressStep)
        ensures
            step == ingest_spec(old(self)@, pkt@, from_peer, now),
            final(self)@.expire == old(self)@.expire,
            final(self)@.socket.base == old(self)@.socket.base,
            final(self)@.socket.calls == if step == IngressStep::Dropped {
                old(self)@.socket.calls
            } else {
                old(self)@.socket.counted(now)
            },
            final(self)@.socket.last_update == if step == IngressStep::Fed {
                now
            } else {
                old(self)@.socket.last_update
            },
            step == IngressStep::Dropped ==> final(self)@ == old(self)@,
            final(self)@.socket.closed == (old(self)@.socket.closed || (step
                == IngressStep::Exit)),
            final(self)@.socket.tuning() == old(self)@.socket.tuning(),
    {
        if !from_peer {
            return IngressStep::Dropped;
        }
        if pkt.len() < ARQ_OVERHEAD {
            return IngressStep::Dropped;
        }
        match self.socket.input(pkt, now) {
            Ok(()) => IngressStep::Fed,
            Err(SessionError::Closed) => IngressStep::Exit,
            Err(_) => IngressStep::Refused,
        }
    }

    /// Carries out a step of the admission on this session: sends what the
    /// step asks for, and closes the session where the admission failed or
    /// the step's message could not be sent. Returns how the admission
    /// ended, if it has ended.
    pub fn carry_out(&mut self, step: &AuthStep, now: u32) -> (outcome: Option<
        Result<u32, AuthError>,
    >)
        ensures
            outcome == carry_out_spec(old(self)@.socket, *step, now),
            final(self)@.socket.closed == (old(self)@.socket.closed || outcome matches Some(
                Err(_),
            )),
            final(self)@.socket.last_update == old(self)@.socket.last_update,
            final(self)@.socket.base == old(self)@.socket.base,
            final(self)@.socket.calls == if step.send is Some {
                old(self)@.socket.counted(now)
            } else {
                old(self)@.socket.calls
            },
            final(self)@.socket.tuning() == old(self)@.socket.tuning(),
            final(self)@.expire == old(self)@.expire,
    {
        let sent = match &step.send {
            Some(bytes) => self.socket.send(bytes.as_slice(), now).is_ok(),
            None => true,
        };
        match step.outcome {
            Some(Ok(token)) => {
                if sent {
                    Some(Ok(token))
                } else {
                    self.socket.close();
                    Some(Err(AuthError::AuthFailed))
                }
            },
            Some(Err(_)) => {
                self.socket.close();
                Some(Err(AuthError::AuthFailed))
            },
            None => {
                if sent {
                    None
                } else {
                    self.socket.close();
                    Some(Err(AuthError::AuthFailed))
                }
            },
        }
    }

    /// Closes the session. It never opens again.
    pub fn close(&mut self)
        ensures
            final(self)@ == (SessionState {
                socket: SocketState { closed: true, ..old(self)@.socket },
                ..old(self)@
            }),
    {
        self.socket.close();
    }

    pub fn closed(&self) -> (b: bool)
        ensures
            b == self@.socket.closed,
    {
        self.socket.closed()
    }
}

/// What becomes of a datagram that the socket of a session received.
pub open spec fn ingest_spec(
    s: SessionState,
    datagram: Seq<u8>,
    from_peer: bool,
    now: u32,
) -> IngressStep {
    if !from_peer || datagram.len() < ARQ_OVERHEAD {
        IngressStep::Dropped
    } else {
        match input_spec(s.socket, datagram, now) {
            Ok(()) => IngressStep::Fed,
            Err(SessionError::Closed) => IngressStep::Exit,
            Err(_) => IngressStep::Refused,
        }
    }
}

} // verus!
