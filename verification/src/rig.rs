//! The radio's side of the keying server: operating modes, the commands of
//! the CAT line and what its answers mean, and the watch over a tuning run.
//!
//! Nothing here opens a port. The caller writes the commands and hands back
//! what it read.

use crate::text::{
    concat3, decimal_string, decimal_text, find_spec, find_text, parse_number, parse_number_spec,
    slice, str_eq, tail,
};
use vstd::prelude::*;
use vstd::string::*;

verus! {

/// Lowest frequency that can be set, in Hz.
pub const FREQ_MIN: usize = 30_000;

/// Highest frequency that can be set, in Hz.
pub const FREQ_MAX: usize = 75_000_000;

/// Lowest power that can be set, in W.
pub const POWER_MIN: usize = 5;

/// Highest power that can be set, in W.
pub const POWER_MAX: usize = 100;

/// The power at which the tuner is run, in W.
pub const TUNE_POWER: usize = 10;

/// A reading below this counts as matched.
pub const SWR_GOOD: usize = 50;

/// Matched readings after which a tuning run ends.
pub const SWR_GOOD_COUNT: u32 = 10;

/// Longest tuning run, in ms.
pub const TUNE_TIMEOUT: u32 = 5_000;

/// Why the radio control took or gave nothing.
#[derive(Clone, Copy, Debug, PartialEq, Eq, Structural)]
pub enum RigError {
    /// A mode of this name or code does not exist.
    UnknownMode,
    /// A frequency, power or step outside what the radio takes.
    OutOfRange,
    /// An answer that does not hold what was asked for.
    BadReply,
}

/// An operating mode.
#[derive(Clone, Copy, Debug, PartialEq, Eq, Structural)]
pub enum Mode {
    Lsb,
    Usb,
    CwU,
    CwL,
    Am,
    AmN,
    Fm,
    FmN,
    RttyU,
    RttyL,
    DataU,
    DataL,
    DataFm,
    DataFmN,
    Psk,
}

/// The name of a mode.
pub open spec fn mode_name(m: Mode) -> Seq<char> {
    match m {
        Mode::Lsb => "LSB"@,
        Mode::Usb => "USB"@,
        Mode::CwU => "CW-U"@,
        Mode::CwL => "CW-L"@,
        Mode::Am => "AM"@,
        Mode::AmN => "AM-N"@,
        Mode::Fm => "FM"@,
        Mode::FmN => "FM-N"@,
        Mode::RttyU => "RTTY-U"@,
        Mode::RttyL => "RTTY-L"@,
        Mode::DataU => "DATA-U"@,
        Mode::DataL => "DATA-L"@,
        Mode::DataFm => "DATA-FM"@,
        Mode::DataFmN => "DATA-FM-N"@,
        Mode::Psk => "PSK"@,
    }
}

/// The mode of a name.
pub open spec fn mode_of_name(s: Seq<char>) -> Option<Mode> {
    if s == "LSB"@ {
        Some(Mode::Lsb)
    } else if s == "USB"@ {
        Some(Mode::Usb)
    } else if s == "CW-U"@ {
        Some(Mode::CwU)
    } else if s == "CW-L"@ {
        Some(Mode::CwL)
    } else if s == "AM"@ {
        Some(Mode::Am)
    } else if s == "AM-N"@ {
        Some(Mode::AmN)
    } else if s == "FM"@ {
        Some(Mode::Fm)
    } else if s == "FM-N"@ {
        Some(Mode::FmN)
    } else if s == "RTTY-U"@ {
        Some(Mode::RttyU)
    } else if s == "RTTY-L"@ {
        Some(Mode::RttyL)
    } else if s == "DATA-U"@ {
        Some(Mode::DataU)
    } else if s == "DATA-L"@ {
        Some(Mode::DataL)
    } else if s == "DATA-FM"@ {
        Some(Mode::DataFm)
    } else if s == "DATA-FM-N"@ {
        Some(Mode::DataFmN)
    } else if s == "PSK"@ {
        Some(Mode::Psk)
    } else {
        None
    }
}

/// The character that stands for a mode on the CAT line.
pub open spec fn mode_code(m: Mode) -> char {
    match m {
        Mode::Lsb => '1',
        Mode::Usb => '2',
        Mode::CwU => '3',
        Mode::Fm => '4',
        Mode::Am => '5',
        Mode::RttyL => '6',
        Mode::CwL => '7',
        Mode::DataL => '8',
        Mode::RttyU => '9',
        Mode::DataFm => 'A',
        Mode::FmN => 'B',
        Mode::DataU => 'C',
        Mode::AmN => 'D',
        Mode::Psk => 'E',
        Mode::DataFmN => 'F',
    }
}

/// The mode that a character of the CAT line stands for.
pub open spec fn mode_of_code(c: char) -> Option<Mode> {
    if c == '1' {
        Some(Mode::Lsb)
    } else if c == '2' {
        Some(Mode::Usb)
    } else if c == '3' {
        Some(Mode::CwU)
    } else if c == '4' {
        Some(Mode::Fm)
    } else if c == '5' {
        Some(Mode::Am)
    } else if c == '6' {
        Some(Mode::RttyL)
    } else if c == '7' {
        Some(Mode::CwL)
    } else if c == '8' {
        Some(Mode::DataL)
    } else if c == '9' {
        Some(Mode::RttyU)
    } else if c == 'A' {
        Some(Mode::DataFm)
    } else if c == 'B' {
        Some(Mode::FmN)
    } else if c == 'C' {
        Some(Mode::DataU)
    } else if c == 'D' {
        Some(Mode::AmN)
    } else if c == 'E' {
        Some(Mode::Psk)
    } else if c == 'F' {
        Some(Mode::DataFmN)
    } else {
        None
    }
}

impl Mode {
    /// The name of the mode.
    pub fn to_str(&self) -> (s: &'static str)
        ensures
            s@ == mode_name(*self),
    {
        match self {
            Mode::Lsb => "LSB",
            Mode::Usb => "USB",
            Mode::CwU => "CW-U",
            Mode::CwL => "CW-L",
            Mode::Am => "AM",
            Mode::AmN => "AM-N",
            Mode::Fm => "FM",
            Mode::FmN => "FM-N",
            Mode::RttyU => "RTTY-U",
            Mode::RttyL => "RTTY-L",
            Mode::DataU => "DATA-U",
            Mode::DataL => "DATA-L",
            Mode::DataFm => "DATA-FM",
            Mode::DataFmN => "DATA-FM-N",
            Mode::Psk => "PSK",
        }
    }

    /// The mode of a name.
    pub fn from_str(s: &str) -> (r: Result<Self, RigError>)
        ensures
            r == match mode_of_name(s@) {
                Some(m) => Ok::<Mode, RigError>(m),
                None => Err::<Mode, RigError>(RigError::UnknownMode),
            },
    {
        if str_eq(s, "LSB") {
            Ok(Mode::Lsb)
        } else if str_eq(s, "USB") {
            Ok(Mode::Usb)
        } else if str_eq(s, "CW-U") {
            Ok(Mode::CwU)
        } else if str_eq(s, "CW-L") {
            Ok(Mode::CwL)
        } else if str_eq(s, "AM") {
            Ok(Mode::Am)
        } else if str_eq(s, "AM-N") {
            Ok(Mode::AmN)
        } else if str_eq(s, "FM") {
            Ok(Mode::Fm)
        } else if str_eq(s, "FM-N") {
            Ok(Mode::FmN)
        } else if str_eq(s, "RTTY-U") {
            Ok(Mode::RttyU)
        } else if str_eq(s, "RTTY-L") {
            Ok(Mode::RttyL)
        } else if str_eq(s, "DATA-U") {
            Ok(Mode::DataU)
        } else if str_eq(s, "DATA-L") {
            Ok(Mode::DataL)
        } else if str_eq(s, "DATA-FM") {
            Ok(Mode::DataFm)
        } else if str_eq(s, "DATA-FM-N") {
            Ok(Mode::DataFmN)
        } else if str_eq(s, "PSK") {
            Ok(Mode::Psk)
        } else {
            Err(RigError::UnknownMode)
        }
    }

    /// The character that stands for the mode on the CAT line.
    pub fn mode2str(&self) -> (c: char)
        ensures
            c == mode_code(*self),
    {
        match self {
            Mode::Lsb => '1',
            Mode::Usb => '2',
            Mode::CwU => '3',
            Mode::Fm => '4',
            Mode::Am => '5',
            Mode::RttyL => '6',
            Mode::CwL => '7',
            Mode::DataL => '8',
            Mode::RttyU => '9',
            Mode::DataFm => 'A',
            Mode::FmN => 'B',
            Mode::DataU => 'C',
            Mode::AmN => 'D',
            Mode::Psk => 'E',
            Mode::DataFmN => 'F',
        }
    }

    /// The mode that a character of the CAT line stands for.
    pub fn str2mode(c: char) -> (r: Result<Self, RigError>)
        ensures
            r == match mode_of_code(c) {
                Some(m) => Ok::<Mode, RigError>(m),
                None => Err::<Mode, RigError>(RigError::UnknownMode),
            },
    {
        if c == '1' {
            Ok(Mode::Lsb)
        } else if c == '2' {
            Ok(Mode::Usb)
        } else if c == '3' {
            Ok(Mode::CwU)
        } else if c == '4' {
            Ok(Mode::Fm)
        } else if c == '5' {
            Ok(Mode::Am)
        } else if c == '6' {
            Ok(Mode::RttyL)
        } else if c == '7' {
            Ok(Mode::CwL)
        } else if c == '8' {
            Ok(Mode::DataL)
        } else if c == '9' {
            Ok(Mode::RttyU)
        } else if c == 'A' {
            Ok(Mode::DataFm)
        } else if c == 'B' {
            Ok(Mode::FmN)
        } else if c == 'C' {
            Ok(Mode::DataU)
        } else if c == 'D' {
            Ok(Mode::AmN)
        } else if c == 'E' {
            Ok(Mode::Psk)
        } else if c == 'F' {
            Ok(Mode::DataFmN)
        } else {
            Err(RigError::UnknownMode)
        }
    }
}

/// Every mode is found again by its name and by its code.
pub proof fn lemma_mode_round_trip(m: Mode)
    ensures
        mode_of_name(mode_name(m)) == Some(m),
        mode_of_code(mode_code(m)) == Some(m),
{
    reveal_strlit("LSB");
    reveal_strlit("USB");
    reveal_strlit("CW-U");
    reveal_strlit("CW-L");
    reveal_strlit("AM");
    reveal_strlit("AM-N");
    reveal_strlit("FM");
    reveal_strlit("FM-N");
    reveal_strlit("RTTY-U");
    reveal_strlit("RTTY-L");
    reveal_strlit("DATA-U");
    reveal_strlit("DATA-L");
    reveal_strlit("DATA-FM");
    reveal_strlit("DATA-FM-N");
    reveal_strlit("PSK");
    assert("LSB"@.len() == 3 && "USB"@.len() == 3 && "PSK"@.len() == 3);
    assert("CW-U"@.len() == 4 && "CW-L"@.len() == 4 && "AM-N"@.len() == 4 && "FM-N"@.len() == 4);
    assert("AM"@.len() == 2 && "FM"@.len() == 2);
    assert("RTTY-U"@.len() == 6 && "RTTY-L"@.len() == 6 && "DATA-U"@.len() == 6 && "DATA-L"@.len()
        == 6);
    assert("DATA-FM"@.len() == 7 && "DATA-FM-N"@.len() == 9);
    assert("LSB"@[0] != "USB"@[0]);
    assert("CW-U"@[3] != "CW-L"@[3]);
    assert("RTTY-U"@[5] != "RTTY-L"@[5]);
    assert("DATA-U"@[5] != "DATA-L"@[5]);
    assert("DATA-U"@[0] != "RTTY-U"@[0]);
    assert("DATA-L"@[0] != "RTTY-L"@[0]);
    assert("DATA-U"@[0] != "RTTY-L"@[0]);
    assert("DATA-L"@[0] != "RTTY-U"@[0]);
    assert("AM"@[0] != "FM"@[0]);
    assert("AM-N"@[0] != "FM-N"@[0]);
    assert("AM-N"@[0] != "CW-U"@[0]);
    assert("AM-N"@[0] != "CW-L"@[0]);
    assert("FM-N"@[0] != "CW-U"@[0]);
    assert("FM-N"@[0] != "CW-L"@[0]);
    assert("PSK"@[0] != "LSB"@[0]);
    assert("PSK"@[0] != "USB"@[0]);
}

/// As many zeros as a number lacks digits to fill `width`.
pub open spec fn zeros(count: int) -> Seq<char>
    decreases count,
{
    if count <= 0 {
        Seq::empty()
    } else {
        zeros(count - 1).push('0')
    }
}

/// A number in decimal, with zeros in front up to `width` characters.
pub open spec fn padded_text(n: nat, width: nat) -> Seq<char> {
    zeros(width - decimal_text(n).len()) + decimal_text(n)
}

/// Writes a number in decimal, with zeros in front up to `width` characters.
pub fn pad_decimal(n: u64, width: usize) -> (r: String)
    ensures
        r@ == padded_text(n as nat, width as nat),
{
    proof {
        reveal_strlit("0");
    }
    let digits = decimal_string(n);
    let len: usize = digits.as_str().unicode_len();
    let mut r = String::new();
    let mut i: usize = len;
    assert(r@ =~= zeros(0));
    while i < width
        invariant
            len <= i,
            i > len ==> i <= width,
            r@ == zeros(i - len),
        decreases width - i,
    {
        proof {
            reveal_strlit("0");
        }
        let ghost before = r@;
        r.append("0");
        assert("0"@ =~= seq!['0']);
        assert(r@ =~= before.push('0'));
        i += 1;
    }
    assert(zeros(i - len) == zeros(width - len));
    r.append(digits.as_str());
    r
}

/// The command that sets a VFO to a frequency.
pub open spec fn set_freq_spec(vfoa: bool, freq: usize) -> Result<Seq<char>, RigError> {
    if FREQ_MIN <= freq <= FREQ_MAX {
        Ok(
            (if vfoa {
                "FA"@
            } else {
                "FB"@
            }) + padded_text(freq as nat, 9) + ";"@,
        )
    } else {
        Err(RigError::OutOfRange)
    }
}

/// The command that sets the power.
pub open spec fn set_power_spec(power: usize) -> Result<Seq<char>, RigError> {
    if POWER_MIN <= power <= POWER_MAX {
        Ok("PC"@ + padded_text(power as nat, 3) + ";"@)
    } else {
        Err(RigError::OutOfRange)
    }
}

/// The command that turns the dial by `step` clicks.
pub open spec fn encoder_spec(up: bool, main: bool, step: usize) -> Result<Seq<char>, RigError> {
    if 1 <= step <= 99 {
        Ok(
            (if up {
                "EU"@
            } else {
                "ED"@
            }) + (if main {
                "0"@
            } else {
                "1"@
            }) + padded_text(step as nat, 2) + ";"@,
        )
    } else {
        Err(RigError::OutOfRange)
    }
}

/// The text of a result, as the contracts see it.
pub open spec fn text_view(r: Result<String, RigError>) -> Result<Seq<char>, RigError> {
    match r {
        Ok(s) => Ok(s@),
        Err(e) => Err(e),
    }
}

/// The command that asks a VFO for its frequency.
pub fn get_freq_command(vfoa: bool) -> (c: &'static str)
    ensures
        c@ == if vfoa {
            "FA;"@
        } else {
            "FB"@
        },
{
    if vfoa {
        "FA;"
    } else {
        "FB"
    }
}

/// The command that sets a VFO to a frequency between `FREQ_MIN` and
/// `FREQ_MAX`.
pub fn set_freq_command(vfoa: bool, freq: usize) -> (r: Result<String, RigError>)
    ensures
        text_view(r) == set_freq_spec(vfoa, freq),
{
    if freq < FREQ_MIN || freq > FREQ_MAX {
        return Err(RigError::OutOfRange);
    }
    let digits = pad_decimal(freq as u64, 9);
    Ok(concat3(if vfoa {
        "FA"
    } else {
        "FB"
    }, digits.as_str(), ";"))
}

/// The command that sets the power to between `POWER_MIN` and `POWER_MAX`.
pub fn set_power_command(power: usize) -> (r: Result<String, RigError>)
    ensures
        text_view(r) == set_power_spec(power),
{
    if power < POWER_MIN || power > POWER_MAX {
        return Err(RigError::OutOfRange);
    }
    let digits = pad_decimal(power as u64, 3);
    Ok(concat3("PC", digits.as_str(), ";"))
}

/// The command that turns the dial of the main or the other VFO up or down
/// by 1 to 99 clicks.
pub fn encoder_command(up: bool, main: bool, step: usize) -> (r: Result<String, RigError>)
    ensures
        text_view(r) == encoder_spec(up, main, step),
{
    if step < 1 || step > 99 {
        return Err(RigError::OutOfRange);
    }
    let digits = pad_decimal(step as u64, 2);
    let mut r = String::from_str(if up {
        "EU"
    } else {
        "ED"
    });
    r.append(if main {
        "0"
    } else {
        "1"
    });
    r.append(digits.as_str());
    r.append(";");
    Ok(r)
}

/// The command that sets the mode.
pub fn set_mode_command(mode: Mode) -> (r: String)
    ensures
        r@ == "MD0"@ + seq![mode_code(mode)] + ";"@,
{
    proof {
        reveal_strlit("1");
        reveal_strlit("2");
        reveal_strlit("3");
        reveal_strlit("4");
        reveal_strlit("5");
        reveal_strlit("6");
        reveal_strlit("7");
        reveal_strlit("8");
        reveal_strlit("9");
        reveal_strlit("A");
        reveal_strlit("B");
        reveal_strlit("C");
        reveal_strlit("D");
        reveal_strlit("E");
        reveal_strlit("F");
    }
    let code: &'static str = match mode {
        Mode::Lsb => "1",
        Mode::Usb => "2",
        Mode::CwU => "3",
        Mode::Fm => "4",
        Mode::Am => "5",
        Mode::RttyL => "6",
        Mode::CwL => "7",
        Mode::DataL => "8",
        Mode::RttyU => "9",
        Mode::DataFm => "A",
        Mode::FmN => "B",
        Mode::DataU => "C",
        Mode::AmN => "D",
        Mode::Psk => "E",
        Mode::DataFmN => "F",
    };
    assert(code@ =~= seq![mode_code(mode)]);
    concat3("MD0", code, ";")
}

/// What of an answer belongs to a command: all from the first place at which
/// the two letters of the command stand.
pub open spec fn reply_body_spec(buf: Seq<char>, command: Seq<char>) -> Option<Seq<char>> {
    if command.len() < 2 {
        None
    } else {
        match find_spec(buf, command.take(2), 0) {
            Some(at) => Some(buf.skip(at)),
            None => None,
        }
    }
}

/// The number that stands in an answer from `from` up to `to`.
pub open spec fn reply_number_spec(reply: Seq<char>, from: int, to: int) -> Result<nat, RigError> {
    if reply.len() < to {
        Err(RigError::BadReply)
    } else {
        match parse_number_spec(reply.subrange(from, to), u32::MAX as nat) {
            Some(v) => Ok(v),
            None => Err(RigError::BadReply),
        }
    }
}

/// The mode that an answer to `MD0;` names.
pub open spec fn reply_mode_spec(reply: Seq<char>) -> Result<Mode, RigError> {
    if reply.len() < 4 {
        Err(RigError::BadReply)
    } else {
        match mode_of_code(reply[3]) {
            Some(m) => Ok(m),
            None => Err(RigError::BadReply),
        }
    }
}

/// What of an answer belongs to a command.
pub fn reply_body<'a>(buf: &'a str, command: &str) -> (r: Option<&'a str>)
    ensures
        match r {
            Some(body) => reply_body_spec(buf@, command@) == Some(body@),
            None => reply_body_spec(buf@, command@) is None,
        },
{
    if command.unicode_len() < 2 {
        return None;
    }
    let total = buf.unicode_len();
    let head = slice(command, 0, 2);
    assert(head@ =~= command@.take(2));
    match find_text(buf, head, 0) {
        Some(at) => Some(tail(buf, at)),
        None => None,
    }
}

/// The number that stands in an answer from `from` up to `to`.
pub fn reply_number(reply: &str, from: usize, to: usize) -> (r: Result<usize, RigError>)
    requires
        from <= to,
    ensures
        match r {
            Ok(v) => reply_number_spec(reply@, from as int, to as int) == Ok::<nat, RigError>(
                v as nat,
            ),
            Err(e) => reply_number_spec(reply@, from as int, to as int) == Err::<nat, RigError>(e),
        },
{
    if reply.unicode_len() < to {
        return Err(RigError::BadReply);
    }
    match parse_number(slice(reply, from, to), u32::MAX) {
        Some(v) => Ok(v as usize),
        None => Err(RigError::BadReply),
    }
}

/// The frequency in an answer to `FA;`.
pub fn parse_freq(reply: &str) -> (r: Result<usize, RigError>)
    ensures
        match r {
            Ok(v) => reply_number_spec(reply@, 2, 11) == Ok::<nat, RigError>(v as nat),
            Err(e) => reply_number_spec(reply@, 2, 11) == Err::<nat, RigError>(e),
        },
{
    reply_number(reply, 2, 11)
}

/// The power in an answer to `PC;`.
pub fn parse_power(reply: &str) -> (r: Result<usize, RigError>)
    ensures
        match r {
            Ok(v) => reply_number_spec(reply@, 2, 5) == Ok::<nat, RigError>(v as nat),
            Err(e) => reply_number_spec(reply@, 2, 5) == Err::<nat, RigError>(e),
        },
{
    reply_number(reply, 2, 5)
}

/// The standing-wave reading in an answer to `RM6;`.
pub fn parse_swr(reply: &str) -> (r: Result<usize, RigError>)
    ensures
        match r {
            Ok(v) => reply_number_spec(reply@, 3, 6) == Ok::<nat, RigError>(v as nat),
            Err(e) => reply_number_spec(reply@, 3, 6) == Err::<nat, RigError>(e),
        },
{
    reply_number(reply, 3, 6)
}

/// The mode in an answer to `MD0;`.
pub fn parse_mode(reply: &str) -> (r: Result<Mode, RigError>)
    ensures
        r == reply_mode_spec(reply@),
{
    if reply.unicode_len() < 4 {
        return Err(RigError::BadReply);
    }
    match Mode::str2mode(reply.get_char(3)) {
        Ok(m) => Ok(m),
        Err(_) => Err(RigError::BadReply),
    }
}

/// What the caller does next in a tuning run.
#[derive(Clone, Copy, Debug, PartialEq, Eq, Structural)]
pub enum TuneStep {
    /// Sleep 200 ms and read the standing-wave ratio again.
    Again,
    /// The run has ended with this reading; 0 where the radio gave none.
    Done(usize),
}

/// The watch over a tuning run: counts the matched readings.
#[derive(Clone, Copy, Debug, PartialEq, Eq, Structural)]
pub struct TuneWatch {
    pub good: u32,
}

/// The step after a reading, and the count of matched readings then.
pub open spec fn tune_spec(good: u32, reading: Option<usize>, elapsed: u32) -> (u32, TuneStep) {
    match reading {
        None => (good, TuneStep::Done(0)),
        Some(swr) => {
            let count = if swr < SWR_GOOD && good < u32::MAX {
                (good + 1) as u32
            } else {
                good
            };
            if count > SWR_GOOD_COUNT || elapsed > TUNE_TIMEOUT {
                (count, TuneStep::Done(swr))
            } else {
                (count, TuneStep::Again)
            }
        },
    }
}

impl TuneWatch {
    /// A watch at the start of a run.
    pub fn new() -> (w: Self)
        ensures
            w.good == 0,
    {
        TuneWatch { good: 0 }
    }

    /// Takes a reading, `None` where the radio gave none, `elapsed` ms into
    /// the run: the run ends without a reading, after more than
    /// `SWR_GOOD_COUNT` matched readings, and after `TUNE_TIMEOUT`.
    pub fn on_reading(&mut self, reading: Option<usize>, elapsed: u32) -> (step: TuneStep)
        ensures
            (final(self).good, step) == tune_spec(old(self).good, reading, elapsed),
    {
        match reading {
            None => TuneStep::Done(0),
            Some(swr) => {
                if swr < SWR_GOOD && self.good < u32::MAX {
                    self.good = self.good + 1;
                }
                if self.good > SWR_GOOD_COUNT || elapsed > TUNE_TIMEOUT {
                    TuneStep::Done(swr)
                } else {
                    TuneStep::Again
                }
            },
        }
    }
}

} // verus!
