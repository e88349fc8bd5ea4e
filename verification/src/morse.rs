//! Text as Morse code: which elements a character has, and how long the key
//! is pressed and left for each.

use crate::keyer::MSPERWPM;
use vstd::prelude::*;
use vstd::string::*;

verus! {

/// One thing that the player of a text does with the key.
#[derive(Clone, Copy, Debug, PartialEq, Eq, Structural)]
pub enum KeyOp {
    /// Press the key, wait this many ms, release it.
    Assert(u64),
    /// Wait this many ms.
    Pause(u64),
}

/// The capital of a small ASCII letter, and every other character as it is.
pub open spec fn upper(c: char) -> char {
    if 'a' <= c <= 'z' {
        ((c as u32) - 0x20) as char
    } else {
        c
    }
}

/// The code of a character that is written in capitals: how many elements
/// it has, and which of them, from the lowest bit on, are dashes.
pub open spec fn code_of(c: char) -> Option<(u8, u8)> {
    if c == '0' {
        Some((5u8, 0x1fu8))
    } else if c == '1' {
        Some((5u8, 0x1eu8))
    } else if c == '2' {
        Some((5u8, 0x1cu8))
    } else if c == '3' {
        Some((5u8, 0x18u8))
    } else if c == '4' {
        Some((5u8, 0x10u8))
    } else if c == '5' {
        Some((5u8, 0x00u8))
    } else if c == '6' {
        Some((5u8, 0x01u8))
    } else if c == '7' {
        Some((5u8, 0x03u8))
    } else if c == '8' {
        Some((5u8, 0x07u8))
    } else if c == '9' {
        Some((5u8, 0x0fu8))
    } else if c == 'A' {
        Some((2u8, 0x02u8))
    } else if c == 'B' {
        Some((4u8, 0x01u8))
    } else if c == 'C' {
        Some((4u8, 0x05u8))
    } else if c == 'D' {
        Some((3u8, 0x01u8))
    } else if c == 'E' {
        Some((1u8, 0x00u8))
    } else if c == 'F' {
        Some((4u8, 0x04u8))
    } else if c == 'G' {
        Some((3u8, 0x03u8))
    } else if c == 'H' {
        Some((4u8, 0x00u8))
    } else if c == 'I' {
        Some((2u8, 0x00u8))
    } else if c == 'J' {
        Some((4u8, 0x0eu8))
    } else if c == 'K' {
        Some((3u8, 0x05u8))
    } else if c == 'L' {
        Some((4u8, 0x02u8))
    } else if c == 'M' {
        Some((2u8, 0x03u8))
    } else if c == 'N' {
        Some((2u8, 0x01u8))
    } else if c == 'O' {
        Some((3u8, 0x07u8))
    } else if c == 'P' {
        Some((4u8, 0x06u8))
    } else if c == 'Q' {
        Some((4u8, 0x0bu8))
    } else if c == 'R' {
        Some((3u8, 0x02u8))
    } else if c == 'S' {
        Some((3u8, 0x00u8))
    } else if c == 'T' {
        Some((1u8, 0x01u8))
    } else if c == 'U' {
        Some((3u8, 0x04u8))
    } else if c == 'V' {
        Some((4u8, 0x08u8))
    } else if c == 'W' {
        Some((3u8, 0x06u8))
    } else if c == 'X' {
        Some((4u8, 0x09u8))
    } else if c == 'Y' {
        Some((4u8, 0x0du8))
    } else if c == 'Z' {
        Some((4u8, 0x03u8))
    } else if c == '/' {
        Some((5u8, 0x09u8))
    } else if c == '?' {
        Some((6u8, 0x0cu8))
    } else if c == '.' {
        Some((6u8, 0x2au8))
    } else if c == ',' {
        Some((6u8, 0x33u8))
    } else if c == '=' {
        Some((5u8, 0x11u8))
    } else if c == '!' {
        Some((6u8, 0x35u8))
    } else if c == '+' {
        Some((5u8, 0x0au8))
    } else if c == '-' {
        Some((6u8, 0x21u8))
    } else {
        None
    }
}

/// The settings of a player, as the contracts see them.
pub struct KeyerSpec {
    /// Length of a dash in dots.
    pub ratio: u32,
    /// Pause behind a character in dots.
    pub letter_space: u32,
    /// Pause for a blank in dots.
    pub word_space: u32,
    /// Length of a dot in ms.
    pub tick: u32,
}

/// The first `count` elements of a code, each followed by a pause of one dot.
pub open spec fn elements(k: KeyerSpec, code: u8, count: int) -> Seq<KeyOp>
    decreases count,
{
    if count <= 0 {
        Seq::empty()
    } else {
        elements(k, code, count - 1) + seq![
            KeyOp::Assert(
                if (code >> ((count - 1) as u8)) & 1u8 == 0 {
                    k.tick as u64
                } else {
                    (k.tick * k.ratio) as u64
                },
            ),
            KeyOp::Pause(k.tick as u64),
        ]
    }
}

/// What the player does for one character: its elements, or nothing where
/// it has no code.
pub open spec fn play_straight_spec(k: KeyerSpec, c: char) -> Seq<KeyOp> {
    match code_of(upper(c)) {
        Some((len, code)) => elements(k, code, len as int),
        None => Seq::empty(),
    }
}

/// What the player does for one character of a text: a pause for a blank,
/// a second for `#`, and else the character and the pause behind it.
pub open spec fn play_char_spec(k: KeyerSpec, c: char) -> Seq<KeyOp> {
    if c == ' ' {
        seq![KeyOp::Pause((k.tick * k.word_space) as u64)]
    } else if c == '#' {
        seq![KeyOp::Pause(1000)]
    } else {
        play_straight_spec(k, c) + seq![KeyOp::Pause((k.tick * k.letter_space) as u64)]
    }
}

/// What the player does for a text.
pub open spec fn play_spec(k: KeyerSpec, message: Seq<char>) -> Seq<KeyOp>
    decreases message.len(),
{
    if message.len() == 0 {
        Seq::empty()
    } else {
        play_spec(k, message.drop_last()) + play_char_spec(k, message.last())
    }
}

/// The code of a character that is written in capitals.
pub fn morse_code(c: char) -> (r: Option<(u8, u8)>)
    ensures
        r == code_of(c),
{
    if c == '0' {
        Some((5, 0x1f))
    } else if c == '1' {
        Some((5, 0x1e))
    } else if c == '2' {
        Some((5, 0x1c))
    } else if c == '3' {
        Some((5, 0x18))
    } else if c == '4' {
        Some((5, 0x10))
    } else if c == '5' {
        Some((5, 0x00))
    } else if c == '6' {
        Some((5, 0x01))
    } else if c == '7' {
        Some((5, 0x03))
    } else if c == '8' {
        Some((5, 0x07))
    } else if c == '9' {
        Some((5, 0x0f))
    } else if c == 'A' {
        Some((2, 0x02))
    } else if c == 'B' {
        Some((4, 0x01))
    } else if c == 'C' {
        Some((4, 0x05))
    } else if c == 'D' {
        Some((3, 0x01))
    } else if c == 'E' {
        Some((1, 0x00))
    } else if c == 'F' {
        Some((4, 0x04))
    } else if c == 'G' {
        Some((3, 0x03))
    } else if c == 'H' {
        Some((4, 0x00))
    } else if c == 'I' {
        Some((2, 0x00))
    } else if c == 'J' {
        Some((4, 0x0e))
    } else if c == 'K' {
        Some((3, 0x05))
    } else if c == 'L' {
        Some((4, 0x02))
    } else if c == 'M' {
        Some((2, 0x03))
    } else if c == 'N' {
        Some((2, 0x01))
    } else if c == 'O' {
        Some((3, 0x07))
    } else if c == 'P' {
        Some((4, 0x06))
    } else if c == 'Q' {
        Some((4, 0x0b))
    } else if c == 'R' {
        Some((3, 0x02))
    } else if c == 'S' {
        Some((3, 0x00))
    } else if c == 'T' {
        Some((1, 0x01))
    } else if c == 'U' {
        Some((3, 0x04))
    } else if c == 'V' {
        Some((4, 0x08))
    } else if c == 'W' {
        Some((3, 0x06))
    } else if c == 'X' {
        Some((4, 0x09))
    } else if c == 'Y' {
        Some((4, 0x0d))
    } else if c == 'Z' {
        Some((4, 0x03))
    } else if c == '/' {
        Some((5, 0x09))
    } else if c == '?' {
        Some((6, 0x0c))
    } else if c == '.' {
        Some((6, 0x2a))
    } else if c == ',' {
        Some((6, 0x33))
    } else if c == '=' {
        Some((5, 0x11))
    } else if c == '!' {
        Some((6, 0x35))
    } else if c == '+' {
        Some((5, 0x0a))
    } else if c == '-' {
        Some((6, 0x21))
    } else {
        None
    }
}

/// The code of a character, small letters taken for capitals.
fn code_ignoring_case(c: char) -> (r: Option<(u8, u8)>)
    ensures
        r == code_of(upper(c)),
        r matches Some((len, _)) ==> len <= 6,
{
    let u: u32 = c as u32;
    if 0x61 <= u && u <= 0x7a {
        let code = if c == 'a' {
            morse_code('A')
        } else if c == 'b' {
            morse_code('B')
        } else if c == 'c' {
            morse_code('C')
        } else if c == 'd' {
            morse_code('D')
        } else if c == 'e' {
            morse_code('E')
        } else if c == 'f' {
            morse_code('F')
        } else if c == 'g' {
            morse_code('G')
        } else if c == 'h' {
            morse_code('H')
        } else if c == 'i' {
            morse_code('I')
        } else if c == 'j' {
            morse_code('J')
        } else if c == 'k' {
            morse_code('K')
        } else if c == 'l' {
            morse_code('L')
        } else if c == 'm' {
            morse_code('M')
        } else if c == 'n' {
            morse_code('N')
        } else if c == 'o' {
            morse_code('O')
        } else if c == 'p' {
            morse_code('P')
        } else if c == 'q' {
            morse_code('Q')
        } else if c == 'r' {
            morse_code('R')
        } else if c == 's' {
            morse_code('S')
        } else if c == 't' {
            morse_code('T')
        } else if c == 'u' {
            morse_code('U')
        } else if c == 'v' {
            morse_code('V')
        } else if c == 'w' {
            morse_code('W')
        } else if c == 'x' {
            morse_code('X')
        } else if c == 'y' {
            morse_code('Y')
        } else {
            morse_code('Z')
        };
        code
    } else {
        morse_code(c)
    }
}

/// Plays text in Morse code.
pub struct Keyer {
    ratio: u32,
    letter_space: u32,
    word_space: u32,
    tick: u32,
}

impl View for Keyer {
    type V = KeyerSpec;

    closed spec fn view(&self) -> KeyerSpec {
        KeyerSpec {
            ratio: self.ratio,
            letter_space: self.letter_space,
            word_space: self.word_space,
            tick: self.tick,
        }
    }
}

impl Keyer {
    /// A player at twenty words per minute, with dashes of three dots and
    /// pauses of three dots behind a character and seven for a blank.
    pub fn new() -> (k: Self)
        ensures
            k@ == (KeyerSpec { ratio: 3, letter_space: 3, word_space: 7, tick: 60 }),
    {
        Keyer { ratio: 3, word_space: 7, letter_space: 3, tick: MSPERWPM / 20 }
    }

    /// Sets the speed in words per minute.
    pub fn set_wpm(&mut self, wpm: u32)
        requires
            wpm > 0,
        ensures
            final(self)@ == (KeyerSpec { tick: (MSPERWPM / wpm) as u32, ..old(self)@ }),
    {
        self.tick = MSPERWPM / wpm;
    }

    /// Sets the length of a dash in dots.
    pub fn set_ratio(&mut self, ratio: u32)
        ensures
            final(self)@ == (KeyerSpec { ratio, ..old(self)@ }),
    {
        self.ratio = ratio;
    }

    /// Sets the pause behind a character in dots.
    pub fn set_letter_space(&mut self, ls: u32)
        ensures
            final(self)@ == (KeyerSpec { letter_space: ls, ..old(self)@ }),
    {
        self.letter_space = ls;
    }

    /// Sets the pause for a blank in dots.
    pub fn set_word_space(&mut self, ws: u32)
        ensures
            final(self)@ == (KeyerSpec { word_space: ws, ..old(self)@ }),
    {
        self.word_space = ws;
    }

    /// What to do with the key for one character.
    pub fn play_straight(&self, c: char) -> (ops: Vec<KeyOp>)
        ensures
            ops@ == play_straight_spec(self@, c),
    {
        let mut ops: Vec<KeyOp> = Vec::new();
        match code_ignoring_case(c) {
            None => {},
            Some((len, code)) => {
                let mut i: u8 = 0;
                assert(ops@ =~= elements(self@, code, 0));
                while i < len
                    invariant
                        i <= len <= 6,
                        ops@ == elements(self@, code, i as int),
                    decreases len - i,
                {
                    let ghost before = ops@;
                    let dot = (code >> i) & 1 == 0;
                    let on: u64 = if dot {
                        self.tick as u64
                    } else {
                        assert(self.tick * self.ratio <= u64::MAX) by (nonlinear_arith)
                            requires
                                self.tick <= u32::MAX,
                                self.ratio <= u32::MAX,
                        ;
                        self.tick as u64 * self.ratio as u64
                    };
                    ops.push(KeyOp::Assert(on));
                    ops.push(KeyOp::Pause(self.tick as u64));
                    assert(ops@ =~= before + seq![KeyOp::Assert(on), KeyOp::Pause(self.tick as u64)]);
                    i += 1;
                }
            },
        }
        ops
    }

    /// What to do with the key for a text.
    pub fn play(&self, message: &str) -> (ops: Vec<KeyOp>)
        ensures
            ops@ == play_spec(self@, message@),
    {
        let n: usize = message.unicode_len();
        let mut ops: Vec<KeyOp> = Vec::new();
        let mut i: usize = 0;
        assert(message@.take(0) =~= Seq::<char>::empty());
        while i < n
            invariant
                n == message@.len(),
                i <= n,
                ops@ == play_spec(self@, message@.take(i as int)),
            decreases n - i,
        {
            let c = message.get_char(i);
            let ghost before = ops@;
            proof {
                assert(message@.take(i + 1).drop_last() =~= message@.take(i as int));
                assert(message@.take(i + 1).last() == c);
                assert(self.tick * self.word_space <= u64::MAX && self.tick * self.letter_space
                    <= u64::MAX) by (nonlinear_arith)
                    requires
                        self.tick <= u32::MAX,
                        self.word_space <= u32::MAX,
                        self.letter_space <= u32::MAX,
                ;
            }
            if c == ' ' {
                ops.push(KeyOp::Pause(self.tick as u64 * self.word_space as u64));
                assert(ops@ =~= before + play_char_spec(self@, c));
            } else if c == '#' {
                ops.push(KeyOp::Pause(1000));
                assert(ops@ =~= before + play_char_spec(self@, c));
            } else {
                let mut letter = self.play_straight(c);
                ops.append(&mut letter);
                ops.push(KeyOp::Pause(self.tick as u64 * self.letter_space as u64));
                assert(ops@ =~= before + play_char_spec(self@, c));
            }
            i += 1;
        }
        assert(message@.take(n as int) =~= message@);
        ops
    }
}

} // verus!
