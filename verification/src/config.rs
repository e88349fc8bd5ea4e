//! What a device keeps between restarts: its pins and its WiFi profiles, in
//! the byte layouts in which they are stored.
//!
//! ```text
//! pins      'G' 'S'|'C'  version=1  key  button  led
//! profile   four strings, each a length byte and that many bytes of UTF-8:
//!           ssid, WiFi password, server name, server password
//! ```

use crate::ascii::string_from_utf8;
use crate::text::{concat3, decimal_string, decimal_text};
use vstd::prelude::*;
use vstd::string::*;
use vstd::utf8::{decode_utf8, encode_utf8, valid_utf8};

verus! {

/// Most profiles a device stores.
pub const MAX_PROFILES: usize = 8;

/// Longest SSID, in bytes.
pub const MAX_SSID_LEN: usize = 32;

/// Longest password, in bytes.
pub const MAX_PASSWORD_LEN: usize = 64;

/// Longest server name, in bytes.
pub const MAX_SERVER_NAME_LEN: usize = 64;

/// Highest GPIO number.
pub const MAX_GPIO: u8 = 39;

/// Length of a stored pin assignment, in bytes.
pub const GPIO_BLOB_LEN: usize = 6;

/// Why a pin assignment or its stored form is refused.
#[derive(Clone, Copy, Debug, PartialEq, Eq, Structural)]
pub enum GpioError {
    /// The stored form is shorter than six bytes.
    TooShort,
    /// The stored form does not begin with `GS` or `GC`.
    BadMagic,
    /// The stored form is of another version than 1.
    BadVersion,
    /// This pin does not exist.
    OutOfRange(u8),
    /// This pin belongs to the flash.
    Reserved(u8),
    /// Two functions share a pin.
    NotUnique,
}

/// The boards that the firmware knows.
#[derive(Clone, Copy, Debug, PartialEq, Eq, Structural)]
pub enum Board {
    M5Atom,
    Esp32Wrover,
    Generic,
}

/// The pins of a keying device.
#[derive(Clone, Copy, Debug, PartialEq, Eq, Structural)]
pub struct GpioConfig {
    /// The pin that keys the rig.
    pub key_output: u8,
    /// The pin of the button.
    pub button: u8,
    /// The pin of the LED.
    pub led: u8,
}

/// Whether a pin belongs to the flash.
pub open spec fn pin_reserved(pin: u8) -> bool {
    6 <= pin <= 11
}

/// What is wrong with a single pin, if anything.
pub open spec fn pin_fault(pin: u8) -> Option<GpioError> {
    if pin > MAX_GPIO {
        Some(GpioError::OutOfRange(pin))
    } else if pin_reserved(pin) {
        Some(GpioError::Reserved(pin))
    } else {
        None
    }
}

/// The verdict on a pin assignment: the first fault of the key pin, the
/// button or the LED, in this order, else a shared pin, else none.
pub open spec fn gpio_validate_spec(c: GpioConfig) -> Result<(), GpioError> {
    if pin_fault(c.key_output) is Some {
        Err(pin_fault(c.key_output)->0)
    } else if pin_fault(c.button) is Some {
        Err(pin_fault(c.button)->0)
    } else if pin_fault(c.led) is Some {
        Err(pin_fault(c.led)->0)
    } else if c.key_output == c.button || c.key_output == c.led || c.button == c.led {
        Err(GpioError::NotUnique)
    } else {
        Ok(())
    }
}

/// The stored form of a pin assignment.
pub open spec fn gpio_to_bytes_spec(c: GpioConfig) -> Seq<u8> {
    seq![0x47u8, 0x53u8, 0x01u8, c.key_output, c.button, c.led]
}

/// What a stored pin assignment reads as. Bytes behind the sixth are ignored.
pub open spec fn gpio_from_bytes_spec(data: Seq<u8>) -> Result<GpioConfig, GpioError> {
    if data.len() < GPIO_BLOB_LEN {
        Err(GpioError::TooShort)
    } else if data[0] != 0x47 || (data[1] != 0x53 && data[1] != 0x43) {
        Err(GpioError::BadMagic)
    } else if data[2] != 0x01 {
        Err(GpioError::BadVersion)
    } else {
        Ok(GpioConfig { key_output: data[3], button: data[4], led: data[5] })
    }
}

/// The pins that a board is built with.
pub open spec fn board_pins(board: Board) -> GpioConfig {
    match board {
        Board::M5Atom => GpioConfig { key_output: 19, button: 39, led: 27 },
        Board::Esp32Wrover => GpioConfig { key_output: 4, button: 12, led: 16 },
        Board::Generic => GpioConfig { key_output: 4, button: 0, led: 2 },
    }
}

impl Default for GpioConfig {
    /// The pins of a board without a name.
    fn default() -> (c: Self)
        ensures
            c == board_pins(Board::Generic),
    {
        GpioConfig { key_output: 4, button: 0, led: 2 }
    }
}

impl GpioConfig {
    /// The pins that `board` is built with.
    pub fn for_board(board: Board) -> (c: Self)
        ensures
            c == board_pins(board),
            gpio_validate_spec(c) is Ok,
    {
        match board {
            Board::M5Atom => GpioConfig { key_output: 19, button: 39, led: 27 },
            Board::Esp32Wrover => GpioConfig { key_output: 4, button: 12, led: 16 },
            Board::Generic => GpioConfig { key_output: 4, button: 0, led: 2 },
        }
    }

    /// The stored form.
    pub fn to_bytes(&self) -> (bytes: Vec<u8>)
        ensures
            bytes@ == gpio_to_bytes_spec(*self),
    {
        let mut bytes: Vec<u8> = Vec::new();
        bytes.push(0x47);
        bytes.push(0x53);
        bytes.push(0x01);
        bytes.push(self.key_output);
        bytes.push(self.button);
        bytes.push(self.led);
        assert(bytes@ =~= gpio_to_bytes_spec(*self));
        bytes
    }

    /// Reads a stored form.
    pub fn from_bytes(data: &[u8]) -> (r: Result<Self, GpioError>)
        ensures
            r == gpio_from_bytes_spec(data@),
    {
        if data.len() < GPIO_BLOB_LEN {
            return Err(GpioError::TooShort);
        }
        if data[0] != 0x47 || (data[1] != 0x53 && data[1] != 0x43) {
            return Err(GpioError::BadMagic);
        }
        if data[2] != 0x01 {
            return Err(GpioError::BadVersion);
        }
        Ok(GpioConfig { key_output: data[3], button: data[4], led: data[5] })
    }

    /// Whether every pin exists, none belongs to the flash and no two
    /// functions share one.
    pub fn validate(&self) -> (r: Result<(), GpioError>)
        ensures
            r == gpio_validate_spec(*self),
    {
        match check_pin(self.key_output) {
            Some(e) => {
                return Err(e);
            },
            None => {},
        }
        match check_pin(self.button) {
            Some(e) => {
                return Err(e);
            },
            None => {},
        }
        match check_pin(self.led) {
            Some(e) => {
                return Err(e);
            },
            None => {},
        }
        if self.key_output == self.button || self.key_output == self.led || self.button
            == self.led {
            return Err(GpioError::NotUnique);
        }
        Ok(())
    }
}

/// What is wrong with a single pin, if anything.
pub fn check_pin(pin: u8) -> (fault: Option<GpioError>)
    ensures
        fault == pin_fault(pin),
{
    if pin > MAX_GPIO {
        Some(GpioError::OutOfRange(pin))
    } else if 6 <= pin && pin <= 11 {
        Some(GpioError::Reserved(pin))
    } else {
        None
    }
}

/// What is stored is read back, whatever the pins.
pub proof fn lemma_gpio_blob_round_trip(c: GpioConfig, tail: Seq<u8>)
    ensures
        gpio_from_bytes_spec(gpio_to_bytes_spec(c) + tail) == Ok::<GpioConfig, GpioError>(c),
{
}

/// Why a profile or its stored form is refused.
#[derive(Clone, Copy, Debug, PartialEq, Eq, Structural)]
pub enum ProfileError {
    /// The stored form ends where a length byte is due.
    UnexpectedEnd,
    /// A length byte promises more bytes than follow.
    LengthExceedsData,
    /// A string is not UTF-8.
    InvalidUtf8,
    /// The SSID is empty or longer than `MAX_SSID_LEN`.
    InvalidSsidLength,
    /// The WiFi password is longer than `MAX_PASSWORD_LEN`.
    PasswordTooLong,
    /// The server name is empty or longer than `MAX_SERVER_NAME_LEN`.
    InvalidServerNameLength,
    /// The server password is longer than `MAX_PASSWORD_LEN`.
    ServerPasswordTooLong,
}

/// A WiFi network and the keying server to reach through it.
#[derive(Clone, Debug, Default, PartialEq, Eq)]
pub struct WifiProfile {
    pub ssid: String,
    pub password: String,
    pub server_name: String,
    pub server_password: String,
    /// Whether the network is a tethered phone, on which no server is looked
    /// for locally. It is not part of the stored form.
    pub tethering: bool,
}

/// A profile as the contracts see it.
pub struct ProfileSpec {
    pub ssid: Seq<char>,
    pub password: Seq<char>,
    pub server_name: Seq<char>,
    pub server_password: Seq<char>,
    pub tethering: bool,
}

impl View for WifiProfile {
    type V = ProfileSpec;

    open spec fn view(&self) -> ProfileSpec {
        ProfileSpec {
            ssid: self.ssid@,
            password: self.password@,
            server_name: self.server_name@,
            server_password: self.server_password@,
            tethering: self.tethering,
        }
    }
}

/// A string in its stored form: the low byte of its length in UTF-8, then
/// its bytes in UTF-8.
pub open spec fn field_spec(text: Seq<char>) -> Seq<u8> {
    seq![(encode_utf8(text).len() % 256) as u8] + encode_utf8(text)
}

/// The stored form of a profile.
pub open spec fn profile_to_bytes_spec(p: ProfileSpec) -> Seq<u8> {
    field_spec(p.ssid) + field_spec(p.password) + field_spec(p.server_name) + field_spec(
        p.server_password,
    )
}

/// The string that stands at `offset`, and the offset behind it.
pub open spec fn read_field_spec(data: Seq<u8>, offset: int) -> Result<
    (Seq<char>, int),
    ProfileError,
> {
    if offset >= data.len() {
        Err(ProfileError::UnexpectedEnd)
    } else if offset + 1 + data[offset] > data.len() {
        Err(ProfileError::LengthExceedsData)
    } else if !valid_utf8(data.subrange(offset + 1, offset + 1 + data[offset])) {
        Err(ProfileError::InvalidUtf8)
    } else {
        Ok(
            (
                decode_utf8(data.subrange(offset + 1, offset + 1 + data[offset])),
                offset + 1 + data[offset],
            ),
        )
    }
}

/// What a stored profile reads as. Bytes behind the fourth string are
/// ignored.
pub open spec fn profile_from_bytes_spec(data: Seq<u8>) -> Result<ProfileSpec, ProfileError> {
    match read_field_spec(data, 0) {
        Err(e) => Err(e),
        Ok((ssid, o1)) => match read_field_spec(data, o1) {
            Err(e) => Err(e),
            Ok((password, o2)) => match read_field_spec(data, o2) {
                Err(e) => Err(e),
                Ok((server_name, o3)) => match read_field_spec(data, o3) {
                    Err(e) => Err(e),
                    Ok((server_password, _)) => Ok(
                        ProfileSpec { ssid, password, server_name, server_password, tethering: false },
                    ),
                },
            },
        },
    }
}

/// The verdict on a profile.
pub open spec fn profile_validate_spec(p: ProfileSpec) -> Result<(), ProfileError> {
    if encode_utf8(p.ssid).len() == 0 || encode_utf8(p.ssid).len() > MAX_SSID_LEN {
        Err(ProfileError::InvalidSsidLength)
    } else if encode_utf8(p.password).len() > MAX_PASSWORD_LEN {
        Err(ProfileError::PasswordTooLong)
    } else if encode_utf8(p.server_name).len() == 0 || encode_utf8(p.server_name).len()
        > MAX_SERVER_NAME_LEN {
        Err(ProfileError::InvalidServerNameLength)
    } else if encode_utf8(p.server_password).len() > MAX_PASSWORD_LEN {
        Err(ProfileError::ServerPasswordTooLong)
    } else {
        Ok(())
    }
}

/// Appends the stored form of `text` to `buf`.
fn put_field(buf: &mut Vec<u8>, text: &str)
    ensures
        final(buf)@ == old(buf)@ + field_spec(text@),
{
    let bytes = text.as_bytes();
    buf.push((bytes.len() % 256) as u8);
    buf.extend_from_slice(bytes);
    assert(buf@ =~= old(buf)@ + field_spec(text@));
}

/// Reads the string that stands at `offset`.
fn read_field(data: &[u8], offset: usize) -> (r: Result<(String, usize), ProfileError>)
    ensures
        match r {
            Ok((s, next)) => read_field_spec(data@, offset as int) == Ok::<
                (Seq<char>, int),
                ProfileError,
            >((s@, next as int)),
            Err(e) => read_field_spec(data@, offset as int) == Err::<
                (Seq<char>, int),
                ProfileError,
            >(e),
        },
{
    if offset >= data.len() {
        return Err(ProfileError::UnexpectedEnd);
    }
    let len: usize = data[offset] as usize;
    if len > data.len() - offset - 1 {
        return Err(ProfileError::LengthExceedsData);
    }
    let start: usize = offset + 1;
    let total: usize = data.len();
    let mut bytes: Vec<u8> = Vec::new();
    let mut i: usize = 0;
    while i < len
        invariant
            i <= len,
            total == data@.len(),
            start + len <= total,
            bytes@ == data@.subrange(start as int, start + i),
        decreases len - i,
    {
        bytes.push(data[start + i]);
        i += 1;
    }
    match string_from_utf8(bytes) {
        Some(s) => Ok((s, start + len)),
        None => Err(ProfileError::InvalidUtf8),
    }
}

impl WifiProfile {
    /// A profile for a network that is no tethered phone.
    pub fn new(ssid: &str, password: &str, server_name: &str, server_password: &str) -> (p: Self)
        ensures
            p.ssid@ == ssid@,
            p.password@ == password@,
            p.server_name@ == server_name@,
            p.server_password@ == server_password@,
            !p.tethering,
    {
        WifiProfile {
            ssid: String::from_str(ssid),
            password: String::from_str(password),
            server_name: String::from_str(server_name),
            server_password: String::from_str(server_password),
            tethering: false,
        }
    }

    /// The stored form. A string of 256 bytes or more is stored with the low
    /// byte of its length and does not read back.
    pub fn to_bytes(&self) -> (bytes: Vec<u8>)
        ensures
            bytes@ == profile_to_bytes_spec(self@),
    {
        let mut buf: Vec<u8> = Vec::new();
        put_field(&mut buf, self.ssid.as_str());
        put_field(&mut buf, self.password.as_str());
        put_field(&mut buf, self.server_name.as_str());
        put_field(&mut buf, self.server_password.as_str());
        assert(buf@ =~= profile_to_bytes_spec(self@));
        buf
    }

    /// Reads a stored form.
    pub fn from_bytes(data: &[u8]) -> (r: Result<Self, ProfileError>)
        ensures
            match r {
                Ok(p) => profile_from_bytes_spec(data@) == Ok::<ProfileSpec, ProfileError>(p@),
                Err(e) => profile_from_bytes_spec(data@) == Err::<ProfileSpec, ProfileError>(e),
            },
    {
        let (ssid, o1) = match read_field(data, 0) {
            Ok(x) => x,
            Err(e) => {
                return Err(e);
            },
        };
        let (password, o2) = match read_field(data, o1) {
            Ok(x) => x,
            Err(e) => {
                return Err(e);
            },
        };
        let (server_name, o3) = match read_field(data, o2) {
            Ok(x) => x,
            Err(e) => {
                return Err(e);
            },
        };
        let (server_password, _) = match read_field(data, o3) {
            Ok(x) => x,
            Err(e) => {
                return Err(e);
            },
        };
        Ok(WifiProfile { ssid, password, server_name, server_password, tethering: false })
    }

    /// Whether the SSID and the server name are set and no string is longer
    /// than its limit.
    pub fn validate(&self) -> (r: Result<(), ProfileError>)
        ensures
            r == profile_validate_spec(self@),
    {
        let ssid = self.ssid.as_str().as_bytes().len();
        let password = self.password.as_str().as_bytes().len();
        let server_name = self.server_name.as_str().as_bytes().len();
        let server_password = self.server_password.as_str().as_bytes().len();
        if ssid == 0 || ssid > MAX_SSID_LEN {
            return Err(ProfileError::InvalidSsidLength);
        }
        if password > MAX_PASSWORD_LEN {
            return Err(ProfileError::PasswordTooLong);
        }
        if server_name == 0 || server_name > MAX_SERVER_NAME_LEN {
            return Err(ProfileError::InvalidServerNameLength);
        }
        if server_password > MAX_PASSWORD_LEN {
            return Err(ProfileError::ServerPasswordTooLong);
        }
        Ok(())
    }
}

/// Reading a stored string gives the string and the offset behind it.
pub proof fn lemma_read_field(head: Seq<u8>, text: Seq<char>, tail: Seq<u8>)
    requires
        encode_utf8(text).len() < 256,
    ensures
        read_field_spec(head + field_spec(text) + tail, head.len() as int) == Ok::<
            (Seq<char>, int),
            ProfileError,
        >((text, (head.len() + 1 + encode_utf8(text).len()) as int)),
{
    let bytes = encode_utf8(text);
    let data = head + field_spec(text) + tail;
    let offset = head.len() as int;
    vstd::utf8::encode_utf8_valid_utf8(text);
    vstd::utf8::encode_utf8_decode_utf8(text);
    assert(data[offset] == bytes.len() as u8);
    assert(data.subrange(offset + 1, offset + 1 + bytes.len()) =~= bytes);
}

/// A profile whose strings are shorter than 256 bytes reads back from its
/// stored form as it was, but for the tethering flag, which is not stored.
/// Every profile that passes `validate` is such a profile.
pub proof fn lemma_profile_blob_round_trip(p: ProfileSpec, tail: Seq<u8>)
    requires
        encode_utf8(p.ssid).len() < 256,
        encode_utf8(p.password).len() < 256,
        encode_utf8(p.server_name).len() < 256,
        encode_utf8(p.server_password).len() < 256,
    ensures
        profile_from_bytes_spec(profile_to_bytes_spec(p) + tail) == Ok::<
            ProfileSpec,
            ProfileError,
        >(ProfileSpec { tethering: false, ..p }),
{
    let data = profile_to_bytes_spec(p) + tail;
    let e = Seq::<u8>::empty();
    let f1 = field_spec(p.ssid);
    let f2 = field_spec(p.password);
    let f3 = field_spec(p.server_name);
    let f4 = field_spec(p.server_password);
    assert(data =~= e + f1 + (f2 + f3 + f4 + tail));
    lemma_read_field(e, p.ssid, f2 + f3 + f4 + tail);
    assert(data =~= f1 + f2 + (f3 + f4 + tail));
    lemma_read_field(f1, p.password, f3 + f4 + tail);
    assert(data =~= (f1 + f2) + f3 + (f4 + tail));
    lemma_read_field(f1 + f2, p.server_name, f4 + tail);
    assert(data =~= (f1 + f2 + f3) + f4 + tail);
    lemma_read_field(f1 + f2 + f3, p.server_password, tail);
}

/// The stored forms of a list of profiles.
pub open spec fn stored_forms(profiles: Seq<ProfileSpec>) -> Seq<Seq<u8>> {
    Seq::new(profiles.len(), |i: int| profile_to_bytes_spec(profiles[i]))
}

/// The profiles as they read back: without the tethering flag.
pub open spec fn without_tethering(profiles: Seq<ProfileSpec>) -> Seq<ProfileSpec> {
    Seq::new(profiles.len(), |i: int| ProfileSpec { tethering: false, ..profiles[i] })
}

/// What was saved is what is read: the stored forms of profiles that the
/// store took read back as these profiles, in their order and without the
/// tethering flag.
pub proof fn lemma_saved_profiles_read_back(profiles: Seq<ProfileSpec>, upto: int)
    requires
        save_verdict(profiles) is Ok,
        0 <= upto <= profiles.len(),
    ensures
        readable(stored_forms(profiles), upto) == without_tethering(profiles).take(upto),
    decreases upto,
{
    if upto > 0 {
        lemma_saved_profiles_read_back(profiles, upto - 1);
        lemma_all_valid(profiles, 0, upto - 1);
        let p = profiles[upto - 1];
        lemma_profile_blob_round_trip(p, Seq::<u8>::empty());
        assert(profile_to_bytes_spec(p) + Seq::<u8>::empty() =~= profile_to_bytes_spec(p));
        assert(without_tethering(profiles).take(upto) =~= without_tethering(profiles).take(
            upto - 1,
        ).push(ProfileSpec { tethering: false, ..p }));
    } else {
        assert(without_tethering(profiles).take(0) =~= Seq::<ProfileSpec>::empty());
    }
}

/// Where no profile from `from` on is refused, the one at `at` is valid.
pub proof fn lemma_all_valid(profiles: Seq<ProfileSpec>, from: int, at: int)
    requires
        0 <= from <= at < profiles.len(),
        first_invalid(profiles, from) is None,
    ensures
        profile_validate_spec(profiles[at]) is Ok,
    decreases at - from,
{
    if from < at {
        lemma_all_valid(profiles, from + 1, at);
    }
}

/// The settings of the desktop server.
#[derive(Clone, Debug, PartialEq, Eq)]
pub struct AppConfig {
    pub server_name: String,
    pub server_password: String,
    pub rigcontrol_port: String,
    pub keying_port: String,
    pub use_rts_for_keying: bool,
    pub rig_script: String,
}

/// The rig script that is used where none is named.
pub fn default_rig_script() -> (s: String)
    ensures
        s@ == "yaesu_ft891.lua"@,
{
    String::from_str("yaesu_ft891.lua")
}

impl Default for AppConfig {
    fn default() -> (c: Self)
        ensures
            c.server_name@ == "your_callsign/keyer_name"@,
            c.server_password@ == "keyer_passwd"@,
            c.rigcontrol_port@ == "COM5"@,
            c.keying_port@ == "COM6"@,
            c.use_rts_for_keying,
            c.rig_script@ == "yaesu_ft891.lua"@,
    {
        AppConfig {
            server_name: String::from_str("your_callsign/keyer_name"),
            server_password: String::from_str("keyer_passwd"),
            rigcontrol_port: String::from_str("COM5"),
            keying_port: String::from_str("COM6"),
            use_rts_for_keying: true,
            rig_script: default_rig_script(),
        }
    }
}

/// What a server is started with.
#[derive(Clone, Debug, PartialEq, Eq)]
pub struct WiFiKeyConfig {
    pub server_name: String,
    pub server_password: String,
    pub rigcontrol_port: String,
    pub keying_port: String,
    pub use_rts_for_keying: bool,
    pub rig_script: String,
}

impl WiFiKeyConfig {
    pub fn new(
        server_name: String,
        server_password: String,
        rigcontrol_port: String,
        keying_port: String,
        use_rts_for_keying: bool,
        rig_script: String,
    ) -> (c: Self)
        ensures
            c == (WiFiKeyConfig {
                server_name,
                server_password,
                rigcontrol_port,
                keying_port,
                use_rts_for_keying,
                rig_script,
            }),
    {
        WiFiKeyConfig {
            server_name,
            server_password,
            rigcontrol_port,
            keying_port,
            use_rts_for_keying,
            rig_script,
        }
    }

    /// What the desktop server's settings start a server with.
    pub fn from_app(config: &AppConfig) -> (c: Self)
        ensures
            c.server_name@ == config.server_name@,
            c.server_password@ == config.server_password@,
            c.rigcontrol_port@ == config.rigcontrol_port@,
            c.keying_port@ == config.keying_port@,
            c.use_rts_for_keying == config.use_rts_for_keying,
            c.rig_script@ == config.rig_script@,
    {
        WiFiKeyConfig {
            server_name: config.server_name.clone(),
            server_password: config.server_password.clone(),
            rigcontrol_port: config.rigcontrol_port.clone(),
            keying_port: config.keying_port.clone(),
            use_rts_for_keying: config.use_rts_for_keying,
            rig_script: config.rig_script.clone(),
        }
    }
}

/// A profile as a device lists it over its serial line.
#[derive(Clone, Debug, PartialEq, Eq)]
pub struct Esp32Profile {
    pub index: usize,
    pub ssid: String,
    pub server_name: String,
    pub tethering: bool,
}

/// Why the store took nothing.
#[derive(Clone, Copy, Debug, PartialEq, Eq, Structural)]
pub enum StoreError {
    /// More than `MAX_PROFILES` profiles were to be saved.
    TooManyProfiles,
    /// The profile at this place is refused for this reason.
    ProfileInvalid(usize, ProfileError),
    /// The store is full.
    MaxProfilesReached,
    /// No profile stands at this place.
    IndexOutOfRange,
    /// The pin assignment is refused for this reason.
    Gpio(GpioError),
}

/// The views of a list of profiles.
pub open spec fn profiles_view(profiles: Seq<WifiProfile>) -> Seq<ProfileSpec> {
    Seq::new(profiles.len(), |i: int| profiles[i]@)
}

/// The first profile of a list that `validate` refuses, with the reason.
pub open spec fn first_invalid(profiles: Seq<ProfileSpec>, from: int) -> Option<(int, ProfileError)>
    decreases profiles.len() - from,
{
    if from >= profiles.len() {
        None
    } else if profile_validate_spec(profiles[from]) is Err {
        Some((from, profile_validate_spec(profiles[from])->Err_0))
    } else {
        first_invalid(profiles, from + 1)
    }
}

/// The verdict on a list of profiles that is to be saved.
pub open spec fn save_verdict(profiles: Seq<ProfileSpec>) -> Result<(), StoreError> {
    if profiles.len() > MAX_PROFILES {
        Err(StoreError::TooManyProfiles)
    } else {
        match first_invalid(profiles, 0) {
            Some((i, e)) => Err(StoreError::ProfileInvalid(i as usize, e)),
            None => Ok(()),
        }
    }
}

/// The pin assignment that a stored form stands for: its own where it reads
/// and is valid, else that of the board.
pub open spec fn effective_gpio(blob: Option<Seq<u8>>, fallback: GpioConfig) -> GpioConfig {
    match blob {
        Some(b) => match gpio_from_bytes_spec(b) {
            Ok(c) => if gpio_validate_spec(c) is Ok {
                c
            } else {
                fallback
            },
            Err(_) => fallback,
        },
        None => fallback,
    }
}

/// What a device has stored, as the contracts see it.
pub struct StoreSpec {
    pub profiles: Seq<ProfileSpec>,
    pub gpio: Option<Seq<u8>>,
}

/// The profiles and the pin assignment of a device, as they stand in its
/// store. The caller reads the store into it and writes it back.
pub struct ConfigManager {
    profiles: Vec<WifiProfile>,
    gpio: Option<Vec<u8>>,
}

impl View for ConfigManager {
    type V = StoreSpec;

    closed spec fn view(&self) -> StoreSpec {
        StoreSpec {
            profiles: profiles_view(self.profiles@),
            gpio: match self.gpio {
                Some(b) => Some(b@),
                None => None,
            },
        }
    }
}

/// A copy of a profile.
pub fn copy_profile(p: &WifiProfile) -> (c: WifiProfile)
    ensures
        c == *p,
{
    WifiProfile {
        ssid: p.ssid.clone(),
        password: p.password.clone(),
        server_name: p.server_name.clone(),
        server_password: p.server_password.clone(),
        tethering: p.tethering,
    }
}

/// A copy of a list of profiles.
pub fn copy_profiles(profiles: &[WifiProfile]) -> (c: Vec<WifiProfile>)
    ensures
        c@ == profiles@,
{
    let mut c: Vec<WifiProfile> = Vec::new();
    let n: usize = profiles.len();
    let mut i: usize = 0;
    while i < n
        invariant
            n == profiles@.len(),
            i <= n,
            c@ == profiles@.subrange(0, i as int),
        decreases n - i,
    {
        c.push(copy_profile(&profiles[i]));
        assert(profiles@.subrange(0, i + 1) =~= profiles@.subrange(0, i as int).push(
            profiles@[i as int],
        ));
        i += 1;
    }
    assert(profiles@.subrange(0, n as int) =~= profiles@);
    c
}

/// The first profile of a list that `validate` refuses.
pub fn find_invalid(profiles: &[WifiProfile]) -> (r: Option<(usize, ProfileError)>)
    ensures
        match r {
            Some((i, e)) => first_invalid(profiles_view(profiles@), 0) == Some((i as int, e)),
            None => first_invalid(profiles_view(profiles@), 0) is None,
        },
{
    let n: usize = profiles.len();
    let mut i: usize = 0;
    while i < n
        invariant
            n == profiles@.len(),
            i <= n,
            first_invalid(profiles_view(profiles@), 0) == first_invalid(
                profiles_view(profiles@),
                i as int,
            ),
        decreases n - i,
    {
        assert(profiles_view(profiles@)[i as int] == profiles@[i as int]@);
        match profiles[i].validate() {
            Err(e) => {
                return Some((i, e));
            },
            Ok(()) => {},
        }
        i += 1;
    }
    None
}

impl ConfigManager {
    /// An empty store.
    pub fn new() -> (cm: Self)
        ensures
            cm@.profiles.len() == 0,
            cm@.gpio is None,
    {
        let cm = ConfigManager { profiles: Vec::new(), gpio: None };
        assert(cm@.profiles =~= Seq::<ProfileSpec>::empty());
        cm
    }

    /// The store as it was read: the profiles whose stored forms read, in
    /// their order, and the stored pin assignment, if there is one.
    pub fn from_blobs(blobs: &[Vec<u8>], gpio: Option<Vec<u8>>) -> (cm: Self)
        ensures
            cm@.profiles == readable(blobs_view(blobs@), blobs@.len() as int),
            cm@.gpio == match gpio {
                Some(b) => Some(b@),
                None => None,
            },
    {
        let mut profiles: Vec<WifiProfile> = Vec::new();
        let n: usize = blobs.len();
        let mut i: usize = 0;
        assert(profiles_view(profiles@) =~= readable(blobs_view(blobs@), 0));
        while i < n
            invariant
                n == blobs@.len(),
                i <= n,
                profiles_view(profiles@) == readable(blobs_view(blobs@), i as int),
            decreases n - i,
        {
            assert(blobs_view(blobs@)[i as int] == blobs@[i as int]@);
            let ghost before = profiles@;
            match WifiProfile::from_bytes(blobs[i].as_slice()) {
                Ok(p) => {
                    profiles.push(p);
                    assert(profiles_view(profiles@) =~= profiles_view(before).push(p@));
                },
                Err(_) => {},
            }
            i += 1;
        }
        ConfigManager { profiles, gpio }
    }

    /// How many profiles are stored.
    pub fn profile_count(&self) -> (n: usize)
        ensures
            n == self@.profiles.len(),
    {
        self.profiles.len()
    }

    /// Whether any profile is stored.
    pub fn has_profiles(&self) -> (b: bool)
        ensures
            b == (self@.profiles.len() > 0),
    {
        self.profiles.len() > 0
    }

    /// The stored profiles.
    pub fn load_profiles(&self) -> (profiles: Vec<WifiProfile>)
        ensures
            profiles_view(profiles@) == self@.profiles,
    {
        copy_profiles(self.profiles.as_slice())
    }

    /// Replaces the stored profiles, if they are few enough and all valid.
    pub fn save_profiles(&mut self, profiles: &[WifiProfile]) -> (r: Result<(), StoreError>)
        ensures
            r == save_verdict(profiles_view(profiles@)),
            r is Ok ==> final(self)@ == (StoreSpec {
                profiles: profiles_view(profiles@),
                ..old(self)@
            }),
            r is Err ==> final(self)@ == old(self)@,
    {
        if profiles.len() > MAX_PROFILES {
            return Err(StoreError::TooManyProfiles);
        }
        match find_invalid(profiles) {
            Some((i, e)) => {
                return Err(StoreError::ProfileInvalid(i, e));
            },
            None => {},
        }
        self.profiles = copy_profiles(profiles);
        Ok(())
    }

    /// Stores one more profile behind the others.
    pub fn add_profile(&mut self, profile: WifiProfile) -> (r: Result<(), StoreError>)
        ensures
            r == if old(self)@.profiles.len() >= MAX_PROFILES {
                Err(StoreError::MaxProfilesReached)
            } else {
                save_verdict(old(self)@.profiles.push(profile@))
            },
            r is Ok ==> final(self)@ == (StoreSpec {
                profiles: old(self)@.profiles.push(profile@),
                ..old(self)@
            }),
            r is Err ==> final(self)@ == old(self)@,
    {
        let mut profiles = self.load_profiles();
        if profiles.len() >= MAX_PROFILES {
            return Err(StoreError::MaxProfilesReached);
        }
        let ghost before = profiles@;
        profiles.push(profile);
        assert(profiles_view(profiles@) =~= profiles_view(before).push(profile@));
        self.save_profiles(profiles.as_slice())
    }

    /// Drops the profile at `index`; those behind it move up.
    pub fn remove_profile(&mut self, index: usize) -> (r: Result<(), StoreError>)
        ensures
            r == if index >= old(self)@.profiles.len() {
                Err(StoreError::IndexOutOfRange)
            } else {
                save_verdict(old(self)@.profiles.remove(index as int))
            },
            r is Ok ==> final(self)@ == (StoreSpec {
                profiles: old(self)@.profiles.remove(index as int),
                ..old(self)@
            }),
            r is Err ==> final(self)@ == old(self)@,
    {
        let mut profiles = self.load_profiles();
        if index >= profiles.len() {
            return Err(StoreError::IndexOutOfRange);
        }
        let ghost before = profiles@;
        let _ = profiles.remove(index);
        assert(profiles_view(profiles@) =~= profiles_view(before).remove(index as int));
        self.save_profiles(profiles.as_slice())
    }

    /// Replaces the profile at `index`.
    pub fn update_profile(&mut self, index: usize, profile: WifiProfile) -> (r: Result<
        (),
        StoreError,
    >)
        ensures
            r == if index >= old(self)@.profiles.len() {
                Err(StoreError::IndexOutOfRange)
            } else {
                save_verdict(old(self)@.profiles.update(index as int, profile@))
            },
            r is Ok ==> final(self)@ == (StoreSpec {
                profiles: old(self)@.profiles.update(index as int, profile@),
                ..old(self)@
            }),
            r is Err ==> final(self)@ == old(self)@,
    {
        let mut profiles = self.load_profiles();
        if index >= profiles.len() {
            return Err(StoreError::IndexOutOfRange);
        }
        let ghost before = profiles@;
        profiles.set(index, profile);
        assert(profiles_view(profiles@) =~= profiles_view(before).update(index as int, profile@));
        self.save_profiles(profiles.as_slice())
    }

    /// Drops every profile.
    pub fn clear_all(&mut self) -> (r: Result<(), StoreError>)
        ensures
            r is Ok,
            final(self)@ == (StoreSpec { profiles: Seq::empty(), ..old(self)@ }),
    {
        let none: Vec<WifiProfile> = Vec::new();
        assert(profiles_view(none@) =~= Seq::<ProfileSpec>::empty());
        self.save_profiles(none.as_slice())
    }

    /// The pin assignment in force: the stored one where it reads and is
    /// valid, else that of a board without a name.
    pub fn load_gpio_config(&self) -> (c: GpioConfig)
        ensures
            c == effective_gpio(self@.gpio, board_pins(Board::Generic)),
    {
        match &self.gpio {
            Some(blob) => match GpioConfig::from_bytes(blob.as_slice()) {
                Ok(c) => {
                    if c.validate().is_ok() {
                        return c;
                    }
                },
                Err(_) => {},
            },
            None => {},
        }
        GpioConfig::default()
    }

    /// Stores a pin assignment, if it is valid.
    pub fn save_gpio_config(&mut self, config: &GpioConfig) -> (r: Result<(), StoreError>)
        ensures
            r == match gpio_validate_spec(*config) {
                Ok(()) => Ok::<(), StoreError>(()),
                Err(e) => Err::<(), StoreError>(StoreError::Gpio(e)),
            },
            r is Ok ==> final(self)@ == (StoreSpec {
                gpio: Some(gpio_to_bytes_spec(*config)),
                ..old(self)@
            }),
            r is Err ==> final(self)@ == old(self)@,
    {
        match config.validate() {
            Ok(()) => {},
            Err(e) => {
                return Err(StoreError::Gpio(e));
            },
        }
        self.gpio = Some(config.to_bytes());
        Ok(())
    }

    /// Drops the stored pin assignment.
    pub fn reset_gpio_config(&mut self) -> (r: Result<(), StoreError>)
        ensures
            r is Ok,
            final(self)@ == (StoreSpec { gpio: None, ..old(self)@ }),
    {
        self.gpio = None;
        Ok(())
    }

    /// Whether a pin assignment is stored.
    pub fn has_custom_gpio(&self) -> (b: bool)
        ensures
            b == self@.gpio is Some,
    {
        self.gpio.is_some()
    }

    /// The stored forms of the profiles, in their order, for the caller to
    /// write.
    pub fn profile_blobs(&self) -> (blobs: Vec<Vec<u8>>)
        ensures
            blobs@.len() == self@.profiles.len(),
            forall|i: int|
                0 <= i < blobs@.len() ==> (#[trigger] blobs@[i])@ == profile_to_bytes_spec(
                    self@.profiles[i],
                ),
    {
        let mut blobs: Vec<Vec<u8>> = Vec::new();
        let n: usize = self.profiles.len();
        let mut i: usize = 0;
        while i < n
            invariant
                n == self.profiles@.len(),
                i <= n,
                blobs@.len() == i,
                forall|j: int|
                    0 <= j < i ==> (#[trigger] blobs@[j])@ == profile_to_bytes_spec(
                        self.profiles@[j]@,
                    ),
            decreases n - i,
        {
            blobs.push(self.profiles[i].to_bytes());
            i += 1;
        }
        blobs
    }

    /// The stored form of the pin assignment, if one is stored, for the
    /// caller to write.
    pub fn gpio_blob(&self) -> (blob: Option<Vec<u8>>)
        ensures
            self@.gpio == match blob {
                Some(b) => Some(b@),
                None => None,
            },
    {
        match &self.gpio {
            Some(b) => Some(b.clone()),
            None => None,
        }
    }
}

/// The views of a list of stored forms.
pub open spec fn blobs_view(blobs: Seq<Vec<u8>>) -> Seq<Seq<u8>> {
    Seq::new(blobs.len(), |i: int| blobs[i]@)
}

/// The profiles that the first `upto` of a list of stored forms read as;
/// what does not read is left out.
pub open spec fn readable(blobs: Seq<Seq<u8>>, upto: int) -> Seq<ProfileSpec>
    decreases upto,
{
    if upto <= 0 {
        Seq::empty()
    } else {
        match profile_from_bytes_spec(blobs[upto - 1]) {
            Ok(p) => readable(blobs, upto - 1).push(p),
            Err(_) => readable(blobs, upto - 1),
        }
    }
}

/// What is wrong with a profile, in words.
pub open spec fn profile_error_text(e: ProfileError) -> Seq<char> {
    match e {
        ProfileError::UnexpectedEnd => "Unexpected end of data"@,
        ProfileError::LengthExceedsData => "String length exceeds data"@,
        ProfileError::InvalidUtf8 => "Invalid UTF-8 in string"@,
        ProfileError::InvalidSsidLength => "Invalid SSID length"@,
        ProfileError::PasswordTooLong => "Password too long"@,
        ProfileError::InvalidServerNameLength => "Invalid server name length"@,
        ProfileError::ServerPasswordTooLong => "Server password too long"@,
    }
}

/// What is wrong with a pin assignment, in words.
pub open spec fn gpio_error_text(e: GpioError) -> Seq<char> {
    match e {
        GpioError::TooShort => "GPIO config too short"@,
        GpioError::BadMagic => "Invalid GPIO config magic"@,
        GpioError::BadVersion => "Unsupported GPIO config version"@,
        GpioError::OutOfRange(pin) => "GPIO "@ + decimal_text(pin as nat)
            + " out of range (max 39)"@,
        GpioError::Reserved(pin) => "GPIO "@ + decimal_text(pin as nat)
            + " is reserved for flash"@,
        GpioError::NotUnique => "GPIO pins must be unique"@,
    }
}

/// Why the store took nothing, in words.
pub open spec fn store_error_text(e: StoreError) -> Seq<char> {
    match e {
        StoreError::TooManyProfiles => "Too many profiles (max 8)"@,
        StoreError::ProfileInvalid(i, pe) => "Profile "@ + decimal_text(i as nat) + " invalid: "@
            + profile_error_text(pe),
        StoreError::MaxProfilesReached => "Maximum profiles reached"@,
        StoreError::IndexOutOfRange => "Profile index out of range"@,
        StoreError::Gpio(ge) => gpio_error_text(ge),
    }
}

impl ProfileError {
    /// The error in words.
    pub fn message(&self) -> (m: String)
        ensures
            m@ == profile_error_text(*self),
    {
        match self {
            ProfileError::UnexpectedEnd => String::from_str("Unexpected end of data"),
            ProfileError::LengthExceedsData => String::from_str("String length exceeds data"),
            ProfileError::InvalidUtf8 => String::from_str("Invalid UTF-8 in string"),
            ProfileError::InvalidSsidLength => String::from_str("Invalid SSID length"),
            ProfileError::PasswordTooLong => String::from_str("Password too long"),
            ProfileError::InvalidServerNameLength => String::from_str("Invalid server name length"),
            ProfileError::ServerPasswordTooLong => String::from_str("Server password too long"),
        }
    }
}

impl GpioError {
    /// The error in words.
    pub fn message(&self) -> (m: String)
        ensures
            m@ == gpio_error_text(*self),
    {
        match self {
            GpioError::TooShort => String::from_str("GPIO config too short"),
            GpioError::BadMagic => String::from_str("Invalid GPIO config magic"),
            GpioError::BadVersion => String::from_str("Unsupported GPIO config version"),
            GpioError::OutOfRange(pin) => {
                let number = decimal_string(*pin as u64);
                concat3("GPIO ", number.as_str(), " out of range (max 39)")
            },
            GpioError::Reserved(pin) => {
                let number = decimal_string(*pin as u64);
                concat3("GPIO ", number.as_str(), " is reserved for flash")
            },
            GpioError::NotUnique => String::from_str("GPIO pins must be unique"),
        }
    }
}

impl StoreError {
    /// The error in words.
    pub fn message(&self) -> (m: String)
        ensures
            m@ == store_error_text(*self),
    {
        match self {
            StoreError::TooManyProfiles => String::from_str("Too many profiles (max 8)"),
            StoreError::ProfileInvalid(i, pe) => {
                let number = decimal_string(*i as u64);
                let mut m = concat3("Profile ", number.as_str(), " invalid: ");
                let inner = pe.message();
                m.append(inner.as_str());
                m
            },
            StoreError::MaxProfilesReached => String::from_str("Maximum profiles reached"),
            StoreError::IndexOutOfRange => String::from_str("Profile index out of range"),
            StoreError::Gpio(ge) => ge.message(),
        }
    }
}

} // verus!
