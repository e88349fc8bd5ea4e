//! The command line of a device: one line in, one reply out.
//!
//! ```text
//! AT                  is answered with OK
//! AT+LIST             lists the profiles
//! AT+ADD=<ssid>,<wifipass>,<server>,<serverpass>[,<tethering>]
//! AT+DEL=<n>          drops the profile at n
//! AT+CLEAR            drops every profile
//! AT+GPIO             shows the pins
//! AT+GPIO=<key>,<btn>,<led>   sets the pins
//! AT+GPIO=DEFAULT     goes back to the pins of the board
//! AT+RESTART, AT+INFO, AT+HELP
//! ```
//!
//! Every reply ends in `OK` or `ERROR` and a line break.

use crate::config::{
    board_pins, effective_gpio, gpio_to_bytes_spec, gpio_validate_spec, save_verdict,
    store_error_text, Board, ConfigManager, GpioConfig, ProfileSpec, StoreError, StoreSpec,
    WifiProfile, MAX_PROFILES,
};
use crate::text::{
    concat2, concat3, decimal_string, decimal_text, eq_ignore_ascii_case, eq_ignore_case_spec,
    parse_number, parse_number_spec, split_commas, split_spec, fields_view, starts_with_spec,
    str_eq, strip_prefix, trim, trim_spec,
};
use vstd::prelude::*;
use vstd::string::*;

verus! {

/// How a reply ends where the command was carried out.
pub const OK: &'static str = "OK\r\n";

/// How a reply ends where it was not.
pub const ERROR: &'static str = "ERROR\r\n";

/// The version that `AT+INFO` shows.
pub const VERSION: &'static str = "0.1.0";

/// What `AT+HELP` shows in front of `OK`.
pub const HELP: &'static str =
    "WifiKey Serial Commands:\r\nAT          - Test connection\r\nAT+LIST     - List all profiles\r\nAT+ADD=<ssid>,<wifipass>,<server>,<serverpass>[,<tethering>] - Add profile\r\nAT+DEL=<n>  - Delete profile at index n\r\nAT+CLEAR    - Clear all profiles\r\nAT+GPIO     - Show GPIO settings\r\nAT+GPIO=<key>,<btn>,<led> - Set GPIO pins (DANGER!)\r\nAT+GPIO=DEFAULT - Reset GPIO to defaults\r\nAT+RESTART  - Restart device\r\nAT+INFO     - Show device info\r\nAT+HELP     - Show this help\r\n";

/// How `AT+ADD` is to be written.
pub const ADD_USAGE: &'static str =
    "Usage: AT+ADD=<ssid>,<wifipass>,<server>,<serverpass>[,<tethering>]\r\n";

/// How `AT+GPIO=` is to be written.
pub const GPIO_USAGE: &'static str =
    "Usage: AT+GPIO=<key>,<btn>,<led>\r\nExample: AT+GPIO=19,39,27\r\nUse AT+GPIO=DEFAULT to reset\r\n";

/// What follows the new pins in the reply to `AT+GPIO=`.
pub const GPIO_WARNING: &'static str =
    "\r\n*** WARNING: GPIO SETTINGS CHANGED ***\r\nIncorrect settings may cause malfunction.\r\nRestart device to apply changes.\r\nUse AT+GPIO=DEFAULT to restore.\r\n";

/// The reply to a line, and whether the device is to restart once the reply
/// has been written.
#[derive(Clone, Debug, PartialEq, Eq)]
pub struct CommandReply {
    pub text: String,
    pub restart: bool,
}

/// The reply to `AT+HELP`.
pub open spec fn help_spec() -> Seq<char> {
    HELP@ + OK@
}

/// The reply to `AT+INFO`.
pub open spec fn info_spec() -> Seq<char> {
    "WifiKey ESP32 Client\r\nVersion: "@ + VERSION@ + "\r\n"@ + OK@
}

/// The line of `AT+LIST` for the profile at `index`.
pub open spec fn list_line(index: int, p: ProfileSpec) -> Seq<char> {
    "["@ + decimal_text(index as nat) + "] SSID="@ + p.ssid + " SERVER="@ + p.server_name + (if p.tethering {
        " [T]"@
    } else {
        ""@
    }) + "\r\n"@
}

/// The lines of `AT+LIST` for the first `upto` profiles.
pub open spec fn list_lines(profiles: Seq<ProfileSpec>, upto: int) -> Seq<char>
    decreases upto,
{
    if upto <= 0 {
        Seq::empty()
    } else {
        list_lines(profiles, upto - 1) + list_line(upto - 1, profiles[upto - 1])
    }
}

/// The reply to `AT+LIST`.
pub open spec fn list_spec(s: StoreSpec) -> Seq<char> {
    if s.profiles.len() == 0 {
        "No profiles configured\r\n"@ + OK@
    } else {
        list_lines(s.profiles, s.profiles.len() as int) + OK@
    }
}

/// The reply to a request that the store refused.
pub open spec fn failed_spec(e: StoreError) -> Seq<char> {
    "Failed: "@ + store_error_text(e) + "\r\n"@ + ERROR@
}

/// The field at `i`, trimmed, or nothing where there are fewer fields.
pub open spec fn field_or_empty(fields: Seq<Seq<char>>, i: int) -> Seq<char> {
    if i < fields.len() {
        trim_spec(fields[i])
    } else {
        Seq::empty()
    }
}

/// The profile that the arguments of `AT+ADD` describe.
pub open spec fn requested_profile(fields: Seq<Seq<char>>) -> ProfileSpec {
    ProfileSpec {
        ssid: field_or_empty(fields, 0),
        password: field_or_empty(fields, 1),
        server_name: field_or_empty(fields, 2),
        server_password: field_or_empty(fields, 3),
        tethering: field_or_empty(fields, 4) == "1"@ || field_or_empty(fields, 4) == "true"@,
    }
}

/// Whether the store takes one more profile.
pub open spec fn add_verdict(s: StoreSpec, p: ProfileSpec) -> Result<(), StoreError> {
    if s.profiles.len() >= MAX_PROFILES {
        Err(StoreError::MaxProfilesReached)
    } else {
        save_verdict(s.profiles.push(p))
    }
}

/// `AT+ADD=`: the store afterwards, and the reply.
pub open spec fn add_spec(args: Seq<char>, s: StoreSpec) -> (StoreSpec, Seq<char>) {
    let fields = split_spec(args, 5);
    let p = requested_profile(fields);
    if fields.len() < 3 {
        (s, ADD_USAGE@ + ERROR@)
    } else if p.ssid.len() == 0 || p.server_name.len() == 0 {
        (s, "SSID and server name are required\r\n"@ + ERROR@)
    } else {
        match add_verdict(s, p) {
            Ok(()) => (
                StoreSpec { profiles: s.profiles.push(p), ..s },
                "Profile added\r\n"@ + OK@,
            ),
            Err(e) => (s, failed_spec(e)),
        }
    }
}

/// Whether the store drops the profile at `index`.
pub open spec fn remove_verdict(s: StoreSpec, index: nat) -> Result<(), StoreError> {
    if index >= s.profiles.len() {
        Err(StoreError::IndexOutOfRange)
    } else {
        save_verdict(s.profiles.remove(index as int))
    }
}

/// `AT+DEL=`: the store afterwards, and the reply.
pub open spec fn delete_spec(args: Seq<char>, s: StoreSpec) -> (StoreSpec, Seq<char>) {
    match parse_number_spec(trim_spec(args), u32::MAX as nat) {
        None => (s, "Invalid index\r\n"@ + ERROR@),
        Some(index) => match remove_verdict(s, index) {
            Ok(()) => (
                StoreSpec { profiles: s.profiles.remove(index as int), ..s },
                "Profile "@ + decimal_text(index) + " deleted\r\n"@ + OK@,
            ),
            Err(e) => (s, failed_spec(e)),
        },
    }
}

/// The reply to `AT+GPIO`.
pub open spec fn show_gpio_spec(s: StoreSpec) -> Seq<char> {
    let gpio = effective_gpio(s.gpio, board_pins(Board::Generic));
    "GPIO Configuration "@ + (if gpio != board_pins(Board::Generic) {
        "(custom)"@
    } else {
        "(default)"@
    }) + ":\r\nKEY_INPUT = GPIO"@ + decimal_text(gpio.key_output as nat) + "\r\nBUTTON    = GPIO"@
        + decimal_text(gpio.button as nat) + "\r\nLED       = GPIO"@ + decimal_text(gpio.led as nat)
        + "\r\n"@ + OK@
}

/// The pin that a field of `AT+GPIO=` names.
pub open spec fn pin_spec(field: Seq<char>) -> Option<nat> {
    parse_number_spec(trim_spec(field), 255)
}

/// `AT+GPIO=`: the store afterwards, and the reply.
pub open spec fn set_gpio_spec(args: Seq<char>, s: StoreSpec) -> (StoreSpec, Seq<char>) {
    let a = trim_spec(args);
    let fields = split_spec(a, usize::MAX as nat);
    if eq_ignore_case_spec(a, "DEFAULT"@) {
        (StoreSpec { gpio: None, ..s }, "GPIO reset to defaults. Restart to apply.\r\n"@ + OK@)
    } else if fields.len() != 3 {
        (s, GPIO_USAGE@ + ERROR@)
    } else if pin_spec(fields[0]) is None {
        (s, "Invalid pin: "@ + fields[0] + "\r\n"@ + ERROR@)
    } else if pin_spec(fields[1]) is None {
        (s, "Invalid pin: "@ + fields[1] + "\r\n"@ + ERROR@)
    } else if pin_spec(fields[2]) is None {
        (s, "Invalid pin: "@ + fields[2] + "\r\n"@ + ERROR@)
    } else {
        let config = GpioConfig {
            key_output: pin_spec(fields[0])->0 as u8,
            button: pin_spec(fields[1])->0 as u8,
            led: pin_spec(fields[2])->0 as u8,
        };
        match gpio_validate_spec(config) {
            Err(e) => (
                s,
                "Validation failed: "@ + crate::config::gpio_error_text(e) + "\r\n"@ + ERROR@,
            ),
            Ok(()) => (
                StoreSpec { gpio: Some(gpio_to_bytes_spec(config)), ..s },
                "GPIO set: key="@ + decimal_text(config.key_output as nat) + ", btn="@
                    + decimal_text(config.button as nat) + ", led="@ + decimal_text(
                    config.led as nat,
                ) + GPIO_WARNING@ + OK@,
            ),
        }
    }
}

/// What a line does: the store afterwards, the reply, and whether the device
/// is to restart. The names of the commands are read without regard to
/// case; those that take arguments are read in capitals or in small letters
/// throughout.
pub open spec fn command_spec(line: Seq<char>, s: StoreSpec) -> (StoreSpec, Seq<char>, bool) {
    let l = trim_spec(line);
    if l.len() == 0 {
        (s, Seq::empty(), false)
    } else if eq_ignore_case_spec(l, "AT"@) {
        (s, OK@, false)
    } else if eq_ignore_case_spec(l, "AT+HELP"@) {
        (s, help_spec(), false)
    } else if eq_ignore_case_spec(l, "AT+INFO"@) {
        (s, info_spec(), false)
    } else if eq_ignore_case_spec(l, "AT+LIST"@) {
        (s, list_spec(s), false)
    } else if eq_ignore_case_spec(l, "AT+CLEAR"@) {
        (StoreSpec { profiles: Seq::empty(), ..s }, "All profiles cleared\r\n"@ + OK@, false)
    } else if eq_ignore_case_spec(l, "AT+RESTART"@) {
        (s, "Restarting...\r\n"@ + OK@, true)
    } else if eq_ignore_case_spec(l, "AT+GPIO"@) {
        (s, show_gpio_spec(s), false)
    } else if starts_with_spec(l, "AT+GPIO="@) {
        let r = set_gpio_spec(l.skip("AT+GPIO="@.len() as int), s);
        (r.0, r.1, false)
    } else if starts_with_spec(l, "at+gpio="@) {
        let r = set_gpio_spec(l.skip("at+gpio="@.len() as int), s);
        (r.0, r.1, false)
    } else if starts_with_spec(l, "AT+ADD="@) {
        let r = add_spec(l.skip("AT+ADD="@.len() as int), s);
        (r.0, r.1, false)
    } else if starts_with_spec(l, "at+add="@) {
        let r = add_spec(l.skip("at+add="@.len() as int), s);
        (r.0, r.1, false)
    } else if starts_with_spec(l, "AT+DEL="@) {
        let r = delete_spec(l.skip("AT+DEL="@.len() as int), s);
        (r.0, r.1, false)
    } else if starts_with_spec(l, "at+del="@) {
        let r = delete_spec(l.skip("at+del="@.len() as int), s);
        (r.0, r.1, false)
    } else {
        (s, "Unknown command: "@ + l + "\r\n"@ + ERROR@, false)
    }
}

/// The reply to `AT+HELP`.
pub fn help_text() -> (r: String)
    ensures
        r@ == help_spec(),
{
    concat2(HELP, OK)
}

/// The reply to `AT+INFO`.
pub fn device_info() -> (r: String)
    ensures
        r@ == info_spec(),
{
    let mut r = concat3("WifiKey ESP32 Client\r\nVersion: ", VERSION, "\r\n");
    r.append(OK);
    r
}

/// The reply to a request that the store refused.
pub fn failed(e: StoreError) -> (r: String)
    ensures
        r@ == failed_spec(e),
{
    let m = e.message();
    let mut r = concat3("Failed: ", m.as_str(), "\r\n");
    r.append(ERROR);
    r
}

/// The reply to `AT+LIST`.
pub fn list_profiles(cm: &ConfigManager) -> (r: String)
    ensures
        r@ == list_spec(cm@),
{
    let profiles = cm.load_profiles();
    let n: usize = profiles.len();
    if n == 0 {
        return concat2("No profiles configured\r\n", OK);
    }
    let mut r = String::new();
    let mut i: usize = 0;
    assert(r@ =~= list_lines(cm@.profiles, 0));
    while i < n
        invariant
            n == profiles@.len(),
            i <= n,
            crate::config::profiles_view(profiles@) == cm@.profiles,
            r@ == list_lines(cm@.profiles, i as int),
        decreases n - i,
    {
        let p = &profiles[i];
        assert(cm@.profiles[i as int] == p@);
        let ghost before = r@;
        let number = decimal_string(i as u64);
        r.append("[");
        r.append(number.as_str());
        r.append("] SSID=");
        r.append(p.ssid.as_str());
        r.append(" SERVER=");
        r.append(p.server_name.as_str());
        if p.tethering {
            r.append(" [T]");
        } else {
            r.append("");
        }
        r.append("\r\n");
        assert(r@ =~= before + list_line(i as int, p@));
        i += 1;
    }
    r.append(OK);
    r
}

/// The field at `i`, trimmed, or nothing where there are fewer fields.
fn field_at<'a>(fields: &Vec<&'a str>, i: usize) -> (f: &'a str)
    ensures
        f@ == field_or_empty(fields_view(fields@), i as int),
{
    if i < fields.len() {
        assert(fields_view(fields@)[i as int] == fields@[i as int]@);
        trim(fields[i])
    } else {
        let e: &'static str = "";
        proof {
            reveal_strlit("");
        }
        assert(e@ =~= Seq::<char>::empty());
        e
    }
}

/// `AT+ADD=`.
pub fn add_profile(args: &str, cm: &mut ConfigManager) -> (r: String)
    ensures
        (final(cm)@, r@) == add_spec(args@, old(cm)@),
{
    let fields = split_commas(args, 5);
    if fields.len() < 3 {
        return concat2(ADD_USAGE, ERROR);
    }
    let ssid = field_at(&fields, 0);
    let password = field_at(&fields, 1);
    let server_name = field_at(&fields, 2);
    let server_password = field_at(&fields, 3);
    let flag = field_at(&fields, 4);
    let tethering = str_eq(flag, "1") || str_eq(flag, "true");
    if ssid.is_empty() || server_name.is_empty() {
        return concat2("SSID and server name are required\r\n", ERROR);
    }
    let profile = WifiProfile {
        ssid: String::from_str(ssid),
        password: String::from_str(password),
        server_name: String::from_str(server_name),
        server_password: String::from_str(server_password),
        tethering,
    };
    assert(profile@ == requested_profile(fields_view(fields@)));
    match cm.add_profile(profile) {
        Ok(()) => concat2("Profile added\r\n", OK),
        Err(e) => failed(e),
    }
}

/// `AT+DEL=`.
pub fn delete_profile(args: &str, cm: &mut ConfigManager) -> (r: String)
    ensures
        (final(cm)@, r@) == delete_spec(args@, old(cm)@),
{
    let index = match parse_number(trim(args), u32::MAX) {
        Some(i) => i,
        None => {
            return concat2("Invalid index\r\n", ERROR);
        },
    };
    match cm.remove_profile(index as usize) {
        Ok(()) => {
            let number = decimal_string(index as u64);
            let mut r = concat3("Profile ", number.as_str(), " deleted\r\n");
            r.append(OK);
            r
        },
        Err(e) => failed(e),
    }
}

/// `AT+CLEAR`.
pub fn clear_profiles(cm: &mut ConfigManager) -> (r: String)
    ensures
        final(cm)@ == (StoreSpec { profiles: Seq::empty(), ..old(cm)@ }),
        r@ == "All profiles cleared\r\n"@ + OK@,
{
    match cm.clear_all() {
        Ok(()) => concat2("All profiles cleared\r\n", OK),
        Err(e) => failed(e),
    }
}

/// `AT+RESTART`: the reply; the caller restarts the device once it is
/// written.
pub fn restart_device() -> (r: String)
    ensures
        r@ == "Restarting...\r\n"@ + OK@,
{
    concat2("Restarting...\r\n", OK)
}

/// `AT+GPIO`.
pub fn show_gpio(cm: &ConfigManager) -> (r: String)
    ensures
        r@ == show_gpio_spec(cm@),
{
    let gpio = cm.load_gpio_config();
    let defaults = GpioConfig::default();
    let mut r = String::from_str("GPIO Configuration ");
    if gpio != defaults {
        r.append("(custom)");
    } else {
        r.append("(default)");
    }
    r.append(":\r\nKEY_INPUT = GPIO");
    let key = decimal_string(gpio.key_output as u64);
    r.append(key.as_str());
    r.append("\r\nBUTTON    = GPIO");
    let button = decimal_string(gpio.button as u64);
    r.append(button.as_str());
    r.append("\r\nLED       = GPIO");
    let led = decimal_string(gpio.led as u64);
    r.append(led.as_str());
    r.append("\r\n");
    r.append(OK);
    r
}

/// The reply to a field of `AT+GPIO=` that names no pin.
fn invalid_pin(field: &str) -> (r: String)
    ensures
        r@ == "Invalid pin: "@ + field@ + "\r\n"@ + ERROR@,
{
    let mut r = concat3("Invalid pin: ", field, "\r\n");
    r.append(ERROR);
    r
}

/// The pin that a field of `AT+GPIO=` names.
fn parse_pin(field: &str) -> (pin: Option<u8>)
    ensures
        match pin {
            Some(p) => pin_spec(field@) == Some(p as nat),
            None => pin_spec(field@) is None,
        },
{
    match parse_number(trim(field), 255) {
        Some(v) => Some(v as u8),
        None => None,
    }
}

/// `AT+GPIO=`.
pub fn set_gpio(args: &str, cm: &mut ConfigManager) -> (r: String)
    ensures
        (final(cm)@, r@) == set_gpio_spec(args@, old(cm)@),
{
    let args = trim(args);
    if eq_ignore_ascii_case(args, "DEFAULT") {
        return match cm.reset_gpio_config() {
            Ok(()) => concat2("GPIO reset to defaults. Restart to apply.\r\n", OK),
            Err(e) => failed(e),
        };
    }
    let fields = split_commas(args, usize::MAX);
    if fields.len() != 3 {
        return concat2(GPIO_USAGE, ERROR);
    }
    proof {
        let v = fields_view(fields@);
        assert(v[0] == fields@[0]@ && v[1] == fields@[1]@ && v[2] == fields@[2]@);
    }
    let key_output = match parse_pin(fields[0]) {
        Some(v) => v,
        None => {
            return invalid_pin(fields[0]);
        },
    };
    let button = match parse_pin(fields[1]) {
        Some(v) => v,
        None => {
            return invalid_pin(fields[1]);
        },
    };
    let led = match parse_pin(fields[2]) {
        Some(v) => v,
        None => {
            return invalid_pin(fields[2]);
        },
    };
    let config = GpioConfig { key_output, button, led };
    match config.validate() {
        Ok(()) => {},
        Err(e) => {
            let m = e.message();
            let mut r = concat3("Validation failed: ", m.as_str(), "\r\n");
            r.append(ERROR);
            return r;
        },
    }
    match cm.save_gpio_config(&config) {
        Ok(()) => {
            let mut r = String::from_str("GPIO set: key=");
            let key = decimal_string(key_output as u64);
            r.append(key.as_str());
            r.append(", btn=");
            let btn = decimal_string(button as u64);
            r.append(btn.as_str());
            r.append(", led=");
            let l = decimal_string(led as u64);
            r.append(l.as_str());
            r.append(GPIO_WARNING);
            r.append(OK);
            r
        },
        Err(e) => failed(e),
    }
}

/// Carries out one line.
pub fn process_command(line: &str, cm: &mut ConfigManager) -> (reply: CommandReply)
    ensures
        (final(cm)@, reply.text@, reply.restart) == command_spec(line@, old(cm)@),
{
    let line = trim(line);
    if line.is_empty() {
        return CommandReply { text: String::new(), restart: false };
    }
    if eq_ignore_ascii_case(line, "AT") {
        return CommandReply { text: String::from_str(OK), restart: false };
    }
    if eq_ignore_ascii_case(line, "AT+HELP") {
        return CommandReply { text: help_text(), restart: false };
    }
    if eq_ignore_ascii_case(line, "AT+INFO") {
        return CommandReply { text: device_info(), restart: false };
    }
    if eq_ignore_ascii_case(line, "AT+LIST") {
        return CommandReply { text: list_profiles(cm), restart: false };
    }
    if eq_ignore_ascii_case(line, "AT+CLEAR") {
        return CommandReply { text: clear_profiles(cm), restart: false };
    }
    if eq_ignore_ascii_case(line, "AT+RESTART") {
        return CommandReply { text: restart_device(), restart: true };
    }
    if eq_ignore_ascii_case(line, "AT+GPIO") {
        return CommandReply { text: show_gpio(cm), restart: false };
    }
    match strip_prefix(line, "AT+GPIO=") {
        Some(args) => {
            return CommandReply { text: set_gpio(args, cm), restart: false };
        },
        None => {},
    }
    match strip_prefix(line, "at+gpio=") {
        Some(args) => {
            return CommandReply { text: set_gpio(args, cm), restart: false };
        },
        None => {},
    }
    match strip_prefix(line, "AT+ADD=") {
        Some(args) => {
            return CommandReply { text: add_profile(args, cm), restart: false };
        },
        None => {},
    }
    match strip_prefix(line, "at+add=") {
        Some(args) => {
            return CommandReply { text: add_profile(args, cm), restart: false };
        },
        None => {},
    }
    match strip_prefix(line, "AT+DEL=") {
        Some(args) => {
            return CommandReply { text: delete_profile(args, cm), restart: false };
        },
        None => {},
    }
    match strip_prefix(line, "at+del=") {
        Some(args) => {
            return CommandReply { text: delete_profile(args, cm), restart: false };
        },
        None => {},
    }
    let mut text = concat3("Unknown command: ", line, "\r\n");
    text.append(ERROR);
    CommandReply { text, restart: false }
}

} // verus!
