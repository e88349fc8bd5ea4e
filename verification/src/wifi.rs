//! Choices around the WiFi of a device: which stored profile fits the
//! networks in reach, how the setup network is named and how it is secured.

use crate::config::{profiles_view, ProfileSpec, WifiProfile};
use crate::text::{concat2, str_eq};
use vstd::prelude::*;
use vstd::string::*;
use vstd::utf8::encode_utf8;

verus! {

/// Shortest password of a secured setup network, in bytes.
pub const MIN_AP_PASSWORD_LEN: usize = 8;

/// How the setup network is secured.
#[derive(Clone, Copy, Debug, PartialEq, Eq, Structural)]
pub enum ApAuth {
    /// Open to everybody.
    Open,
    /// WPA2 with a password.
    Wpa2Personal,
}

/// Why no setup network is started.
#[derive(Clone, Copy, Debug, PartialEq, Eq, Structural)]
pub enum WifiError {
    /// The password is shorter than `MIN_AP_PASSWORD_LEN`.
    PasswordTooShort,
}

/// The capital hex digit of a number below sixteen.
pub open spec fn hex_char(d: nat) -> char
    recommends
        d < 16,
{
    if d < 10 {
        (0x30 + d) as char
    } else {
        (0x41 + d - 10) as char
    }
}

/// A byte as two capital hex digits.
pub open spec fn hex_byte(b: u8) -> Seq<char> {
    seq![hex_char((b / 16) as nat), hex_char((b % 16) as nat)]
}

/// The last three bytes of a hardware address in hex.
pub open spec fn mac_suffix_spec(mac: Seq<u8>) -> Seq<char> {
    hex_byte(mac[3]) + hex_byte(mac[4]) + hex_byte(mac[5])
}

/// Whether a network of this name is among those in reach.
pub open spec fn in_reach(ssid: Seq<char>, seen: Seq<String>) -> bool {
    exists|j: int| 0 <= j < seen.len() && (#[trigger] seen[j])@ == ssid
}

/// The first of the profiles from `from` on whose network is in reach.
pub open spec fn first_in_reach(profiles: Seq<ProfileSpec>, seen: Seq<String>, from: int) -> Option<
    int,
>
    decreases profiles.len() - from,
{
    if from < 0 || from >= profiles.len() {
        None
    } else if in_reach(profiles[from].ssid, seen) {
        Some(from)
    } else {
        first_in_reach(profiles, seen, from + 1)
    }
}

/// How a setup network with this password is secured.
pub open spec fn ap_auth_spec(password: Option<Seq<char>>) -> Result<ApAuth, WifiError> {
    match password {
        None => Ok(ApAuth::Open),
        Some(p) => if encode_utf8(p).len() >= MIN_AP_PASSWORD_LEN {
            Ok(ApAuth::Wpa2Personal)
        } else {
            Err(WifiError::PasswordTooShort)
        },
    }
}

/// The text of one hex digit.
fn hex_digit_str(d: u8) -> (s: &'static str)
    requires
        d < 16,
    ensures
        s@ == seq![hex_char(d as nat)],
{
    proof {
        reveal_strlit("0");
        reveal_strlit("1");
        reveal_strlit("2");
        reveal_strlit("3");
        reveal_strlit("4");
        reveal_strlit("5");
        reveal_strlit("6");
        reveal_strlit("7");
        reveal_strlit("8");
        reveal_strlit("9");
        reveal_strlit("A");
        reveal_strlit("B");
        reveal_strlit("C");
        reveal_strlit("D");
        reveal_strlit("E");
        reveal_strlit("F");
    }
    let s = if d == 0 {
        "0"
    } else if d == 1 {
        "1"
    } else if d == 2 {
        "2"
    } else if d == 3 {
        "3"
    } else if d == 4 {
        "4"
    } else if d == 5 {
        "5"
    } else if d == 6 {
        "6"
    } else if d == 7 {
        "7"
    } else if d == 8 {
        "8"
    } else if d == 9 {
        "9"
    } else if d == 10 {
        "A"
    } else if d == 11 {
        "B"
    } else if d == 12 {
        "C"
    } else if d == 13 {
        "D"
    } else if d == 14 {
        "E"
    } else {
        "F"
    };
    assert(s@ =~= seq![hex_char(d as nat)]);
    s
}

/// Appends a byte as two capital hex digits.
fn push_hex(r: &mut String, b: u8)
    ensures
        final(r)@ == old(r)@ + hex_byte(b),
{
    r.append(hex_digit_str(b / 16));
    r.append(hex_digit_str(b % 16));
    assert(r@ =~= old(r)@ + hex_byte(b));
}

/// The last three bytes of a hardware address in hex.
pub fn get_mac_suffix(mac: &[u8; 6]) -> (r: String)
    ensures
        r@ == mac_suffix_spec(mac@),
{
    let mut r = String::new();
    push_hex(&mut r, mac[3]);
    push_hex(&mut r, mac[4]);
    push_hex(&mut r, mac[5]);
    assert(r@ =~= mac_suffix_spec(mac@));
    r
}

/// The name of the setup network of the device with this hardware address.
pub fn generate_ap_ssid(mac: &[u8; 6]) -> (r: String)
    ensures
        r@ == "WifiKey-"@ + mac_suffix_spec(mac@),
{
    let suffix = get_mac_suffix(mac);
    concat2("WifiKey-", suffix.as_str())
}

/// How a setup network with this password is secured: open without one,
/// WPA2 with one of eight bytes or more, and not at all with a shorter one.
pub fn ap_auth_method(password: Option<&str>) -> (r: Result<ApAuth, WifiError>)
    ensures
        r == ap_auth_spec(
            match password {
                Some(p) => Some(p@),
                None => None,
            },
        ),
{
    match password {
        None => Ok(ApAuth::Open),
        Some(p) => {
            if p.as_bytes().len() >= MIN_AP_PASSWORD_LEN {
                Ok(ApAuth::Wpa2Personal)
            } else {
                Err(WifiError::PasswordTooShort)
            }
        },
    }
}

/// Whether a network of this name is among those in reach.
pub fn ssid_in_reach(ssid: &str, seen: &[String]) -> (b: bool)
    ensures
        b == in_reach(ssid@, seen@),
{
    let n: usize = seen.len();
    let mut j: usize = 0;
    while j < n
        invariant
            n == seen@.len(),
            j <= n,
            forall|k: int| 0 <= k < j ==> (#[trigger] seen@[k])@ != ssid@,
        decreases n - j,
    {
        if str_eq(seen[j].as_str(), ssid) {
            return true;
        }
        j += 1;
    }
    false
}

/// The place of the first stored profile whose network is in reach.
pub fn connect_with_profiles(profiles: &[WifiProfile], seen: &[String]) -> (r: Option<usize>)
    ensures
        match r {
            Some(i) => first_in_reach(profiles_view(profiles@), seen@, 0) == Some(i as int),
            None => first_in_reach(profiles_view(profiles@), seen@, 0) is None,
        },
{
    let n: usize = profiles.len();
    let mut i: usize = 0;
    while i < n
        invariant
            n == profiles@.len(),
            i <= n,
            first_in_reach(profiles_view(profiles@), seen@, 0) == first_in_reach(
                profiles_view(profiles@),
                seen@,
                i as int,
            ),
        decreases n - i,
    {
        assert(profiles_view(profiles@)[i as int] == profiles@[i as int]@);
        if ssid_in_reach(profiles[i].ssid.as_str(), seen) {
            return Some(i);
        }
        i += 1;
    }
    None
}

} // verus!
