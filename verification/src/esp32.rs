//! The host's side of a device's command line: the commands that the host
//! writes, and what the device's list of profiles reads as.

use crate::config::Esp32Profile;
use crate::text::{
    concat2, decimal_string, decimal_text, find_char, find_char_spec, find_spec, find_text,
    first_word, first_word_spec, parse_number, parse_number_spec, slice, tail,
};
use vstd::prelude::*;
use vstd::string::*;

verus! {

/// A listed profile, as the contracts see it.
pub struct Esp32ProfileSpec {
    pub index: usize,
    pub ssid: Seq<char>,
    pub server_name: Seq<char>,
    pub tethering: bool,
}

impl View for Esp32Profile {
    type V = Esp32ProfileSpec;

    open spec fn view(&self) -> Esp32ProfileSpec {
        Esp32ProfileSpec {
            index: self.index,
            ssid: self.ssid@,
            server_name: self.server_name@,
            tethering: self.tethering,
        }
    }
}

/// The command that adds a profile.
pub open spec fn add_command_spec(
    ssid: Seq<char>,
    wifi_password: Seq<char>,
    server_name: Seq<char>,
    server_password: Seq<char>,
    tethering: bool,
) -> Seq<char> {
    "AT+ADD="@ + ssid + ","@ + wifi_password + ","@ + server_name + ","@ + server_password + (if tethering {
        ",1"@
    } else {
        ""@
    })
}

/// The first word behind the first `key` in `s`, up to the next `key`; empty
/// where `s` holds no `key`.
pub open spec fn word_after_spec(s: Seq<char>, key: Seq<char>) -> Seq<char> {
    match find_spec(s, key, 0) {
        None => Seq::empty(),
        Some(at) => {
            let start = at + key.len();
            let end = match find_spec(s, key, start) {
                Some(e) => e,
                None => s.len() as int,
            };
            first_word_spec(s.subrange(start, end))
        },
    }
}

/// What a line of the list reads as: `[n] SSID=... SERVER=...`, with `[T]`
/// behind it for a tethered network. An index that is no number counts as 0,
/// and a line without an SSID as none.
pub open spec fn list_line_spec(line: Seq<char>) -> Option<Esp32ProfileSpec> {
    if line.len() == 0 || line[0] != '[' {
        None
    } else {
        let rest = line.skip(1);
        let close = find_char_spec(rest, ']', 0);
        let body = rest.skip(close + 1);
        if close >= rest.len() || word_after_spec(body, "SSID="@).len() == 0 {
            None
        } else {
            Some(
                Esp32ProfileSpec {
                    index: match parse_number_spec(rest.take(close), u32::MAX as nat) {
                        Some(v) => v as usize,
                        None => 0,
                    },
                    ssid: word_after_spec(body, "SSID="@),
                    server_name: word_after_spec(body, "SERVER="@),
                    tethering: find_spec(body, "[T]"@, 0) is Some,
                },
            )
        }
    }
}

/// The profiles in the lines of `s` from `from` on.
pub open spec fn list_from(s: Seq<char>, from: int) -> Seq<Esp32ProfileSpec>
    decreases s.len() - from,
{
    if from < 0 || from >= s.len() {
        Seq::empty()
    } else {
        let at = find_char_spec(s, '\n', from);
        if at < from || at > s.len() {
            Seq::empty()
        } else {
            let rest = if at >= s.len() {
                Seq::empty()
            } else {
                list_from(s, at + 1)
            };
            match list_line_spec(s.subrange(from, at)) {
                Some(p) => seq![p] + rest,
                None => rest,
            }
        }
    }
}

/// The views of a list of profiles.
pub open spec fn listed_view(profiles: Seq<Esp32Profile>) -> Seq<Esp32ProfileSpec> {
    Seq::new(profiles.len(), |i: int| profiles[i]@)
}

/// The command that adds a profile.
pub fn add_command(
    ssid: &str,
    wifi_password: &str,
    server_name: &str,
    server_password: &str,
    tethering: bool,
) -> (cmd: String)
    ensures
        cmd@ == add_command_spec(
            ssid@,
            wifi_password@,
            server_name@,
            server_password@,
            tethering,
        ),
{
    let mut cmd = String::from_str("AT+ADD=");
    cmd.append(ssid);
    cmd.append(",");
    cmd.append(wifi_password);
    cmd.append(",");
    cmd.append(server_name);
    cmd.append(",");
    cmd.append(server_password);
    if tethering {
        cmd.append(",1");
    } else {
        cmd.append("");
    }
    cmd
}

/// The command that drops the profile at `index`.
pub fn delete_command(index: usize) -> (cmd: String)
    ensures
        cmd@ == "AT+DEL="@ + decimal_text(index as nat),
{
    let number = decimal_string(index as u64);
    concat2("AT+DEL=", number.as_str())
}

/// Whether a line ends a reply: it holds `OK` or `ERROR`.
pub fn reply_complete(line: &str) -> (b: bool)
    ensures
        b == (find_spec(line@, "OK"@, 0) is Some || find_spec(line@, "ERROR"@, 0) is Some),
{
    find_text(line, "OK", 0).is_some() || find_text(line, "ERROR", 0).is_some()
}

/// The first word behind the first `key` in `s`.
pub fn word_after<'a>(s: &'a str, key: &str) -> (w: &'a str)
    ensures
        w@ == word_after_spec(s@, key@),
{
    let total: usize = s.unicode_len();
    match find_text(s, key, 0) {
        None => {
            let e = slice(s, 0, 0);
            assert(e@ =~= Seq::<char>::empty());
            e
        },
        Some(at) => {
            let start = at + key.unicode_len();
            let end = match find_text(s, key, start) {
                Some(e) => e,
                None => total,
            };
            first_word(slice(s, start, end))
        },
    }
}

/// Reads one line of the list.
pub fn parse_list_line(line: &str) -> (r: Option<Esp32Profile>)
    ensures
        match r {
            Some(p) => list_line_spec(line@) == Some(p@),
            None => list_line_spec(line@) is None,
        },
{
    let n: usize = line.unicode_len();
    if n == 0 || line.get_char(0) != '[' {
        return None;
    }
    let rest = tail(line, 1);
    let close = find_char(rest, ']', 0);
    if close >= rest.unicode_len() {
        return None;
    }
    assert(rest@.subrange(0, close as int) =~= rest@.take(close as int));
    let index: usize = match parse_number(slice(rest, 0, close), u32::MAX) {
        Some(v) => v as usize,
        None => 0,
    };
    let body = tail(rest, close + 1);
    let ssid = word_after(body, "SSID=");
    let server_name = word_after(body, "SERVER=");
    let tethering = find_text(body, "[T]", 0).is_some();
    if ssid.is_empty() {
        return None;
    }
    Some(
        Esp32Profile {
            index,
            ssid: String::from_str(ssid),
            server_name: String::from_str(server_name),
            tethering,
        },
    )
}

/// Reads the reply to `AT+LIST`: the profiles of its lines, in their order.
pub fn parse_profile_list(response: &str) -> (profiles: Vec<Esp32Profile>)
    ensures
        listed_view(profiles@) == list_from(response@, 0),
{
    let n: usize = response.unicode_len();
    let mut profiles: Vec<Esp32Profile> = Vec::new();
    let mut from: usize = 0;
    assert(listed_view(profiles@) =~= Seq::<Esp32ProfileSpec>::empty());
    while from < n
        invariant
            n == response@.len(),
            listed_view(profiles@) + list_from(response@, from as int) == list_from(response@, 0),
        decreases n - from,
    {
        let at = find_char(response, '\n', from);
        let line = slice(response, from, at);
        let ghost before = profiles@;
        match parse_list_line(line) {
            Some(p) => {
                profiles.push(p);
                assert(listed_view(profiles@) =~= listed_view(before) + seq![p@]);
                assert(listed_view(profiles@) + list_from(response@, at + 1) =~= listed_view(
                    before,
                ) + (seq![p@] + list_from(response@, at + 1)));
            },
            None => {},
        }
        if at >= n {
            assert(list_from(response@, at + 1) =~= Seq::<Esp32ProfileSpec>::empty());
            assert(listed_view(profiles@) + list_from(response@, at + 1) =~= listed_view(
                profiles@,
            ));
            assert(list_from(response@, n as int) =~= Seq::<Esp32ProfileSpec>::empty());
            return profiles;
        }
        from = at + 1;
    }
    assert(list_from(response@, from as int) =~= Seq::<Esp32ProfileSpec>::empty());
    assert(listed_view(profiles@) + Seq::<Esp32ProfileSpec>::empty() =~= listed_view(profiles@));
    profiles
}

} // verus!
