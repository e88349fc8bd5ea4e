//! The texts that the configuration page exchanges with a device: profiles
//! and pins as small JSON objects.
//!
//! Only what the page itself writes is read: a string value runs up to the
//! next quotation mark, and a number is a run of digits behind a colon.

use crate::ascii::str_from_utf8;
use crate::config::{GpioConfig, ProfileSpec, WifiProfile};
use crate::text::{
    all_digits, concat3, decimal_string, decimal_text, digit_char, digits_end, digits_end_spec,
    digits_value, find_char, find_char_spec, find_spec, find_text, is_digit, is_space,
    occurs_at, parse_number, parse_number_spec, slice, tail, trim_start, trim_start_spec,
};
use vstd::prelude::*;
use vstd::string::*;
use vstd::utf8::{decode_utf8, valid_utf8};

verus! {

/// A character as it stands inside a JSON string.
pub open spec fn escape_char(c: char) -> Seq<char> {
    if c == '\\' {
        seq!['\\', '\\']
    } else if c == '"' {
        seq!['\\', '"']
    } else if c == '\n' {
        seq!['\\', 'n']
    } else if c == '\r' {
        seq!['\\', 'r']
    } else if c == '\t' {
        seq!['\\', 't']
    } else {
        seq![c]
    }
}

/// A text as it stands inside a JSON string.
pub open spec fn escape_json_spec(s: Seq<char>) -> Seq<char>
    decreases s.len(),
{
    if s.len() == 0 {
        Seq::empty()
    } else {
        escape_json_spec(s.drop_last()) + escape_char(s.last())
    }
}

/// A profile as the page lists it.
pub open spec fn profile_item(p: ProfileSpec) -> Seq<char> {
    "{\"ssid\":\""@ + escape_json_spec(p.ssid) + "\",\"server_name\":\""@ + escape_json_spec(
        p.server_name,
    ) + "\"}"@
}

/// The first `upto` profiles as the page lists them, with commas between.
pub open spec fn profile_items(profiles: Seq<ProfileSpec>, upto: int) -> Seq<char>
    decreases upto,
{
    if upto <= 0 {
        Seq::empty()
    } else if upto == 1 {
        profile_item(profiles[0])
    } else {
        profile_items(profiles, upto - 1) + ","@ + profile_item(profiles[upto - 1])
    }
}

/// The list of profiles for the page.
pub open spec fn profiles_to_json_spec(profiles: Seq<ProfileSpec>) -> Seq<char> {
    "["@ + profile_items(profiles, profiles.len() as int) + "]"@
}

/// The pins for the page.
pub open spec fn gpio_to_json_spec(gpio: GpioConfig) -> Seq<char> {
    "{\"key_input\":"@ + decimal_text(gpio.key_output as nat) + ",\"button\":"@ + decimal_text(
        gpio.button as nat,
    ) + ",\"led\":"@ + decimal_text(gpio.led as nat) + "}"@
}

/// The string value that follows the first `"key":"`, up to the next
/// quotation mark.
pub open spec fn extract_spec(s: Seq<char>, key: Seq<char>) -> Option<Seq<char>> {
    let pattern = "\""@ + key + "\":\""@;
    match find_spec(s, pattern, 0) {
        None => None,
        Some(at) => {
            let start = at + pattern.len();
            let end = find_char_spec(s, '"', start);
            if end >= s.len() {
                None
            } else {
                Some(s.subrange(start, end))
            }
        },
    }
}

/// The number that follows the first `"key"` and a colon.
pub open spec fn extract_num_spec(s: Seq<char>, key: Seq<char>) -> Option<nat> {
    let name = "\""@ + key + "\""@;
    match find_spec(s, name, 0) {
        None => None,
        Some(at) => {
            let colon = find_char_spec(s, ':', at + name.len());
            if colon >= s.len() {
                None
            } else {
                let after = trim_start_spec(s.skip(colon + 1));
                let end = digits_end_spec(after, 0);
                if end == 0 {
                    None
                } else {
                    parse_number_spec(after.take(end), 255)
                }
            }
        },
    }
}

/// A string value, or nothing where there is none.
pub open spec fn or_empty(v: Option<Seq<char>>) -> Seq<char> {
    match v {
        Some(t) => t,
        None => Seq::empty(),
    }
}

/// The profile that a text of the page describes: its SSID and server name
/// must be there.
pub open spec fn parse_profile_text(s: Seq<char>) -> Option<ProfileSpec> {
    if extract_spec(s, "ssid"@) is None || extract_spec(s, "server_name"@) is None {
        None
    } else {
        Some(
            ProfileSpec {
                ssid: extract_spec(s, "ssid"@)->0,
                password: or_empty(extract_spec(s, "password"@)),
                server_name: extract_spec(s, "server_name"@)->0,
                server_password: or_empty(extract_spec(s, "server_password"@)),
                tethering: false,
            },
        )
    }
}

/// The profile that the bytes of a request describe.
pub open spec fn parse_profile_json_spec(data: Seq<u8>) -> Option<ProfileSpec> {
    if valid_utf8(data) {
        parse_profile_text(decode_utf8(data))
    } else {
        None
    }
}

/// The pins that a text of the page describes: all three must be there.
pub open spec fn parse_gpio_text(s: Seq<char>) -> Option<GpioConfig> {
    if extract_num_spec(s, "key_input"@) is None || extract_num_spec(s, "button"@) is None
        || extract_num_spec(s, "led"@) is None {
        None
    } else {
        Some(
            GpioConfig {
                key_output: extract_num_spec(s, "key_input"@)->0 as u8,
                button: extract_num_spec(s, "button"@)->0 as u8,
                led: extract_num_spec(s, "led"@)->0 as u8,
            },
        )
    }
}

/// The pins that the bytes of a request describe.
pub open spec fn parse_gpio_json_spec(data: Seq<u8>) -> Option<GpioConfig> {
    if valid_utf8(data) {
        parse_gpio_text(decode_utf8(data))
    } else {
        None
    }
}

/// Writes a text as it stands inside a JSON string.
pub fn escape_json(s: &str) -> (r: String)
    ensures
        r@ == escape_json_spec(s@),
{
    let n: usize = s.unicode_len();
    let mut r = String::new();
    let mut i: usize = 0;
    assert(s@.take(0) =~= Seq::<char>::empty());
    while i < n
        invariant
            n == s@.len(),
            i <= n,
            r@ == escape_json_spec(s@.take(i as int)),
        decreases n - i,
    {
        let c = s.get_char(i);
        let ghost before = r@;
        if c == '\\' {
            r.append("\\\\");
        } else if c == '"' {
            r.append("\\\"");
        } else if c == '\n' {
            r.append("\\n");
        } else if c == '\r' {
            r.append("\\r");
        } else if c == '\t' {
            r.append("\\t");
        } else {
            r.append(s.substring_char(i, i + 1));
        }
        proof {
            assert(s@.take(i + 1).drop_last() =~= s@.take(i as int));
            assert(s@.take(i + 1).last() == c);
            assert(s@.subrange(i as int, i + 1) =~= seq![c]);
            reveal_strlit("\\\\");
            reveal_strlit("\\\"");
            reveal_strlit("\\n");
            reveal_strlit("\\r");
            reveal_strlit("\\t");
            assert("\\\\"@ =~= seq!['\\', '\\']);
            assert("\\\""@ =~= seq!['\\', '"']);
            assert("\\n"@ =~= seq!['\\', 'n']);
            assert("\\r"@ =~= seq!['\\', 'r']);
            assert("\\t"@ =~= seq!['\\', 't']);
            assert(r@ =~= before + escape_char(c));
        }
        i += 1;
    }
    assert(s@.take(n as int) =~= s@);
    r
}

/// Writes the list of profiles for the page.
pub fn profiles_to_json(profiles: &[WifiProfile]) -> (r: String)
    ensures
        r@ == profiles_to_json_spec(crate::config::profiles_view(profiles@)),
{
    let ghost view = crate::config::profiles_view(profiles@);
    let n: usize = profiles.len();
    let mut r = String::from_str("[");
    let mut i: usize = 0;
    assert(r@ =~= "["@ + profile_items(view, 0));
    while i < n
        invariant
            n == profiles@.len(),
            view == crate::config::profiles_view(profiles@),
            i <= n,
            r@ == "["@ + profile_items(view, i as int),
        decreases n - i,
    {
        let p = &profiles[i];
        assert(view[i as int] == p@);
        let ghost before = r@;
        if i > 0 {
            r.append(",");
        }
        r.append("{\"ssid\":\"");
        let ssid = escape_json(p.ssid.as_str());
        r.append(ssid.as_str());
        r.append("\",\"server_name\":\"");
        let server = escape_json(p.server_name.as_str());
        r.append(server.as_str());
        r.append("\"}");
        proof {
            if i > 0 {
                assert(r@ =~= before + ","@ + profile_item(p@));
            } else {
                assert(r@ =~= before + profile_item(p@));
            }
            assert(r@ =~= "["@ + profile_items(view, i + 1));
        }
        i += 1;
    }
    r.append("]");
    r
}

/// Writes the pins for the page.
pub fn gpio_to_json(gpio: &GpioConfig) -> (r: String)
    ensures
        r@ == gpio_to_json_spec(*gpio),
{
    let mut r = String::from_str("{\"key_input\":");
    let key = decimal_string(gpio.key_output as u64);
    r.append(key.as_str());
    r.append(",\"button\":");
    let button = decimal_string(gpio.button as u64);
    r.append(button.as_str());
    r.append(",\"led\":");
    let led = decimal_string(gpio.led as u64);
    r.append(led.as_str());
    r.append("}");
    r
}

/// The string value that follows the first `"key":"`.
pub fn extract<'a>(s: &'a str, key: &str) -> (r: Option<&'a str>)
    ensures
        match r {
            Some(v) => extract_spec(s@, key@) == Some(v@),
            None => extract_spec(s@, key@) is None,
        },
{
    let total: usize = s.unicode_len();
    let pattern = concat3("\"", key, "\":\"");
    let at = match find_text(s, pattern.as_str(), 0) {
        Some(at) => at,
        None => {
            return None;
        },
    };
    let start = at + pattern.as_str().unicode_len();
    let end = find_char(s, '"', start);
    if end >= s.unicode_len() {
        None
    } else {
        Some(slice(s, start, end))
    }
}

/// The number that follows the first `"key"` and a colon.
pub fn extract_num(s: &str, key: &str) -> (r: Option<u8>)
    ensures
        match r {
            Some(v) => extract_num_spec(s@, key@) == Some(v as nat),
            None => extract_num_spec(s@, key@) is None,
        },
{
    let total: usize = s.unicode_len();
    let name = concat3("\"", key, "\"");
    let at = match find_text(s, name.as_str(), 0) {
        Some(at) => at,
        None => {
            return None;
        },
    };
    let colon = find_char(s, ':', at + name.as_str().unicode_len());
    if colon >= s.unicode_len() {
        return None;
    }
    let after = trim_start(tail(s, colon + 1));
    let end = digits_end(after, 0);
    if end == 0 {
        return None;
    }
    assert(after@.subrange(0, end as int) =~= after@.take(end as int));
    match parse_number(slice(after, 0, end), 255) {
        Some(v) => Some(v as u8),
        None => None,
    }
}

/// Reads the profile that a request of the page describes.
pub fn parse_profile_json(data: &[u8]) -> (r: Option<WifiProfile>)
    ensures
        match r {
            Some(p) => parse_profile_json_spec(data@) == Some(p@),
            None => parse_profile_json_spec(data@) is None,
        },
{
    let s = match str_from_utf8(data) {
        Some(s) => s,
        None => {
            return None;
        },
    };
    let ssid = match extract(s, "ssid") {
        Some(v) => v,
        None => {
            return None;
        },
    };
    let password = match extract(s, "password") {
        Some(v) => String::from_str(v),
        None => String::new(),
    };
    let server_name = match extract(s, "server_name") {
        Some(v) => v,
        None => {
            return None;
        },
    };
    let server_password = match extract(s, "server_password") {
        Some(v) => String::from_str(v),
        None => String::new(),
    };
    Some(
        WifiProfile {
            ssid: String::from_str(ssid),
            password,
            server_name: String::from_str(server_name),
            server_password,
            tethering: false,
        },
    )
}

/// Reads the pins that a request of the page describes.
pub fn parse_gpio_json(data: &[u8]) -> (r: Option<GpioConfig>)
    ensures
        r == parse_gpio_json_spec(data@),
{
    let s = match str_from_utf8(data) {
        Some(s) => s,
        None => {
            return None;
        },
    };
    let key_output = match extract_num(s, "key_input") {
        Some(v) => v,
        None => {
            return None;
        },
    };
    let button = match extract_num(s, "button") {
        Some(v) => v,
        None => {
            return None;
        },
    };
    let led = match extract_num(s, "led") {
        Some(v) => v,
        None => {
            return None;
        },
    };
    Some(GpioConfig { key_output, button, led })
}

/// The decimal text of a number is a run of digits, one at least, that
/// stands for the number.
pub proof fn lemma_decimal_text_reads_back(n: nat)
    ensures
        decimal_text(n).len() >= 1,
        all_digits(decimal_text(n)),
        digits_value(decimal_text(n)) == n,
    decreases n,
{
    let d = decimal_text(n);
    if n < 10 {
        assert(d.drop_last() =~= Seq::<char>::empty());
        assert(digits_value(d.drop_last()) == 0);
        assert(d.last() == digit_char(n));
        assert(digit_char(n) as u32 == 0x30 + n);
    } else {
        lemma_decimal_text_reads_back(n / 10);
        assert(d.drop_last() =~= decimal_text(n / 10));
        assert(d.last() == digit_char(n % 10));
        assert(digit_char(n % 10) as u32 == 0x30 + n % 10);
        assert forall|i: int| 0 <= i < d.len() implies is_digit(#[trigger] d[i]) by {
            if i < d.len() - 1 {
                assert(d[i] == decimal_text(n / 10)[i]);
            }
        }
    }
}

/// A pattern is found at `at` where it stands there and, before `at`, its
/// first two characters stand nowhere one behind the other.
pub proof fn lemma_found_at(s: Seq<char>, pattern: Seq<char>, from: int, at: int)
    requires
        0 <= from <= at,
        pattern.len() >= 2,
        occurs_at(s, pattern, at),
        forall|i: int| from <= i < at ==> #[trigger] s[i] != pattern[0] || s[i + 1] != pattern[1],
    ensures
        find_spec(s, pattern, from) == Some(at),
    decreases at - from,
{
    if from < at {
        if occurs_at(s, pattern, from) {
            let w = s.subrange(from, from + pattern.len());
            assert(w[0] == s[from]);
            assert(w[1] == s[from + 1]);
        }
        lemma_found_at(s, pattern, from + 1, at);
    }
}

/// A run of digits ends where the first other character stands.
pub proof fn lemma_digits_end_at(s: Seq<char>, from: int, end: int)
    requires
        0 <= from <= end < s.len(),
        forall|i: int| from <= i < end ==> is_digit(#[trigger] s[i]),
        !is_digit(s[end]),
    ensures
        digits_end_spec(s, from) == end,
    decreases end - from,
{
    if from < end {
        lemma_digits_end_at(s, from + 1, end);
    }
}

/// A number is read back where its name stands in quotation marks at `at`
/// and nowhere before, a colon follows, then the number in decimal, and then
/// a character that is no digit.
pub proof fn lemma_number_is_read(s: Seq<char>, key: Seq<char>, at: int, n: nat)
    requires
        key.len() >= 1,
        n <= 255,
        occurs_at(s, seq!['"'] + key + seq!['"'], at),
        forall|i: int| 0 <= i < at ==> #[trigger] s[i] != '"' || s[i + 1] != key[0],
        at + key.len() + 3 + decimal_text(n).len() < s.len(),
        s[at + key.len() + 2] == ':',
        s.subrange(at + key.len() + 3, at + key.len() + 3 + decimal_text(n).len())
            == decimal_text(n),
        !is_digit(s[at + key.len() + 3 + decimal_text(n).len()]),
    ensures
        extract_num_spec(s, key) == Some(n),
{
    reveal_strlit("\"");
    let name = "\""@ + key + "\""@;
    assert(name =~= seq!['"'] + key + seq!['"']);
    assert(name[0] == '"' && name[1] == key[0]);
    lemma_found_at(s, name, 0, at);
    let d = decimal_text(n);
    lemma_decimal_text_reads_back(n);
    let colon = at + name.len();
    assert(find_char_spec(s, ':', colon) == colon);
    let rest = s.skip(colon + 1);
    assert(rest.len() > 0 && rest[0] == d[0]) by {
        assert(s.subrange(colon + 1, colon + 1 + d.len())[0] == s[colon + 1]);
    }
    assert(is_digit(d[0]));
    assert(!is_space(rest[0]));
    assert(trim_start_spec(rest) == rest);
    assert forall|i: int| 0 <= i < d.len() implies is_digit(#[trigger] rest[i]) by {
        assert(s.subrange(colon + 1, colon + 1 + d.len())[i] == s[colon + 1 + i]);
        assert(is_digit(d[i]));
    }
    lemma_digits_end_at(rest, 0, d.len() as int);
    assert(rest.take(d.len() as int) =~= d);
    assert(d[0] != '+');
}

/// The pins that the page is given are the pins that it reads back.
pub proof fn lemma_gpio_json_round_trip(gpio: GpioConfig)
    ensures
        parse_gpio_text(gpio_to_json_spec(gpio)) == Some(gpio),
{
    reveal_strlit("{\"key_input\":");
    reveal_strlit(",\"button\":");
    reveal_strlit(",\"led\":");
    reveal_strlit("}");
    reveal_strlit("key_input");
    reveal_strlit("button");
    reveal_strlit("led");
    let a = "{\"key_input\":"@;
    let b = ",\"button\":"@;
    let c = ",\"led\":"@;
    let e = "}"@;
    let d1 = decimal_text(gpio.key_output as nat);
    let d2 = decimal_text(gpio.button as nat);
    let d3 = decimal_text(gpio.led as nat);
    lemma_decimal_text_reads_back(gpio.key_output as nat);
    lemma_decimal_text_reads_back(gpio.button as nat);
    lemma_decimal_text_reads_back(gpio.led as nat);
    let s = gpio_to_json_spec(gpio);
    let p1 = a.len() as int;
    let p2 = p1 + d1.len();
    let p3 = p2 + b.len();
    let p4 = p3 + d2.len();
    let p5 = p4 + c.len();
    let p6 = p5 + d3.len();
    assert(s.len() == p6 + 1);
    assert forall|i: int| 0 <= i < s.len() implies #[trigger] s[i] == (if i < p1 {
        a[i]
    } else if i < p2 {
        d1[i - p1]
    } else if i < p3 {
        b[i - p2]
    } else if i < p4 {
        d2[i - p3]
    } else if i < p5 {
        c[i - p4]
    } else if i < p6 {
        d3[i - p5]
    } else {
        e[i - p6]
    }) by {}
    assert forall|i: int| p1 <= i < p2 implies is_digit(#[trigger] s[i]) by {
        assert(is_digit(d1[i - p1]));
    }
    assert forall|i: int| p3 <= i < p4 implies is_digit(#[trigger] s[i]) by {
        assert(is_digit(d2[i - p3]));
    }
    assert forall|i: int| p5 <= i < p6 implies is_digit(#[trigger] s[i]) by {
        assert(is_digit(d3[i - p5]));
    }
    assert(s.subrange(1, 12) =~= seq!['"'] + "key_input"@ + seq!['"']);
    assert(s.subrange(p1, p2) =~= d1);
    lemma_number_is_read(s, "key_input"@, 1, gpio.key_output as nat);
    assert(s.subrange(p2 + 1, p2 + 9) =~= seq!['"'] + "button"@ + seq!['"']);
    assert(s.subrange(p3, p3 + d2.len()) =~= d2);
    lemma_number_is_read(s, "button"@, p2 + 1, gpio.button as nat);
    assert(s.subrange(p4 + 1, p4 + 6) =~= seq!['"'] + "led"@ + seq!['"']);
    assert(s.subrange(p5, p5 + d3.len()) =~= d3);
    lemma_number_is_read(s, "led"@, p4 + 1, gpio.led as nat);
}

} // verus!
