use wifikey::config::{ConfigManager, Esp32Profile, GpioConfig, WifiProfile};
use wifikey::esp32::{
    add_command, delete_command, parse_list_line, parse_profile_list, reply_complete, word_after,
};
use wifikey::morse::{morse_code, KeyOp, Keyer};
use wifikey::rendezvous::{
    discovery_plan, instance_matches, mdns_hostname, service_fullname, LongPress, PressStep,
    Probe, LONG_PRESS_MS,
};
use wifikey::rig::{
    encoder_command, get_freq_command, pad_decimal, parse_freq, parse_mode, parse_power,
    parse_swr, reply_body, set_freq_command, set_mode_command, set_power_command, Mode,
    RigError, TuneStep, TuneWatch,
};
use wifikey::serial_cmd::{list_profiles, process_command};
use wifikey::text::{find_text, first_word, trim_start};
use wifikey::web::{
    escape_json, extract, extract_num, gpio_to_json, parse_gpio_json, parse_profile_json,
    profiles_to_json,
};

#[test]
fn json_strings_are_escaped() {
    assert_eq!(escape_json("plain"), "plain");
    assert_eq!(escape_json("a\"b\\c\nd\re\tf"), "a\\\"b\\\\c\\nd\\re\\tf");
    assert_eq!(escape_json(""), "");
    assert_eq!(escape_json("\u{7db2}\\"), "\u{7db2}\\\\");
}

#[test]
fn profiles_are_written_for_the_page() {
    assert_eq!(profiles_to_json(&[]), "[]");
    let list = vec![
        WifiProfile::new("home", "pw", "JA1/key", "s"),
        WifiProfile::new("a\"b", "", "x\\y", ""),
    ];
    assert_eq!(
        profiles_to_json(&list),
        "[{\"ssid\":\"home\",\"server_name\":\"JA1/key\"},{\"ssid\":\"a\\\"b\",\"server_name\":\"x\\\\y\"}]"
    );
    assert_eq!(
        profiles_to_json(&list[..1]),
        "[{\"ssid\":\"home\",\"server_name\":\"JA1/key\"}]"
    );
}

#[test]
fn profile_is_read_from_the_page() {
    let body = br#"{"ssid":"home","password":"pw","server_name":"JA1/key","server_password":"secret"}"#;
    assert_eq!(
        parse_profile_json(body),
        Some(WifiProfile::new("home", "pw", "JA1/key", "secret"))
    );
    assert_eq!(
        parse_profile_json(br#"{"server_name":"s","ssid":"n"}"#),
        Some(WifiProfile::new("n", "", "s", ""))
    );
    assert_eq!(parse_profile_json(br#"{"ssid":"n"}"#), None);
    assert_eq!(parse_profile_json(br#"{"server_name":"s"}"#), None);
    assert_eq!(parse_profile_json(br#"{"ssid":"n","server_name":"s"#), None);
    assert_eq!(parse_profile_json(&[0xff, 0xfe]), None);
    assert_eq!(parse_profile_json(b""), None);
}

#[test]
fn values_are_extracted_by_key() {
    assert_eq!(extract(r#"{"a":"1","b":"2"}"#, "b"), Some("2"));
    assert_eq!(extract(r#"{"a":"1","b":"2"}"#, "c"), None);
    assert_eq!(extract(r#"{"a":"","b":"2"}"#, "a"), Some(""));
    assert_eq!(extract(r#"{"server_password":"x"}"#, "password"), None);
    assert_eq!(extract_num(r#"{"led": 27}"#, "led"), Some(27));
    assert_eq!(extract_num(r#"{"led":27,"x":1}"#, "led"), Some(27));
    assert_eq!(extract_num(r#"{"led":256}"#, "led"), None);
    assert_eq!(extract_num(r#"{"led":"27"}"#, "led"), None);
    assert_eq!(extract_num(r#"{"led":}"#, "led"), None);
    assert_eq!(extract_num(r#"{"led" 27}"#, "led"), None);
    assert_eq!(extract_num(r#"{"led":007}"#, "led"), Some(7));
}

#[test]
fn pins_are_written_and_read_for_the_page() {
    let gpio = GpioConfig { key_output: 19, button: 39, led: 27 };
    assert_eq!(gpio_to_json(&gpio), r#"{"key_input":19,"button":39,"led":27}"#);
    assert_eq!(parse_gpio_json(gpio_to_json(&gpio).as_bytes()), Some(gpio));
    assert_eq!(
        parse_gpio_json(br#"{ "led" : 2, "button":0 , "key_input":  4 }"#),
        Some(GpioConfig { key_output: 4, button: 0, led: 2 })
    );
    assert_eq!(parse_gpio_json(br#"{"key_input":19,"button":39}"#), None);
    assert_eq!(parse_gpio_json(br#"{"key_input":19,"button":39,"led":"x"}"#), None);
    assert_eq!(parse_gpio_json(&[0x80]), None);
}

#[test]
fn text_scanning() {
    assert_eq!(find_text("abcabc", "bc", 0), Some(1));
    assert_eq!(find_text("abcabc", "bc", 2), Some(4));
    assert_eq!(find_text("abcabc", "bd", 0), None);
    assert_eq!(find_text("abc", "", 3), Some(3));
    assert_eq!(find_text("abc", "abcd", 0), None);
    assert_eq!(find_text("abc", "a", 7), None);
    assert_eq!(trim_start("  a "), "a ");
    assert_eq!(first_word("  one two"), "one");
    assert_eq!(first_word("one"), "one");
    assert_eq!(first_word("   "), "");
}

#[test]
fn host_commands() {
    assert_eq!(add_command("net", "pw", "srv", "sp", false), "AT+ADD=net,pw,srv,sp");
    assert_eq!(add_command("net", "", "srv", "", true), "AT+ADD=net,,srv,,1");
    assert_eq!(delete_command(3), "AT+DEL=3");
    assert!(reply_complete("OK\r\n"));
    assert!(reply_complete("ERROR\r\n"));
    assert!(!reply_complete("[0] SSID=a SERVER=b\r\n"));
}

#[test]
fn list_lines_are_read() {
    assert_eq!(
        parse_list_line("[2] SSID=home SERVER=JA1/key [T]\r"),
        Some(Esp32Profile {
            index: 2,
            ssid: "home".to_string(),
            server_name: "JA1/key".to_string(),
            tethering: true
        })
    );
    assert_eq!(
        parse_list_line("[x] SSID=home"),
        Some(Esp32Profile {
            index: 0,
            ssid: "home".to_string(),
            server_name: String::new(),
            tethering: false
        })
    );
    assert_eq!(parse_list_line("OK"), None);
    assert_eq!(parse_list_line("[1 SSID=a"), None);
    assert_eq!(parse_list_line("[1] SERVER=b"), None);
    assert_eq!(parse_list_line("[1] SSID= SERVER=b"), Some(Esp32Profile {
        index: 1,
        ssid: "SERVER=b".to_string(),
        server_name: "b".to_string(),
        tethering: false
    }));
    assert_eq!(parse_list_line(""), None);
    assert_eq!(word_after("SSID=a SSID=b", "SSID="), "a");
    assert_eq!(word_after("none", "SSID="), "");
}

#[test]
fn the_host_reads_what_the_device_lists() {
    let mut cm = ConfigManager::new();
    process_command("AT+ADD=home,pw,JA1XYZ/keyer,secret", &mut cm);
    process_command("AT+ADD=phone,,JA1XYZ/other,,1", &mut cm);
    let listed = parse_profile_list(&list_profiles(&cm));
    assert_eq!(
        listed,
        vec![
            Esp32Profile {
                index: 0,
                ssid: "home".to_string(),
                server_name: "JA1XYZ/keyer".to_string(),
                tethering: false
            },
            Esp32Profile {
                index: 1,
                ssid: "phone".to_string(),
                server_name: "JA1XYZ/other".to_string(),
                tethering: true
            },
        ]
    );
    assert_eq!(parse_profile_list("No profiles configured\r\nOK\r\n"), vec![]);
    assert_eq!(parse_profile_list(""), vec![]);
    assert_eq!(parse_profile_list("[0] SSID=a SERVER=b").len(), 1);
}

#[test]
fn modes_by_name_and_code() {
    let all = [
        (Mode::Lsb, "LSB", '1'),
        (Mode::Usb, "USB", '2'),
        (Mode::CwU, "CW-U", '3'),
        (Mode::CwL, "CW-L", '7'),
        (Mode::Am, "AM", '5'),
        (Mode::AmN, "AM-N", 'D'),
        (Mode::Fm, "FM", '4'),
        (Mode::FmN, "FM-N", 'B'),
        (Mode::RttyU, "RTTY-U", '9'),
        (Mode::RttyL, "RTTY-L", '6'),
        (Mode::DataU, "DATA-U", 'C'),
        (Mode::DataL, "DATA-L", '8'),
        (Mode::DataFm, "DATA-FM", 'A'),
        (Mode::DataFmN, "DATA-FM-N", 'F'),
        (Mode::Psk, "PSK", 'E'),
    ];
    for (mode, name, code) in all {
        assert_eq!(mode.to_str(), name);
        assert_eq!(Mode::from_str(name), Ok(mode));
        assert_eq!(mode.mode2str(), code);
        assert_eq!(Mode::str2mode(code), Ok(mode));
    }
    assert_eq!(Mode::from_str("lsb"), Err(RigError::UnknownMode));
    assert_eq!(Mode::from_str(""), Err(RigError::UnknownMode));
    assert_eq!(Mode::str2mode('0'), Err(RigError::UnknownMode));
    assert_eq!(Mode::str2mode('G'), Err(RigError::UnknownMode));
}

#[test]
fn cat_commands() {
    assert_eq!(pad_decimal(7, 3), "007");
    assert_eq!(pad_decimal(1234, 3), "1234");
    assert_eq!(pad_decimal(0, 0), "0");
    assert_eq!(get_freq_command(true), "FA;");
    assert_eq!(get_freq_command(false), "FB");
    assert_eq!(set_freq_command(true, 14_250_000), Ok("FA014250000;".to_string()));
    assert_eq!(set_freq_command(false, 30_000), Ok("FB000030000;".to_string()));
    assert_eq!(set_freq_command(true, 75_000_000), Ok("FA075000000;".to_string()));
    assert_eq!(set_freq_command(true, 29_999), Err(RigError::OutOfRange));
    assert_eq!(set_freq_command(true, 75_000_001), Err(RigError::OutOfRange));
    assert_eq!(set_power_command(5), Ok("PC005;".to_string()));
    assert_eq!(set_power_command(100), Ok("PC100;".to_string()));
    assert_eq!(set_power_command(4), Err(RigError::OutOfRange));
    assert_eq!(set_power_command(101), Err(RigError::OutOfRange));
    assert_eq!(encoder_command(true, true, 1), Ok("EU001;".to_string()));
    assert_eq!(encoder_command(false, false, 99), Ok("ED199;".to_string()));
    assert_eq!(encoder_command(true, true, 0), Err(RigError::OutOfRange));
    assert_eq!(encoder_command(true, true, 100), Err(RigError::OutOfRange));
    assert_eq!(set_mode_command(Mode::CwU), "MD03;");
    assert_eq!(set_mode_command(Mode::DataFmN), "MD0F;");
}

#[test]
fn cat_replies() {
    assert_eq!(reply_body("xx;FA014250000;", "FA;"), Some("FA014250000;"));
    assert_eq!(reply_body("PC050;", "FA;"), None);
    assert_eq!(reply_body("PC050;", "P"), None);
    assert_eq!(parse_freq("FA014250000;"), Ok(14_250_000));
    assert_eq!(parse_freq("FA01425"), Err(RigError::BadReply));
    assert_eq!(parse_freq("FA01425x000;"), Err(RigError::BadReply));
    assert_eq!(parse_power("PC050;"), Ok(50));
    assert_eq!(parse_power("PC"), Err(RigError::BadReply));
    assert_eq!(parse_swr("RM6012;"), Ok(12));
    assert_eq!(parse_swr("RM6"), Err(RigError::BadReply));
    assert_eq!(parse_mode("MD03;"), Ok(Mode::CwU));
    assert_eq!(parse_mode("MD0"), Err(RigError::BadReply));
    assert_eq!(parse_mode("MD0Z;"), Err(RigError::BadReply));
}

#[test]
fn tuning_ends_after_matched_readings_or_time() {
    let mut w = TuneWatch::new();
    for _ in 0..10 {
        assert_eq!(w.on_reading(Some(20), 1_000), TuneStep::Again);
    }
    assert_eq!(w.on_reading(Some(21), 1_200), TuneStep::Done(21));
    let mut w = TuneWatch::new();
    assert_eq!(w.on_reading(Some(200), 4_900), TuneStep::Again);
    assert_eq!(w.on_reading(Some(50), 5_000), TuneStep::Again);
    assert_eq!(w.on_reading(Some(180), 5_001), TuneStep::Done(180));
    let mut w = TuneWatch::new();
    assert_eq!(w.on_reading(None, 10), TuneStep::Done(0));
    assert_eq!(w.good, 0);
}

#[test]
fn morse_codes() {
    assert_eq!(morse_code('A'), Some((2, 0x02)));
    assert_eq!(morse_code('0'), Some((5, 0x1f)));
    assert_eq!(morse_code('-'), Some((6, 0x21)));
    assert_eq!(morse_code('a'), None);
    assert_eq!(morse_code('#'), None);
}

#[test]
fn morse_elements_at_twenty_words_per_minute() {
    let k = Keyer::new();
    // A is dot dash
    assert_eq!(
        k.play_straight('a'),
        vec![KeyOp::Assert(60), KeyOp::Pause(60), KeyOp::Assert(180), KeyOp::Pause(60)]
    );
    assert_eq!(k.play_straight('A'), k.play_straight('a'));
    // N is dash dot
    assert_eq!(
        k.play_straight('N'),
        vec![KeyOp::Assert(180), KeyOp::Pause(60), KeyOp::Assert(60), KeyOp::Pause(60)]
    );
    assert_eq!(k.play_straight('5').len(), 10);
    assert_eq!(k.play_straight('*'), vec![]);
}

#[test]
fn morse_text_with_pauses() {
    let mut k = Keyer::new();
    k.set_wpm(12);
    k.set_ratio(4);
    k.set_letter_space(2);
    k.set_word_space(5);
    assert_eq!(
        k.play("e t#"),
        vec![
            KeyOp::Assert(100),
            KeyOp::Pause(100),
            KeyOp::Pause(200),
            KeyOp::Pause(500),
            KeyOp::Assert(400),
            KeyOp::Pause(100),
            KeyOp::Pause(200),
            KeyOp::Pause(1000),
        ]
    );
    assert_eq!(k.play(""), vec![]);
    k.set_ratio(u32::MAX);
    k.set_wpm(1);
    assert_eq!(k.play_straight('T')[0], KeyOp::Assert(1200 * u32::MAX as u64));
}

#[test]
fn discovery_goes_two_rounds() {
    assert_eq!(discovery_plan(false), vec![Probe::Lan, Probe::Wan, Probe::Lan, Probe::Wan]);
    assert_eq!(discovery_plan(true), vec![Probe::Wan, Probe::Wan]);
}

#[test]
fn service_names() {
    assert_eq!(service_fullname("JA1XYZ/keyer"), "JA1XYZ/keyer._wifikey2._udp.local.");
    assert!(instance_matches("JA1XYZ/keyer._wifikey2._udp.local.", "JA1XYZ/keyer"));
    assert!(!instance_matches("JA1XYZ/keyer2._wifikey2._udp.local.", "JA1XYZ/keyer"));
    assert!(!instance_matches("JA1XYZ/keyer._other._udp.local.", "JA1XYZ/keyer"));
    assert_eq!(mdns_hostname(4711), "wifikey2-4711.local.");
}

#[test]
fn long_press_takes_five_seconds() {
    let mut w = LongPress::new(LONG_PRESS_MS);
    for _ in 0..100 {
        assert_eq!(w.check(true), PressStep::Wait);
    }
    assert_eq!(w.held, 5_000);
    assert_eq!(w.check(true), PressStep::Done(true));
    let mut w = LongPress::new(LONG_PRESS_MS);
    for _ in 0..99 {
        assert_eq!(w.check(true), PressStep::Wait);
    }
    assert_eq!(w.check(false), PressStep::Done(false));
    let mut w = LongPress::new(0);
    assert_eq!(w.check(false), PressStep::Done(true));
}
