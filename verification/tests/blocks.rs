use file_server::blocks::backlight;
use file_server::blocks::wifi;
use file_server::blocks::any_modified;
use file_server::http::{Handler, Method};

#[test]
fn fetch_scales_the_current_brightness() {
    assert_eq!(backlight::fetch("50\n", None, 100), Ok(50));
    assert_eq!(backlight::fetch("7500\n", None, 15000), Ok(50));
    assert_eq!(backlight::fetch("15000\n", None, 15000), Ok(100));
    assert_eq!(backlight::fetch("1\n", None, 3), Ok(33));
}

#[test]
fn fetch_keeps_the_maximum() {
    assert_eq!(backlight::fetch("15000\n", Some("max_brightness"), 0), Ok(15000));
    assert_eq!(backlight::attr_file(Some("max_brightness")), "max_brightness");
    assert_eq!(backlight::attr_file(None), "brightness");
}

#[test]
fn fetch_errors() {
    assert_eq!(backlight::fetch("\n", None, 10), Err("cannot parse integer from empty string".to_string()));
    assert_eq!(backlight::fetch("", Some("max_brightness"), 0), Err("cannot parse integer from empty string".to_string()));
    assert_eq!(backlight::fetch("12a\n", None, 10), Err("invalid digit found in string".to_string()));
    assert_eq!(backlight::fetch("4294967296\n", Some("max_brightness"), 0), Err("number too large to fit in target type".to_string()));
    // only the last character is dropped
    assert_eq!(backlight::fetch("12\n\n", Some("max_brightness"), 0), Err("invalid digit found in string".to_string()));
    assert_eq!(backlight::fetch("123", Some("max_brightness"), 0), Ok(12));
}

#[test]
fn first_device_found_or_not() {
    assert_eq!(backlight::first_device::<&str, ()>(Some(Ok("intel_backlight"))), Ok("intel_backlight"));
    assert_eq!(backlight::first_device::<&str, ()>(Some(Err(()))), Err("no backlight device found".to_string()));
    assert_eq!(backlight::first_device::<&str, ()>(None), Err("no backlight device found".to_string()));
}

#[test]
fn brightness_info_and_arguments() {
    assert_eq!(backlight::get_info(42), 42);
    assert_eq!(backlight::get_info(usize::MAX), u32::MAX);
    assert_eq!(backlight::set_brightness_args(42), vec!["-set".to_string(), "42".to_string()]);
    assert_eq!(backlight::set_brightness_args(0), vec!["-set".to_string(), "0".to_string()]);
}

#[test]
fn set_then_read_back_brightness() {
    let args = backlight::set_brightness_args(73);
    let file_content = format!("{}\n", args[1]);
    assert_eq!(backlight::fetch(&file_content, Some("max_brightness"), 0), Ok(73));
}

#[test]
fn backlight_routes() {
    let got: Vec<(Method, &str, Option<isize>, Handler)> =
        backlight::routes().iter().map(|s| (s.method, s.path, s.rank, s.handler)).collect();
    assert_eq!(got, vec![
        (Method::Get, "/", None, Handler::GetBrightness),
        (Method::Get, "/<brightness>", None, Handler::SetBrightness),
    ]);
}

#[test]
fn modify_events() {
    assert!(!any_modified(&[]));
    assert!(!any_modified(&[1, 4, 0x100]));
    assert!(any_modified(&[2]));
    assert!(any_modified(&[0x100, 3]));
    assert_eq!(inotify::EventMask::MODIFY.bits(), 2);
}

#[test]
fn operstate() {
    assert!(wifi::is_up(Some("up\n")));
    assert!(!wifi::is_up(Some("down\n")));
    assert!(!wifi::is_up(Some("up")));
    assert!(!wifi::is_up(Some("")));
    assert!(!wifi::is_up(None));
    assert!(wifi::is_up(Some("upx")));
    assert_eq!(wifi::operstate_path(), "/sys/class/net/wlp3s0/operstate");
    assert_eq!(wifi::interface(), "wlp3s0");
}

#[test]
fn ssid_output() {
    assert_eq!(wifi::get_ssid(vec![]), Ok(String::new()));
    assert_eq!(wifi::get_ssid(b"HomeNet\n".to_vec()), Ok("HomeNet".to_string()));
    assert_eq!(wifi::get_ssid("Caf\u{e9}\n".as_bytes().to_vec()), Ok("Caf\u{e9}".to_string()));
    assert_eq!(wifi::get_ssid(vec![0xff, b'\n']), Err("invalid utf-8".to_string()));
    assert_eq!(wifi::get_ssid(vec![b'\n']), Ok(String::new()));
}

#[test]
fn ssid_command_text() {
    let original = format!("iw dev {} link | grep \"^\\sSSID:\" {}", "wlp3s0", "| sed \"s/^\\sSSID:\\s//g\"");
    assert_eq!(wifi::ssid_command(), original);
}

/// The way the address is picked out of `ip -o address`, written with std's iterators.
fn reference_ip(out: &str) -> Option<String> {
    let mut lines = out.lines().map(str::split_whitespace);
    let line = lines.find(|l| l.clone().nth(1) == Some("wlp3s0"));
    line.and_then(|mut el| el.nth(3)).map(String::from)
}

const LISTING: &str = "1: lo    inet 127.0.0.1/8 scope host lo\\       valid_lft forever preferred_lft forever\n3: wlp3s0    inet 192.168.1.23/24 brd 192.168.1.255 scope global dynamic wlp3s0\\       valid_lft 85000sec preferred_lft 85000sec\n";

#[test]
fn ip_address_found() {
    assert_eq!(wifi::get_ip(LISTING.as_bytes().to_vec()), Ok("192.168.1.23/24".to_string()));
}

#[test]
fn ip_address_errors() {
    let no_wifi = "1: lo    inet 127.0.0.1/8 scope host lo\n";
    assert_eq!(wifi::get_ip(no_wifi.as_bytes().to_vec()), Err("Error parsing wifi adress".to_string()));
    assert_eq!(wifi::get_ip(vec![]), Err("Error parsing wifi adress".to_string()));
    let short = "3: wlp3s0 inet\n4: wlp3s0 inet 10.0.0.1/8\n";
    assert_eq!(wifi::get_ip(short.as_bytes().to_vec()), Err("Error parsing wifi adress".to_string()));
    assert_eq!(wifi::get_ip(vec![0xc3, 0x28]), Err("invalid utf-8".to_string()));
}

#[test]
fn ip_address_agrees_with_iterators() {
    let cases = [
        LISTING,
        "",
        "\n\n",
        "3: wlp3s0 inet 10.0.0.2/8\r\n",
        "x wlp3s0 a b c\ny wlp3s0 d e f",
        "wlp3s0 wlp3s0 wlp3s0 wlp3s0",
        "1: eth0 inet 1.1.1.1/32\n2:\twlp3s0\u{a0}inet\u{2003}2.2.2.2/16 rest\n",
        "2: wlp3s0x inet 3.3.3.3\n",
        "  \n 2:   wlp3s0   inet    4.4.4.4   ",
    ];
    for c in cases.iter() {
        let want = reference_ip(c);
        assert_eq!(wifi::find_address(c, "wlp3s0"), want.clone(), "input {:?}", c);
        match want {
            Some(ip) => {
                assert!(!ip.is_empty() && !ip.chars().any(char::is_whitespace));
                assert_eq!(wifi::get_ip(c.as_bytes().to_vec()), Ok(ip))
            },
            None => assert_eq!(wifi::get_ip(c.as_bytes().to_vec()), Err("Error parsing wifi adress".to_string())),
        }
    }
}

#[test]
fn connection_state() {
    let d = wifi::WifiData { ssid: "HomeNet".to_string(), ip: "10.0.0.2/8".to_string() };
    let r = wifi::get_connection(Some(d)).unwrap();
    assert_eq!(r.ssid, "HomeNet");
    assert_eq!(r.ip, "10.0.0.2/8");
    assert_eq!(wifi::get_connection(None).err(), Some("couldn't retreive shared data".to_string()));
    assert!(matches!(wifi::status_after_operstate(false), wifi::StatusStep::Finished(None)));
    assert!(matches!(wifi::status_after_operstate(true), wifi::StatusStep::QueryConnection));
    let s = wifi::status_after_connection("a".to_string(), "b".to_string()).unwrap();
    assert_eq!((s.ssid.as_str(), s.ip.as_str()), ("a", "b"));
}

#[test]
fn wifi_routes() {
    let got: Vec<(Method, &str, Option<isize>, Handler)> =
        wifi::routes().iter().map(|s| (s.method, s.path, s.rank, s.handler)).collect();
    assert_eq!(got, vec![(Method::Get, "/", None, Handler::GetConnection)]);
}
