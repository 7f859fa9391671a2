use pixelstrip::connection::api;
use pixelstrip::connection::server;
use pixelstrip::connection::wifi::{
    check_credentials, find_named, AccessPointInfo, AuthMethod, CredentialError, Creds, WifiPlan,
    Wlan,
};
use pixelstrip::connection::{
    order_for, ping, startup_order, ConnectionEvent, PingError, WifiOrder,
};

fn creds(ssid: &str, psk: &str) -> Creds {
    Creds::new(ssid.to_string(), psk.to_string())
}

fn ap(ssid: &str, channel: u8, auth_method: AuthMethod) -> AccessPointInfo {
    AccessPointInfo { ssid: ssid.to_string(), channel, auth_method }
}

#[test]
fn empty_name_is_refused() {
    let mut auth = AuthMethod::WPAWPA2Personal;
    assert_eq!(check_credentials("", "secret", &mut auth), Err(CredentialError::MissingName));
    assert_eq!(auth, AuthMethod::WPAWPA2Personal);
    assert_eq!(check_credentials("", "", &mut auth), Err(CredentialError::MissingName));
    assert_eq!(auth, AuthMethod::WPAWPA2Personal);
    assert_eq!(CredentialError::MissingName.message(), "missing WiFi name");
}

#[test]
fn empty_password_means_an_open_network() {
    let mut auth = AuthMethod::WPAWPA2Personal;
    assert_eq!(check_credentials("home", "", &mut auth), Ok(()));
    assert_eq!(auth, AuthMethod::Open);
    let mut auth = AuthMethod::WPA3Personal;
    assert_eq!(check_credentials("home", "secret", &mut auth), Ok(()));
    assert_eq!(auth, AuthMethod::WPA3Personal);
}

#[test]
fn scan_is_searched_for_the_first_of_the_name() {
    let scan = vec![
        ap("other", 1, AuthMethod::Open),
        ap("home", 6, AuthMethod::WPA2Personal),
        ap("home", 11, AuthMethod::WPA3Personal),
    ];
    let found = find_named(&scan, &"home".to_string()).unwrap();
    assert_eq!(found.channel, 6);
    assert_eq!(found.auth_method, AuthMethod::WPA2Personal);
    assert!(find_named(&scan, &"Home".to_string()).is_none());
    assert!(find_named(&Vec::new(), &"home".to_string()).is_none());
}

#[test]
fn no_role_means_stop() {
    let wlan = Wlan::start();
    assert!(matches!(wlan.load_cfg(), WifiPlan::Stop));
}

#[test]
fn client_takes_channel_and_method_from_the_scan() {
    let mut wlan = Wlan::start();
    let scan = vec![ap("home", 6, AuthMethod::WPA2Personal)];
    match wlan.connect_to(creds("home", "secret"), &scan) {
        Ok(WifiPlan::Client(c)) => {
            assert_eq!(c.ssid, "home");
            assert_eq!(c.password, "secret");
            assert_eq!(c.channel, Some(6));
            assert_eq!(c.auth_method, AuthMethod::WPA2Personal);
        }
        other => panic!("unexpected plan {:?}", other),
    }
    // The scan decides even where the password is empty.
    let mut wlan = Wlan::start();
    match wlan.connect_to(creds("home", ""), &scan) {
        Ok(WifiPlan::Client(c)) => assert_eq!(c.auth_method, AuthMethod::WPA2Personal),
        other => panic!("unexpected plan {:?}", other),
    }
}

#[test]
fn client_without_a_scan_hit_assumes_the_method() {
    let mut wlan = Wlan::start();
    match wlan.connect_to(creds("home", "secret"), &Vec::new()) {
        Ok(WifiPlan::Client(c)) => {
            assert_eq!(c.channel, None);
            assert_eq!(c.auth_method, AuthMethod::WPAWPA2Personal);
        }
        other => panic!("unexpected plan {:?}", other),
    }
    let mut wlan = Wlan::start();
    match wlan.connect_to(creds("home", ""), &vec![ap("other", 3, AuthMethod::WEP)]) {
        Ok(WifiPlan::Client(c)) => {
            assert_eq!(c.channel, None);
            assert_eq!(c.auth_method, AuthMethod::Open);
        }
        other => panic!("unexpected plan {:?}", other),
    }
}

#[test]
fn both_roles_give_a_mixed_plan() {
    let mut wlan = Wlan::start();
    match wlan.host_as(creds("lamp", "12345678")) {
        Ok(WifiPlan::AccessPoint(a)) => {
            assert_eq!(a.ssid, "lamp");
            assert_eq!(a.password, "12345678");
            assert_eq!(a.auth_method, AuthMethod::WPAWPA2Personal);
        }
        other => panic!("unexpected plan {:?}", other),
    }
    match wlan.connect_to(creds("home", "secret"), &Vec::new()) {
        Ok(WifiPlan::Mixed(c, a)) => {
            assert_eq!(c.ssid, "home");
            assert_eq!(a.ssid, "lamp");
        }
        other => panic!("unexpected plan {:?}", other),
    }
    match wlan.disable_ap() {
        WifiPlan::Client(c) => assert_eq!(c.ssid, "home"),
        other => panic!("unexpected plan {:?}", other),
    }
    assert!(matches!(wlan.disable_client(), WifiPlan::Stop));
    assert!(matches!(wlan.disable_client(), WifiPlan::Stop));
}

#[test]
fn open_access_point_for_an_empty_password() {
    let mut wlan = Wlan::start();
    match wlan.host_as(creds("lamp", "")) {
        Ok(WifiPlan::AccessPoint(a)) => assert_eq!(a.auth_method, AuthMethod::Open),
        other => panic!("unexpected plan {:?}", other),
    }
}

#[test]
fn refused_credentials_change_no_role() {
    let mut wlan = Wlan::start();
    wlan.host_as(creds("lamp", "12345678")).unwrap();
    assert!(matches!(wlan.connect_to(creds("", "x"), &Vec::new()), Err(CredentialError::MissingName)));
    assert!(matches!(wlan.host_as(creds("", "x")), Err(CredentialError::MissingName)));
    match wlan.load_cfg() {
        WifiPlan::AccessPoint(a) => assert_eq!(a.ssid, "lamp"),
        other => panic!("unexpected plan {:?}", other),
    }
}

#[test]
fn startup_prefers_the_kept_network() {
    match startup_order(Some(creds("home", "s")), Some(creds("lamp", "t")), creds("built", "in")) {
        WifiOrder::Connect(c) => assert_eq!(c.ssid, "home"),
        WifiOrder::Host(_) => panic!("hosting although a network is kept"),
    }
    match startup_order(None, Some(creds("lamp", "t")), creds("built", "in")) {
        WifiOrder::Host(c) => assert_eq!(c.ssid, "lamp"),
        WifiOrder::Connect(_) => panic!("connecting without a kept network"),
    }
    match startup_order(None, None, creds("built", "in")) {
        WifiOrder::Host(c) => {
            assert_eq!(c.ssid, "built");
            assert_eq!(c.psk, "in");
        }
        WifiOrder::Connect(_) => panic!("connecting without a kept network"),
    }
}

#[test]
fn events_become_orders_with_their_storage_keys() {
    let order = order_for(ConnectionEvent::ConnectToWifi(creds("home", "s")));
    assert_eq!(order.storage_key(), "client_creds");
    assert!(matches!(order, WifiOrder::Connect(ref c) if c.ssid == "home"));
    let order = order_for(ConnectionEvent::HostAs(creds("lamp", "t")));
    assert_eq!(order.storage_key(), "ap_creds");
    assert!(matches!(order, WifiOrder::Host(ref c) if c.psk == "t"));
}

#[test]
fn ping_fails_on_any_lost_answer() {
    assert_eq!(ping(5, 5), Ok(()));
    assert_eq!(ping(0, 0), Ok(()));
    assert_eq!(ping(5, 4), Err(PingError::Timeouts));
    assert_eq!(ping(5, 0), Err(PingError::Timeouts));
    assert_eq!(ping(4, 5), Err(PingError::Timeouts));
}

#[test]
fn body_is_split_at_line_feeds() {
    let lines = api::parse_multiline(b"home\nsecret");
    assert_eq!(lines, vec![b"home".to_vec(), b"secret".to_vec()]);
    assert_eq!(api::parse_multiline(b""), vec![Vec::<u8>::new()]);
    assert_eq!(api::parse_multiline(b"one"), vec![b"one".to_vec()]);
    assert_eq!(api::parse_multiline(b"\n"), vec![Vec::<u8>::new(), Vec::new()]);
    assert_eq!(
        api::parse_multiline(b"a\n\nb\n"),
        vec![b"a".to_vec(), Vec::new(), b"b".to_vec(), Vec::new()]
    );
    assert_eq!(api::parse_multiline(b"a\r\nb"), vec![b"a\r".to_vec(), b"b".to_vec()]);
}

#[test]
fn body_lines_agree_with_str_split() {
    for text in ["", "x", "\n", "ssid\npsk", "a\nb\nc\n", "\n\n\n", "caf\u{e9}\n\u{1F600}\nz"] {
        let expected: Vec<Vec<u8>> = text.split("\n").map(|s| s.as_bytes().to_vec()).collect();
        assert_eq!(api::parse_multiline(text.as_bytes()), expected);
    }
}

#[test]
fn first_page_wraps_its_content() {
    let expected = format!(
        r#"
        <!DOCTYPE html>
        <html>
            <head>
                <meta charset="utf-8">
                <title>esp-rs web server</title>
            </head>
            <body>
                {}
            </body>
        </html>
        "#,
        "hello"
    );
    assert_eq!(api::templated("hello"), expected);
    assert_eq!(api::index_html(), api::templated("Please download the app"));
    assert!(api::index_html().contains("Please download the app"));
    assert_eq!(api::BODY_BUFFER_SIZE, 1024);
}

#[test]
fn server_page_has_a_slot_in_its_head() {
    let expected = format!(
        r#"
        <!DOCTYPE html>
        <html>
            <head>
                <meta charset="utf-8">
                {}
                <title>esp-rs web server</title>
            </head>
            <body>
                {}
            </body>
        </html>
        "#,
        "<x/>", "hello"
    );
    assert_eq!(server::templated_with_head("hello", "<x/>"), expected);
    assert_eq!(server::templated("hello"), server::templated_with_head("hello", ""));
    assert_eq!(
        server::index_html(),
        server::templated_with_head(
            "Please download the app",
            r#"<meta http-equiv="Refresh" content="0; URL=https://espoxi.github.io/" />"#
        )
    );
    assert_eq!(server::BODY_BUFFER_SIZE, 1024);
}

#[test]
fn bodies_are_escaped_for_the_log() {
    assert_eq!(server::show(b""), "");
    assert_eq!(server::show(b"plain text ~!"), "plain text ~!");
    assert_eq!(server::show(b"a\tb\rc\nd"), "a\\tb\\rc\\nd");
    assert_eq!(server::show(b"'\"\\"), "\\'\\\"\\\\");
    assert_eq!(server::show(&[0x00, 0x1F, 0x7F, 0x80, 0x9D, 0xAB, 0xFF]), "\\x00\\x1f\\x7f\\x80\\x9d\\xab\\xff");
    assert_eq!(server::show("{\"ssid\":\"caf\u{e9}\"}".as_bytes()), "{\\\"ssid\\\":\\\"caf\\xc3\\xa9\\\"}");
}

#[test]
fn every_byte_is_escaped_as_documented() {
    for b in 0..=255u8 {
        let expected = match b {
            0x09 => "\\t".to_string(),
            0x0D => "\\r".to_string(),
            0x0A => "\\n".to_string(),
            0x27 => "\\'".to_string(),
            0x22 => "\\\"".to_string(),
            0x5C => "\\\\".to_string(),
            0x20..=0x7E => (b as char).to_string(),
            _ => format!("\\x{:02x}", b),
        };
        assert_eq!(server::show(&[b]), expected);
    }
}
