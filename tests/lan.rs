use onebox::database::should_copy_database;
use onebox::lan::{
    captive_portal_status, captive_redirect_url, contains_str, is_private_ip, lan_ip_from_ifconfig,
    lan_ip_from_ip_output, lan_ip_from_ipconfig, local_proxy_url, parse_u8, ping_succeeded,
    split_char, DEFAULT_CAPTIVE_URL,
};
use onebox::text::{split_words, starts_with_str};

#[test]
fn private_ranges() {
    assert!(is_private_ip("10.1.2.3"));
    assert!(is_private_ip("172.16.0.1"));
    assert!(is_private_ip("172.31.255.255"));
    assert!(!is_private_ip("172.32.0.1"));
    assert!(!is_private_ip("172.15.0.1"));
    assert!(is_private_ip("192.168.1.10"));
    assert!(!is_private_ip("192.169.1.10"));
    assert!(!is_private_ip("8.8.8.8"));
    assert!(!is_private_ip("127.0.0.1"));
    assert!(!is_private_ip("169.254.1.1"));
}

#[test]
fn malformed_addresses_are_not_private() {
    assert!(!is_private_ip(""));
    assert!(!is_private_ip("10.0.0"));
    assert!(!is_private_ip("10.0.0.0.1"));
    assert!(!is_private_ip("10.0.0.256"));
    assert!(!is_private_ip("10.a.0.1"));
    assert!(!is_private_ip("10..0.1"));
    assert!(is_private_ip("+10.0.0.1"));
}

#[test]
fn byte_parsing_follows_std() {
    for t in ["0", "255", "256", "+7", "+", "", "007", "1a", "-1", "99999999999"] {
        assert_eq!(parse_u8(t), t.parse::<u8>().ok(), "{}", t);
    }
}

#[test]
fn splitting_follows_std() {
    for s in ["", "a", "a.b", ".a.", "..", "1.2.3.4"] {
        let expected: Vec<String> = s.split('.').map(|p| p.to_string()).collect();
        assert_eq!(split_char(s, '.'), expected);
    }
    for s in ["", "  ", "inet 192.168.1.2 netmask", " a\tb  c ", "x"] {
        let expected: Vec<String> = s.split_whitespace().map(|p| p.to_string()).collect();
        assert_eq!(split_words(s), expected);
    }
    assert!(contains_str("flags=8863<UP,RUNNING>", "RUNNING"));
    assert!(!contains_str("flags", "RUNNING"));
    assert!(contains_str("x", ""));
    assert!(starts_with_str("inet 10.0.0.1", "inet "));
    assert!(!starts_with_str("inet6 ::1", "inet "));
}

#[test]
fn ipconfig_output() {
    let out = "Windows IP Configuration\r\n\r\n   Link-local IPv4 Address . . . : 169.254.3.4\r\n   IPv4 Address. . . . . . . . . . . : 192.168.1.23\r\n   Subnet Mask . . . : 255.255.255.0\r\n";
    assert_eq!(lan_ip_from_ipconfig(out), Ok("192.168.1.23".to_string()));
    assert_eq!(lan_ip_from_ipconfig("no address here"), Err("unknown".to_string()));
    assert_eq!(lan_ip_from_ipconfig("IPv4 Address without colon\nIPv4 Address: 100.127.0.1\n"), Err("unknown".to_string()));
}

#[test]
fn ip_output_is_trimmed() {
    assert_eq!(lan_ip_from_ip_output("192.168.0.7\n"), "192.168.0.7");
}

#[test]
fn ifconfig_prefers_en0() {
    let out = "lo0: flags=8049<UP,LOOPBACK,RUNNING,MULTICAST> mtu 16384\n\tinet 127.0.0.1 netmask 0xff000000\nen1: flags=8863<UP,BROADCAST,SMART,RUNNING> mtu 1500\n\tinet 10.0.0.5 netmask 0xffffff00\nen0: flags=8863<UP,BROADCAST,SMART,RUNNING> mtu 1500\n\tinet 192.168.1.9 netmask 0xffffff00\n";
    assert_eq!(lan_ip_from_ifconfig(out), Ok("192.168.1.9".to_string()));
}

#[test]
fn ifconfig_falls_back_to_first_candidate() {
    let out = "en5: flags=8863<UP,RUNNING> mtu 1500\n\tinet 172.20.0.3 netmask 0xffff0000\nbridge0: flags=8863<UP,RUNNING> mtu 1500\n\tinet 10.1.1.1 netmask 0xff000000\nen0: flags=8822<BROADCAST> mtu 1500\n\tinet 192.168.1.9 netmask 0xffffff00\n";
    assert_eq!(lan_ip_from_ifconfig(out), Ok("172.20.0.3".to_string()));
    assert_eq!(lan_ip_from_ifconfig("lo0: flags=<UP,RUNNING>\n\tinet 127.0.0.1\n"), Err("No LAN IP found".to_string()));
}

#[test]
fn captive_portal_answers() {
    assert_eq!(captive_portal_status(Some(200)), 0);
    assert_eq!(captive_portal_status(Some(302)), 1);
    assert_eq!(captive_portal_status(Some(204)), -1);
    assert_eq!(captive_portal_status(None), -1);
    assert_eq!(captive_redirect_url(Some(302), Some("http://login.example".to_string())), "http://login.example");
    assert_eq!(captive_redirect_url(Some(302), None), DEFAULT_CAPTIVE_URL);
    assert_eq!(captive_redirect_url(Some(200), Some("http://x".to_string())), "http://captive.oneoh.cloud");
    assert_eq!(captive_redirect_url(None, None), DEFAULT_CAPTIVE_URL);
}

#[test]
fn ping_through_local_proxy() {
    assert_eq!(local_proxy_url(), "http://127.0.0.1:6789");
    assert!(ping_succeeded(Some(204)));
    assert!(!ping_succeeded(Some(302)));
    assert!(!ping_succeeded(None));
}

#[test]
fn database_copy_rule() {
    assert!(should_copy_database(true, Some("db"), false));
    assert!(!should_copy_database(true, Some("db"), true));
    assert!(!should_copy_database(false, Some("db"), false));
    assert!(!should_copy_database(true, Some("sqlite"), false));
    assert!(!should_copy_database(true, None, false));
}
