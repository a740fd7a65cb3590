use validators::{
    is_email, is_ip_address, is_ipv4, is_ipv6, is_json, is_mac_address, is_phone_number,
    is_strong_password, is_url, passes_password_rule,
};

#[test]
fn email_cases() {
    assert!(is_email("user@example.com"));
    assert!(is_email("first.last-x@mail.example.org"));
    assert!(!is_email("user@@bad"));
    assert!(!is_email("user@example"));
    assert!(!is_email("user example@x.com"));
}

#[test]
fn url_cases() {
    assert!(is_url("http://example.com"));
    assert!(is_url("https://example.com/a?b=c"));
    assert!(!is_url("ftp://example.com"));
    assert!(!is_url("https://exa mple.com"));
    assert!(!is_url("https://"));
}

#[test]
fn phone_cases() {
    assert!(is_phone_number("+1 555-123-4567"));
    assert!(is_phone_number("12345678"));
    assert!(!is_phone_number("1234567"));
    assert!(!is_phone_number("+-1234567"));
    assert!(!is_phone_number("555-CALL-NOW"));
}

#[test]
fn strong_password_cases() {
    assert!(is_strong_password("Abcdef1!"));
    assert!(!is_strong_password("abcdefgh"));
    assert!(is_strong_password("Abcdefg1_"));
    assert!(!is_strong_password("Abc1!"));
    assert!(!is_strong_password("ABCDEF1!"));
    assert!(!is_strong_password("Abcdefg!"));
    assert!(!is_strong_password("Abcdefg1"));
    assert!(!is_strong_password("Abcdef1!\nx"));
    assert!(!is_strong_password(""));
}

#[test]
fn json_cases() {
    assert!(is_json("{\"a\":1}"));
    assert!(!is_json("{a:1}"));
    assert!(is_json("[1, 2, 3]"));
    assert!(is_json("null"));
    assert!(is_json("\"text\""));
    assert!(!is_json(""));
    assert!(!is_json("1 2"));
}

#[test]
fn ipv4_cases() {
    assert!(is_ipv4("192.168.1.1"));
    assert!(!is_ipv4("256.1.1.1"));
    assert!(is_ipv4("0.0.0.0"));
    assert!(is_ipv4("255.255.255.255"));
    assert!(!is_ipv4("1.2.3"));
    assert!(!is_ipv4("1.2.3.4.5"));
}

#[test]
fn ipv6_cases() {
    assert!(!is_ipv6("2001:db8::1"));
    assert!(is_ipv6("2001:0db8:0000:0000:0000:0000:0000:0001"));
    assert!(is_ipv6("fe80:0:0:0:0:0:0:1"));
    assert!(!is_ipv6("2001:0db8:0000:0000:0000:0000:0000:00001"));
    assert!(!is_ipv6("192.168.1.1"));
}

#[test]
fn ip_address_is_either_version() {
    for s in [
        "192.168.1.1",
        "256.1.1.1",
        "2001:db8::1",
        "2001:0db8:0000:0000:0000:0000:0000:0001",
        "",
        "not an address",
    ] {
        assert_eq!(is_ip_address(s), is_ipv4(s) || is_ipv6(s));
    }
    assert!(is_ip_address("10.0.0.1"));
    assert!(is_ip_address("fe80:0:0:0:0:0:0:1"));
    assert!(!is_ip_address("2001:db8::1"));
}

#[test]
fn mac_cases() {
    assert!(is_mac_address("00:1A:2b:3C:4d:5E"));
    assert!(!is_mac_address("00:1A:2B:3C:4D"));
    assert!(!is_mac_address("00-1A-2B-3C-4D-5E"));
    assert!(!is_mac_address("00:1A:2B:3C:4D:5G"));
}

#[test]
fn password_rule_with_given_classes() {
    assert!(passes_password_rule("Abcdefgh", true, true));
    assert!(!passes_password_rule("Abcdefgh", false, true));
    assert!(!passes_password_rule("Abcdefgh", true, false));
    assert!(!passes_password_rule("abcdefgh", true, true));
    assert!(!passes_password_rule("ABCDEFGH", true, true));
    assert!(!passes_password_rule("Abcdefg", true, true));
    assert!(!passes_password_rule("Abcd\nefgh", true, true));
}
