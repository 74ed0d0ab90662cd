use auth_core::is_ip_allowed;

#[test]
fn allows_ipv4_loopback() {
    assert!(is_ip_allowed("127.0.0.1"));
    assert!(is_ip_allowed("127.255.255.255"));
}

#[test]
fn allows_ipv4_private_ranges() {
    assert!(is_ip_allowed("10.1.2.3"));
    assert!(is_ip_allowed("10.0.0.0"));
    assert!(is_ip_allowed("172.16.0.1"));
    assert!(is_ip_allowed("172.31.255.255"));
    assert!(is_ip_allowed("192.168.1.1"));
    assert!(is_ip_allowed("192.168.0.0"));
}

#[test]
fn denies_public_ipv4() {
    assert!(!is_ip_allowed("8.8.8.8"));
    assert!(!is_ip_allowed("11.0.0.0"));
    assert!(!is_ip_allowed("172.15.255.255"));
    assert!(!is_ip_allowed("172.32.0.1"));
    assert!(!is_ip_allowed("192.167.1.1"));
    assert!(!is_ip_allowed("128.0.0.1"));
}

#[test]
fn allows_ipv6_loopback_forms() {
    assert!(is_ip_allowed("::1"));
    assert!(is_ip_allowed("0:0:0:0:0:0:0:1"));
    assert!(is_ip_allowed("0::1"));
    assert!(is_ip_allowed("::0:1"));
    assert!(is_ip_allowed("0:0:0::0:1"));
    assert!(is_ip_allowed("::0001"));
    assert!(is_ip_allowed("0000:0000:0000:0000:0000:0000:0000:0001"));
}

#[test]
fn allows_ipv4_mapped_spellings_of_loopback() {
    assert!(is_ip_allowed("::0.0.0.1"));
    assert!(is_ip_allowed("0:0:0:0:0:0:0.0.0.1"));
    assert!(is_ip_allowed("::0:0.0.0.1"));
    assert!(is_ip_allowed("0::0.0.0.1"));
}

#[test]
fn denies_other_dotted_quad_tails() {
    assert!(!is_ip_allowed("::ffff:127.0.0.1"));
    assert!(!is_ip_allowed("::0.0.0.2"));
    assert!(!is_ip_allowed("::1.0.0.1"));
    assert!(!is_ip_allowed("::0.0.0.01"));
    assert!(!is_ip_allowed("0:0:0:0:0:0:0:0.0.0.1"));
    assert!(!is_ip_allowed("::0.0.0.1.1"));
}

#[test]
fn denies_other_ipv6() {
    assert!(!is_ip_allowed("2001:db8::1"));
    assert!(!is_ip_allowed("::2"));
    assert!(!is_ip_allowed("::"));
    assert!(!is_ip_allowed("1::1"));
    assert!(!is_ip_allowed("fe80::1"));
    assert!(!is_ip_allowed("::1:0"));
}

#[test]
fn denies_malformed_addresses() {
    assert!(!is_ip_allowed("not-an-ip"));
    assert!(!is_ip_allowed(""));
    assert!(!is_ip_allowed("1.2.3"));
    assert!(!is_ip_allowed("1.2.3.4.5"));
    assert!(!is_ip_allowed("256.1.1.1"));
    assert!(!is_ip_allowed("01.2.3.4"));
    assert!(!is_ip_allowed("127.000.0.1"));
    assert!(!is_ip_allowed("127.0.0."));
    assert!(!is_ip_allowed(".0.0.1"));
    assert!(!is_ip_allowed("127.0.0.1 "));
    assert!(!is_ip_allowed("10.-1.0.0"));
    assert!(!is_ip_allowed("0:0:0:0:0:0:0:0:1"));
    assert!(!is_ip_allowed("0:0:0:0:0:0:0::1"));
    assert!(!is_ip_allowed("00000::1"));
    assert!(!is_ip_allowed(":::1"));
}
