use dwd::address::is_ip;

#[test]
fn is_ip_should_support_ipv4() {
    assert!(is_ip("1.1.1.1"));
    assert!(is_ip("255.255.255.255"));
    assert!(is_ip("127.0.0.1"));
}

#[test]
fn is_ip_should_support_ipv6() {
    assert!(is_ip("2001:0DB8:02de:0000:0000:0000:0000:0e13"));
    assert!(is_ip("2001:DB8:2de:0:0:0:0:e13"));
    assert!(is_ip("2001:DB8:2de::e13"));
}

#[test]
fn is_ip_should_failed_for_invalid_ip_string() {
    assert!(!is_ip("hello world"));
    assert!(!is_ip("127.0.0"));
    assert!(!is_ip("999.999.999.999"));
    assert!(!is_ip("2001::DB8:2de::e13"));
}

#[test]
fn is_ip_accepts_each_way_of_writing_an_address() {
    let accepted = [
        "0.0.0.0",
        "203.0.113.7",
        "203.0.113.8",
        "::",
        "::1",
        "1::",
        "1::2",
        "::FFFF",
        "1:2:3:4:5:6:7:8",
        "1:2:3:4:5:6:7::",
        "::2:3:4:5:6:7:8",
        "1::3:4:5:6:7:8",
        "1:2:3:4::5:6:7",
        "0:0:0:0:0:0:0:0",
        "0000:0000:0000:0000:0000:0000:0000:0000",
        "abcd:ef01:2345:6789:ABCD:EF01:2345:6789",
        "::1.2.3.4",
        "::0.0.0.0",
        "1::1.2.3.4",
        "::ffff:1.2.3.4",
        "::ffff:0:1.2.3.4",
        "0::0:1.2.3.4",
        "1:2:3:4:5::1.2.3.4",
        "1:2:3:4:5:6:1.2.3.4",
    ];
    for text in accepted {
        assert!(is_ip(text), "{:?}", text);
    }
}

#[test]
fn is_ip_rejects_malformed_ipv4() {
    let rejected = [
        "",
        ".",
        "00.0.0.0",
        "0.0.0.00",
        "01.2.3.4",
        "1.2.3.4.",
        ".1.2.3.4",
        "1..2.3",
        "1.2.3",
        "1.2.3.4.5",
        "256.1.1.1",
        "255.255.255.256",
        "1234.1.1.1",
        "1.2.3.4 ",
        " 1.2.3.4",
        "1.2.3.4\n",
        "1. 2.3.4",
        "+1.2.3.4",
        "-1.2.3.4",
        "1.2.3.a",
        "a.b.c.d",
        "1.2.3.4:5",
        "\u{663}.1.1.1",
        "1.1.1.\u{661}",
        "\u{ff11}.1.1.1",
        "not-an-ip",
    ];
    for text in rejected {
        assert!(!is_ip(text), "{:?}", text);
    }
}

#[test]
fn is_ip_rejects_malformed_ipv6() {
    let rejected = [
        ":",
        ":::",
        ":1",
        "1:",
        ":1:2",
        "1:2:",
        "::1:",
        ":1::",
        "1:::2",
        "1::2::3",
        "g::",
        "::g",
        "12345::",
        "::12345",
        "00000::",
        "1:2:3:4:5:6:7",
        "1:2:3:4:5:6:7:8:9",
        "1:2:3:4:5:6:7::8",
        "1:2:3:4:5:6::7:8",
        "1:2:3:4::5:6:7:8",
        "1:2:3:4:5:6:7:8::",
        "::1:2:3:4:5:6:7:8",
        "1:2:3:4:5:1.2.3.4",
        "1:2:3:4:5:6:7:1.2.3.4",
        "1:2:3:4:5:6::1.2.3.4",
        "1.2.3.4::",
        "1.2.3.4::1",
        "::1.2.3.4:5",
        "::1.2.3",
        "::1.2.3.4.5",
        "::01.2.3.4",
        "::1.2.3.256",
        "fe80::1%eth0",
        "[::1]",
        "::\n",
    ];
    for text in rejected {
        assert!(!is_ip(text), "{:?}", text);
    }
}
