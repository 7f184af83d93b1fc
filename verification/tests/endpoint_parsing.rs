use harmonyscale::endpoint::{parse_ipv4, split_endpoint};

#[test]
fn split_endpoint_takes_last_colon() {
    let (host, port) = split_endpoint("100.78.229.11:51820").unwrap();
    assert_eq!(host, "100.78.229.11");
    assert_eq!(port, 51820);
}

#[test]
fn split_endpoint_without_colon_fails() {
    assert!(split_endpoint("100.78.229.11").is_none());
}

#[test]
fn split_endpoint_rejects_bad_port() {
    assert!(split_endpoint("1.2.3.4:").is_none());
    assert!(split_endpoint("1.2.3.4:65536").is_none());
    assert!(split_endpoint("1.2.3.4:+").is_none());
    assert!(split_endpoint("1.2.3.4:12a").is_none());
    assert!(split_endpoint("1.2.3.4:-1").is_none());
}

#[test]
fn split_endpoint_port_like_std() {
    for p in ["0", "+80", "00080", "65535", "65536", "99999999999", "", "+", "-0", " 80", "8 0", "٣"] {
        let addr = format!("h:{}", p);
        let mine = split_endpoint(&addr).map(|(_, q)| q);
        let std_port: Option<u16> = p.parse().ok();
        assert_eq!(mine, std_port, "port {:?}", p);
    }
}

#[test]
fn split_endpoint_keeps_colons_in_host() {
    let (host, port) = split_endpoint("a:b:7").unwrap();
    assert_eq!(host, "a:b");
    assert_eq!(port, 7);
}

#[test]
fn parse_ipv4_accepts_dotted_decimal() {
    assert_eq!(parse_ipv4("100.78.229.11"), Some([100, 78, 229, 11]));
    assert_eq!(parse_ipv4("0.0.0.0"), Some([0, 0, 0, 0]));
    assert_eq!(parse_ipv4("255.255.255.255"), Some([255, 255, 255, 255]));
}

#[test]
fn parse_ipv4_rejects_what_dotted_decimal_forbids() {
    let rejected = [
        "01.2.3.4", "1.2.3", "1.2.3.4.5", "256.1.1.1", "1..2.3", ".1.2.3", "1.2.3.",
        "0001.2.3.4", "1.2.3.4 ", "+1.2.3.4", "1.2.3.-4", "", "a.b.c.d", "0.0.0.00",
        "999.1.1.1", "1.2.3.04", "0x1.2.3.4", "1.2.3.1000",
    ];
    for c in rejected {
        assert_eq!(parse_ipv4(c), None, "address {:?}", c);
    }
    assert_eq!(parse_ipv4("10.0.0.255"), Some([10, 0, 0, 255]));
    assert_eq!(parse_ipv4("12.34.56.78"), Some([12, 34, 56, 78]));
}
