use evict::validation::{read_u16, validate_port};

#[test]
fn test_port_1_minimum_valid() {
    let result = validate_port("1");
    assert!(result.is_ok());
    assert_eq!(result.unwrap(), 1);
}

#[test]
fn test_port_65535_maximum_valid() {
    let result = validate_port("65535");
    assert!(result.is_ok());
    assert_eq!(result.unwrap(), 65535);
}

#[test]
fn test_port_0_invalid() {
    let result = validate_port("0");
    assert!(result.is_err());
    assert!(result.unwrap_err().contains("must be between 1 and 65535"));
}

#[test]
fn test_port_65536_invalid() {
    let result = validate_port("65536");
    assert!(result.is_err());
}

#[test]
fn test_non_numeric_string() {
    let result = validate_port("abc");
    assert!(result.is_err());
    assert!(result.unwrap_err().contains("must be a valid number"));
}

#[test]
fn test_empty_string() {
    let result = validate_port("");
    assert!(result.is_err());
}

#[test]
fn test_negative_number() {
    let result = validate_port("-1");
    assert!(result.is_err());
}

#[test]
fn test_valid_ports_accepted() {
    for port in 1u16..=65535u16 {
        let result = validate_port(&port.to_string());
        assert_eq!(result, Ok(port));
    }
}

#[test]
fn test_invalid_ports_rejected() {
    let mut samples: Vec<u32> = vec![0, 65536, 65537, 70000, 99999, 100000, 655350, u32::MAX];
    let mut p: u32 = 65536;
    while p < u32::MAX / 3 {
        samples.push(p);
        p = p * 3 + 1;
    }
    for port in samples {
        let result = validate_port(&port.to_string());
        assert!(result.is_err(), "Port {} should be rejected but was accepted", port);
    }
}

#[test]
fn test_non_numeric_rejected() {
    for s in ["a", "Z", "abc", "port", "HTTP", "x", "eighty", "aB", "zzzzzzzzzzzzzzzzzzzz"] {
        let result = validate_port(s);
        assert!(result.is_err(), "Non-numeric string '{}' should be rejected", s);
    }
}

#[test]
fn exact_messages_of_validation() {
    assert_eq!(
        validate_port("0"),
        Err("Port must be between 1 and 65535, got: 0".to_string())
    );
    assert_eq!(
        validate_port("+0"),
        Err("Port must be between 1 and 65535, got: 0".to_string())
    );
    assert_eq!(
        validate_port("abc"),
        Err("Port must be a valid number, got: abc".to_string())
    );
    assert_eq!(
        validate_port("65536"),
        Err("Port must be a valid number, got: 65536".to_string())
    );
    assert_eq!(
        validate_port(""),
        Err("Port must be a valid number, got: ".to_string())
    );
    assert_eq!(
        validate_port("-1"),
        Err("Port must be a valid number, got: -1".to_string())
    );
    assert_eq!(
        validate_port(" 80"),
        Err("Port must be a valid number, got:  80".to_string())
    );
}

#[test]
fn reading_agrees_with_the_standard_parser() {
    let samples = [
        "", "+", "-", "0", "00", "+0", "-0", "1", "+1", "-1", "++1", "+-1", "1+", "80", "080",
        "0000000000000000000000000080", "8080", "65535", "065535", "+65535", "65536", "65540",
        "99999", "100000", "4294967295", "4294967296", "18446744073709551616",
        "99999999999999999999999999999999", " 80", "80 ", "8 0", "8_0", "8,0", "80\n", "0x50",
        "1e3", "12a", "a12", "abc", "١٢٣", "８０", "8０", "8.0", "\u{0}", "+", "＋1",
    ];
    for s in samples {
        assert_eq!(read_u16(s), s.parse::<u16>().ok(), "on {:?}", s);
    }
}

#[test]
fn reading_gives_back_every_written_number() {
    for n in 0u32..=70000 {
        let expected = if n <= 65535 { Some(n as u16) } else { None };
        assert_eq!(read_u16(&n.to_string()), expected);
        assert_eq!(read_u16(&format!("+{}", n)), expected);
        assert_eq!(read_u16(&format!("000{}", n)), expected);
    }
}
