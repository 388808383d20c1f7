use battlemon_ethereum::address::{to_canonical_hex, Address, ToHex};

#[test]
fn to_hex_works() {
    let expected = "0x4675c7e5baafbffbca748158becba61ef3b0a263";
    let actual: Address = expected.parse().unwrap();

    assert_eq!(expected, actual.to_hex());
}

#[test]
fn to_hex_spells_every_byte_with_two_lowercase_digits() {
    let mut bytes = [0u8; 20];
    bytes[0] = 0x00;
    bytes[1] = 0x0f;
    bytes[2] = 0xf0;
    bytes[3] = 0xff;
    bytes[4] = 0xab;
    bytes[19] = 0x09;
    let address = Address::new(bytes);
    assert_eq!(
        address.to_hex(),
        "0x000ff0ffab000000000000000000000000000009"
    );
}

#[test]
fn to_hex_of_the_zero_address() {
    let address = Address::new([0u8; 20]);
    assert_eq!(
        address.to_hex(),
        "0x0000000000000000000000000000000000000000"
    );
}

#[test]
fn canonical_hex_of_no_bytes_is_the_bare_prefix() {
    assert_eq!(to_canonical_hex(&[]), "0x");
    assert_eq!(to_canonical_hex(&[0x1a, 0x2b]), "0x1a2b");
}

#[test]
fn parse_reads_the_bytes_of_the_text() {
    let address = Address::parse("0x4675c7e5baafbffbca748158becba61ef3b0a263").unwrap();
    assert_eq!(
        address.bytes,
        [
            0x46, 0x75, 0xc7, 0xe5, 0xba, 0xaf, 0xbf, 0xfb, 0xca, 0x74, 0x81, 0x58, 0xbe, 0xcb,
            0xa6, 0x1e, 0xf3, 0xb0, 0xa2, 0x63
        ]
    );
}

#[test]
fn parse_is_case_insensitive_and_the_text_comes_out_lowercase() {
    let lower = Address::parse("0x4675c7e5baafbffbca748158becba61ef3b0a263").unwrap();
    let upper = Address::parse("0x4675C7E5BAAFBFFBCA748158BECBA61EF3B0A263").unwrap();
    let mixed = Address::parse("4675c7E5BaaFBffBCa748158BECba61EF3B0A263").unwrap();
    assert!(lower.same(&upper));
    assert!(lower.same(&mixed));
    assert_eq!(upper.to_hex(), "0x4675c7e5baafbffbca748158becba61ef3b0a263");
    assert_eq!(mixed.to_hex(), "0x4675c7e5baafbffbca748158becba61ef3b0a263");
}

#[test]
fn parse_gives_back_what_to_hex_wrote() {
    let mut bytes = [0u8; 20];
    for (i, byte) in bytes.iter_mut().enumerate() {
        *byte = (i as u8).wrapping_mul(37).wrapping_add(11);
    }
    let address = Address::new(bytes);
    let again = Address::parse(&address.to_hex()).unwrap();
    assert_eq!(again.bytes, bytes);
}

#[test]
fn parse_turns_down_a_text_of_the_wrong_length() {
    let short = Address::parse("0x4675c7e5");
    assert!(short.is_err());
    assert!(!short.unwrap_err().is_empty());
    assert!(Address::parse("0x4675c7e5baafbffbca748158becba61ef3b0a263ff").is_err());
    assert!(Address::parse("").is_err());
}

#[test]
fn parse_turns_down_a_text_that_is_not_hex() {
    let res = Address::parse("0xzz75c7e5baafbffbca748158becba61ef3b0a263");
    assert!(res.is_err());
    assert!(!res.unwrap_err().is_empty());
}

#[test]
fn same_tells_addresses_apart() {
    let a = Address::new([7u8; 20]);
    let mut other = [7u8; 20];
    other[19] = 8;
    let b = Address::new(other);
    assert!(a.same(&a));
    assert!(a.same(&Address::new([7u8; 20])));
    assert!(!a.same(&b));
    assert!(!b.same(&a));
}

#[test]
fn different_addresses_have_different_texts() {
    let a = Address::new([0x12u8; 20]);
    let b = Address::new([0x21u8; 20]);
    assert_ne!(a.to_hex(), b.to_hex());
}

fn is_blank(c: char) -> bool {
    c == ' ' || c == '\r' || c == '\n' || c == '\t'
}

fn expected_address(text: &str) -> Option<[u8; 20]> {
    let body = text.strip_prefix("0x").unwrap_or(text);
    let digits: Vec<char> = body.chars().filter(|c| !is_blank(*c)).collect();
    if digits.len() != 40 || !digits.iter().all(|c| c.is_ascii_hexdigit()) {
        return None;
    }
    let mut bytes = [0u8; 20];
    for (i, byte) in bytes.iter_mut().enumerate() {
        let high = digits[2 * i].to_digit(16).unwrap();
        let low = digits[2 * i + 1].to_digit(16).unwrap();
        *byte = (16 * high + low) as u8;
    }
    Some(bytes)
}

#[test]
fn parse_accepts_exactly_forty_hex_digits_but_for_blanks_and_the_prefix() {
    let digits = "4675c7e5baafbffbca748158becba61ef3b0a263";
    let texts = [
        String::new(),
        "0x".to_owned(),
        digits.to_owned(),
        format!("0x{digits}"),
        format!("0X{digits}"),
        format!("0x0x{digits}"),
        format!(" 0x{digits}"),
        format!("0x {digits}"),
        format!("0x{digits} "),
        format!("0x{digits}\n"),
        format!("0x{}\t{}", &digits[..7], &digits[7..]),
        format!("0x{} \r\n {}", &digits[..20], &digits[20..]),
        format!("{digits}0"),
        format!("{digits}00"),
        format!("{digits}g"),
        format!("{digits}é"),
        digits[1..].to_owned(),
        digits[2..].to_owned(),
        format!("g{}", &digits[1..]),
        format!("é{}", &digits[1..]),
        format!("{}-{}", &digits[..20], &digits[20..]),
        digits.to_uppercase(),
        format!("0x{}", digits.to_uppercase()),
        "0x000000000000000000000000000000000000000".to_owned(),
        "0x0000000000000000000000000000000000000000".to_owned(),
        "0xFFfFfFffFFfffFFfFFfFFFFFffFFFffffFfFFFfF".to_owned(),
        "x".repeat(40),
        " ".repeat(40),
    ];
    for text in texts {
        let parsed = Address::parse(&text).ok().map(|address| address.bytes);
        assert_eq!(parsed, expected_address(&text), "on {text:?}");
    }
}

#[test]
fn parse_passes_over_blanks() {
    let spaced = Address::parse("0x4675c7e5 baafbffb\tca748158\r\nbecba61e f3b0a263 ").unwrap();
    assert_eq!(
        spaced.to_hex(),
        "0x4675c7e5baafbffbca748158becba61ef3b0a263"
    );
}
