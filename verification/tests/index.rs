use obj_mesh::index::parse_index;

#[test]
fn decimal_indices_are_read() {
    assert_eq!(parse_index(b"0"), Some(0));
    assert_eq!(parse_index(b"1"), Some(1));
    assert_eq!(parse_index(b"42"), Some(42));
    assert_eq!(parse_index(b"007"), Some(7));
    assert_eq!(parse_index(b"+15"), Some(15));
    assert_eq!(parse_index(b"4294967295"), Some(4294967295));
    assert_eq!(parse_index(b"00000000000000000004294967295"), Some(4294967295));
}

#[test]
fn what_is_no_decimal_index_is_refused() {
    for token in ["", "+", "-", "-1", "-0", "++1", "1+", "1 ", " 1", "1.0", "1e3", "0x10", "1_000", "a",
        "12a", "4294967296", "99999999999999999999", "١٢"] {
        assert_eq!(parse_index(token.as_bytes()), None, "{:?}", token);
    }
}

#[test]
fn parse_index_agrees_with_the_standard_parser() {
    let tokens = ["", "0", "9", "10", "+7", "+", "-7", "0099", "4294967295", "4294967296", "42949672950",
        "1/2", "3 ", "\t3", "three", "٣", "+-1", "2147483648", "000", "+000", "18446744073709551616"];
    for token in tokens {
        assert_eq!(parse_index(token.as_bytes()), token.parse::<u32>().ok(), "{:?}", token);
    }
    for value in [0u32, 1, 9, 10, 99, 100, 65535, 65536, 1000000, 4294967294, 4294967295] {
        assert_eq!(parse_index(value.to_string().as_bytes()), Some(value));
    }
}
