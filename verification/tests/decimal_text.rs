use vault::decimal::{parse_u128, to_decimal};

#[test]
fn writes_numbers_without_sign_or_leading_zero() {
    assert_eq!(to_decimal(0), "0");
    assert_eq!(to_decimal(7), "7");
    assert_eq!(to_decimal(10), "10");
    assert_eq!(to_decimal(12345), "12345");
    assert_eq!(to_decimal(1209600), "1209600");
    assert_eq!(to_decimal(u64::MAX as u128), "18446744073709551615");
    assert_eq!(to_decimal(u128::MAX), "340282366920938463463374607431768211455");
}

#[test]
fn writes_what_std_writes() {
    let samples: [u128; 9] = [
        0,
        1,
        9,
        10,
        99,
        100,
        1_000_000_007,
        u64::MAX as u128 + 1,
        u128::MAX - 1,
    ];
    for n in samples {
        assert_eq!(to_decimal(n), n.to_string());
    }
}

#[test]
fn reads_plain_digits() {
    assert_eq!(parse_u128("0"), Some(0));
    assert_eq!(parse_u128("12345"), Some(12345));
    assert_eq!(parse_u128("1000"), Some(1000));
    assert_eq!(
        parse_u128("340282366920938463463374607431768211455"),
        Some(u128::MAX)
    );
}

#[test]
fn reads_a_leading_plus_and_leading_zeros() {
    assert_eq!(parse_u128("+7"), Some(7));
    assert_eq!(parse_u128("007"), Some(7));
    assert_eq!(parse_u128("+000"), Some(0));
    assert_eq!(
        parse_u128("000340282366920938463463374607431768211455"),
        Some(u128::MAX)
    );
}

#[test]
fn refuses_what_is_no_number() {
    assert_eq!(parse_u128(""), None);
    assert_eq!(parse_u128("+"), None);
    assert_eq!(parse_u128("-"), None);
    assert_eq!(parse_u128("-1"), None);
    assert_eq!(parse_u128("++1"), None);
    assert_eq!(parse_u128("1+"), None);
    assert_eq!(parse_u128(" 1"), None);
    assert_eq!(parse_u128("1 "), None);
    assert_eq!(parse_u128("12a"), None);
    assert_eq!(parse_u128("1_000"), None);
    assert_eq!(parse_u128("1.5"), None);
    assert_eq!(parse_u128("0x10"), None);
    assert_eq!(parse_u128("\u{ff11}\u{ff12}"), None);
    assert_eq!(parse_u128("\u{661}"), None);
}

#[test]
fn refuses_what_does_not_fit() {
    assert_eq!(parse_u128("340282366920938463463374607431768211456"), None);
    assert_eq!(parse_u128("340282366920938463463374607431768211460"), None);
    assert_eq!(parse_u128("3402823669209384634633746074317682114550"), None);
    assert_eq!(
        parse_u128("99999999999999999999999999999999999999999999999999"),
        None
    );
    assert_eq!(parse_u128("3402823669209384634633746074317682114559x"), None);
}

#[test]
fn reads_what_std_reads() {
    let samples = [
        "",
        "+",
        "-",
        "0",
        "+0",
        "-0",
        "42",
        "+42",
        "0042",
        "4 2",
        "42\n",
        "\u{664}\u{662}",
        "340282366920938463463374607431768211455",
        "340282366920938463463374607431768211456",
        "+340282366920938463463374607431768211455",
        "1e3",
    ];
    for text in samples {
        assert_eq!(parse_u128(text), text.parse::<u128>().ok(), "{:?}", text);
    }
}

#[test]
fn reading_undoes_writing() {
    let samples: [u128; 8] = [
        0,
        5,
        10,
        12345,
        999_999,
        u64::MAX as u128,
        u128::MAX / 10,
        u128::MAX,
    ];
    for n in samples {
        assert_eq!(parse_u128(&to_decimal(n)), Some(n));
    }
}
