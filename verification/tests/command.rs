use flightlink::command::{parse_command, utf8_valid, Command, CommandParseError};

#[test]
fn tone_is_matched_before_its_prefix_ton() {
    assert_eq!(parse_command(&b"tone"[..]), Ok(Command::Tone));
    assert_eq!(parse_command(&b"toneee"[..]), Ok(Command::Tone));
    assert_eq!(parse_command(&b"ton"[..]), Ok(Command::Ton));
    assert_eq!(parse_command(&b"ton x"[..]), Ok(Command::Ton));
}

#[test]
fn toff_and_reset_and_unknown() {
    assert_eq!(parse_command(&b"toff"[..]), Ok(Command::Toff));
    assert_eq!(parse_command(&b"reset"[..]), Ok(Command::Reset));
    assert_eq!(parse_command(&b"hello"[..]), Ok(Command::Unknown));
    assert_eq!(parse_command(&b""[..]), Ok(Command::Unknown));
    // Prefix dispatch is case-sensitive.
    assert_eq!(parse_command(&b"TONE"[..]), Ok(Command::Unknown));
    // A leading space defeats the prefix match.
    assert_eq!(parse_command(&b" ton"[..]), Ok(Command::Unknown));
}

#[test]
fn re_tx_parses_its_index() {
    assert_eq!(parse_command(&b"re_tx 0"[..]), Ok(Command::ReTx(0)));
    assert_eq!(parse_command(&b"re_tx 37"[..]), Ok(Command::ReTx(37)));
    assert_eq!(parse_command(&b"re_tx 5\n"[..]), Ok(Command::ReTx(5)));
    assert_eq!(parse_command(&b"re_tx 12 34"[..]), Ok(Command::ReTx(12)));
}

#[test]
fn re_tx_rejects_bad_indexes() {
    assert_eq!(parse_command(&b"re_tx"[..]), Err(CommandParseError::MissingArgument));
    assert_eq!(parse_command(&b"re_tx abc"[..]), Err(CommandParseError::InvalidNumber));
    assert_eq!(parse_command(&b"re_tx -1"[..]), Err(CommandParseError::InvalidNumber));
    // Split keeps empty fields: two spaces give an empty second field.
    assert_eq!(parse_command(&b"re_tx  5"[..]), Err(CommandParseError::InvalidNumber));
    // Past usize::MAX.
    assert_eq!(
        parse_command(&b"re_tx 99999999999999999999999999"[..]),
        Err(CommandParseError::InvalidNumber)
    );
}

#[test]
fn inhg_parses_its_pressure() {
    assert_eq!(parse_command(&b"inhg 100000"[..]), Ok(Command::Inhg((100000.0f64).to_bits())));
    assert_eq!(parse_command(&b"inhg 101325.5"[..]), Ok(Command::Inhg((101325.5f64).to_bits())));
    assert_eq!(parse_command(&b"inhg 1e3"[..]), Ok(Command::Inhg((1000.0f64).to_bits())));
    assert_eq!(parse_command(&b"inhg 98000\r\n"[..]), Ok(Command::Inhg((98000.0f64).to_bits())));
}

#[test]
fn inhg_rejects_bad_pressures() {
    assert_eq!(parse_command(&b"inhg"[..]), Err(CommandParseError::MissingArgument));
    assert_eq!(parse_command(&b"inhg wat"[..]), Err(CommandParseError::InvalidNumber));
    assert_eq!(parse_command(&b"inhg ."[..]), Err(CommandParseError::InvalidNumber));
}

#[test]
fn malformed_utf8_is_dropped() {
    assert_eq!(parse_command(&[0xFF, 0xFE]), Err(CommandParseError::InvalidUtf8));
    assert_eq!(parse_command(&[0x74, 0x6F, 0x6E, 0x80]), Err(CommandParseError::InvalidUtf8));
    // A truncated multi-byte sequence.
    assert_eq!(parse_command(&[0x74, 0xC3]), Err(CommandParseError::InvalidUtf8));
}

#[test]
fn utf8_check_matches_std() {
    let cases: &[&[u8]] = &[
        b"plain ascii",
        &[],
        &[0xC3, 0xA9],
        &[0xE2, 0x82, 0xAC],
        &[0xF0, 0x9F, 0x9A, 0x80],
        &[0x80],
        &[0xC0, 0xAF],
        &[0xC2],
        &[0xE0, 0x80, 0x80],
        &[0xE0, 0xA0, 0x80],
        &[0xED, 0xA0, 0x80],
        &[0xED, 0x9F, 0xBF],
        &[0xF0, 0x80, 0x80, 0x80],
        &[0xF0, 0x90, 0x80, 0x80],
        &[0xF4, 0x8F, 0xBF, 0xBF],
        &[0xF4, 0x90, 0x80, 0x80],
        &[0xF5, 0x80, 0x80, 0x80],
        &[0x61, 0xC3, 0xA9, 0x62],
        &[0xE2, 0x82],
    ];
    for case in cases {
        assert_eq!(
            utf8_valid(case),
            std::str::from_utf8(case).is_ok(),
            "disagreement on {:?}",
            case
        );
    }
}
