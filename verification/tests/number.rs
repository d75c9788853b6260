use ota_flasher::number::{pad_zeros, parse_number, to_decimal};

#[test]
fn numbers_are_read_as_std_reads_them() {
    for s in [
        "", "0", "7", "007", "+7", "+", "-1", "1a", " 1", "4294967295", "4294967296",
        "99999999999999999999999", "٣", "++1",
    ] {
        assert_eq!(parse_number(s, u32::MAX), s.parse::<u32>().ok(), "{}", s);
    }
    for s in ["65535", "65536", "0", "+80", "x"] {
        assert_eq!(parse_number(s, 65535), s.parse::<u16>().ok().map(|n| n as u32), "{}", s);
    }
}

#[test]
fn numbers_are_written_as_std_writes_them() {
    for n in [0u64, 9, 10, 101, 4294967296, u64::MAX] {
        assert_eq!(to_decimal(n), n.to_string());
    }
}

#[test]
fn zeros_are_put_in_front() {
    assert_eq!(pad_zeros("7", 3), "007");
    assert_eq!(pad_zeros("1000", 3), "1000");
    assert_eq!(pad_zeros("", 2), "00");
}

#[test]
fn a_decimal_notation_reads_back() {
    for n in [0u32, 5, 42, 1000, u32::MAX] {
        let padded = pad_zeros(&to_decimal(n as u64), 12);
        assert_eq!(parse_number(&padded, u32::MAX), Some(n));
    }
}
