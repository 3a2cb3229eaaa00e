use peekaboo::units::{decimal_text, percent_text, push_decimal, push_percent, whole_gib, BYTES_PER_GIB};

#[test]
fn decimal_of_zero_is_one_digit() {
    assert_eq!(decimal_text(0), "0");
}

#[test]
fn decimal_of_single_digits() {
    let expected = ["0", "1", "2", "3", "4", "5", "6", "7", "8", "9"];
    let mut n: u64 = 0;
    while n < 10 {
        assert_eq!(decimal_text(n), expected[n as usize]);
        n += 1;
    }
}

#[test]
fn decimal_keeps_every_digit() {
    assert_eq!(decimal_text(10), "10");
    assert_eq!(decimal_text(1234567890), "1234567890");
    assert_eq!(decimal_text(1000000), "1000000");
    assert_eq!(decimal_text(u64::MAX), "18446744073709551615");
}

#[test]
fn decimal_agrees_with_the_standard_rendering() {
    let samples: [u64; 8] = [0, 9, 10, 99, 100, 4096, 1073741824, 9007199254740993];
    for n in samples {
        assert_eq!(decimal_text(n), format!("{}", n));
    }
}

#[test]
fn decimal_reads_back_as_the_same_number() {
    let samples: [u64; 5] = [0, 7, 1001, 123456789012345, u64::MAX];
    for n in samples {
        assert_eq!(decimal_text(n).parse::<u64>(), Ok(n));
    }
}

#[test]
fn push_decimal_appends_to_what_is_there() {
    let mut out = String::from("n=");
    push_decimal(&mut out, 42);
    assert_eq!(out, "n=42");
    push_decimal(&mut out, 0);
    assert_eq!(out, "n=420");
}

#[test]
fn gib_is_bytes_divided_by_two_to_the_thirty() {
    assert_eq!(BYTES_PER_GIB, 1_073_741_824);
    assert_eq!(whole_gib(0), 0);
    assert_eq!(whole_gib(1_073_741_823), 0);
    assert_eq!(whole_gib(1_073_741_824), 1);
    assert_eq!(whole_gib(1_073_741_825), 1);
    assert_eq!(whole_gib(2_147_483_647), 1);
    assert_eq!(whole_gib(17_179_869_184), 16);
    assert_eq!(whole_gib(u64::MAX), 17_179_869_183);
}

#[test]
fn percent_has_two_fractional_digits() {
    assert_eq!(percent_text(0), "0.00");
    assert_eq!(percent_text(5), "0.05");
    assert_eq!(percent_text(50), "0.50");
    assert_eq!(percent_text(100), "1.00");
    assert_eq!(percent_text(1234), "12.34");
    assert_eq!(percent_text(9999), "99.99");
    assert_eq!(percent_text(10000), "100.00");
}

#[test]
fn percent_always_ends_in_point_and_two_digits() {
    let samples: [u64; 6] = [0, 1, 10, 101, 123456, u64::MAX];
    for h in samples {
        let text = percent_text(h);
        let bytes = text.as_bytes();
        let n = bytes.len();
        assert!(n >= 4);
        assert_eq!(bytes[n - 3], b'.');
        assert!(bytes[n - 2].is_ascii_digit());
        assert!(bytes[n - 1].is_ascii_digit());
        assert_eq!(text.matches('.').count(), 1);
    }
}

#[test]
fn push_percent_appends_to_what_is_there() {
    let mut out = String::from("cpu: ");
    push_percent(&mut out, 4207);
    assert_eq!(out, "cpu: 42.07");
}
