use tpcdsgen_arrow::conversions::{
    date_opt, i32_string, integer_opt, integer_sk_opt, is_null, julian_to_date32, opt, sk_opt,
    zip_string, UNIX_EPOCH_JULIAN_DAY,
};

#[test]
fn null_bits_select_columns() {
    let nbm: i64 = 0b1010;
    assert!(!is_null(nbm, 0));
    assert!(is_null(nbm, 1));
    assert!(!is_null(nbm, 2));
    assert!(is_null(nbm, 3));
    assert!(is_null(-1, 63));
    assert_eq!(opt(nbm, 1, 5), None);
    assert_eq!(opt(nbm, 2, 5), Some(5));
}

#[test]
fn surrogate_keys_null_on_negative_sentinel() {
    assert_eq!(integer_sk_opt(0, 0, 42), Some(42));
    assert_eq!(integer_sk_opt(0, 0, -1), None);
    assert_eq!(integer_sk_opt(1, 0, 42), None);
    assert_eq!(sk_opt(0, 9, 3_000_000_000), Some(3_000_000_000));
    assert_eq!(sk_opt(0, 9, -1), None);
    assert_eq!(integer_opt(0, 7, -5), Some(-5));
    assert_eq!(integer_opt(1 << 7, 7, 5), None);
}

#[test]
fn julian_days_become_unix_days() {
    assert_eq!(julian_to_date32(UNIX_EPOCH_JULIAN_DAY), Some(0));
    // 2000-01-01 is julian day 2451545, 10957 days after 1970-01-01
    assert_eq!(julian_to_date32(2451545), Some(10957));
    assert_eq!(julian_to_date32(-1), None);
    assert_eq!(date_opt(1 << 2, 2, 2451545), None);
    assert_eq!(date_opt(0, 2, 2451545), Some(10957));
}

#[test]
fn integers_format_like_to_string() {
    for v in [0, 7, 10, 99, 100, 12345, -1, -45, i32::MAX, i32::MIN] {
        assert_eq!(i32_string(v), v.to_string());
    }
}

#[test]
fn zips_are_zero_padded_to_five() {
    assert_eq!(zip_string(123), "00123");
    assert_eq!(zip_string(0), "00000");
    assert_eq!(zip_string(99999), "99999");
    assert_eq!(zip_string(123456), "123456");
    assert_eq!(zip_string(-12), "-0012");
    for v in [1, 5, 31904, 100000, -1, -99999, i32::MAX, i32::MIN] {
        assert_eq!(zip_string(v), format!("{v:05}"));
    }
}
