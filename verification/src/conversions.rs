//! Conversions from generated TPC-DS values to Arrow cell values: the null
//! bit map, surrogate keys, dates, decimals, and the address columns.
use crate::column::{Cell, CellValue};
use vstd::prelude::*;

verus! {

/// Julian day number of 1970-01-01, the epoch of Arrow `Date32` values.
pub const UNIX_EPOCH_JULIAN_DAY: i64 = 2440588;

/// A column is null when its bit is set in the row's null bit map.
pub open spec fn spec_is_null(null_bit_map: i64, position: u32) -> bool {
    (null_bit_map as u64) & (1u64 << position) != 0
}

/// Check the null bit of column `position` in a row's null bit map.
pub fn is_null(null_bit_map: i64, position: u32) -> (b: bool)
    requires
        position < 64,
    ensures
        b == spec_is_null(null_bit_map, position),
{
    (null_bit_map as u64) & (1u64 << position) != 0
}

pub open spec fn spec_opt<T>(null_bit_map: i64, position: u32, value: T) -> Option<T> {
    if spec_is_null(null_bit_map, position) {
        None
    } else {
        Some(value)
    }
}

/// `value`, or null when the column's null bit is set.
pub fn opt<T>(null_bit_map: i64, position: u32, value: T) -> (r: Option<T>)
    requires
        position < 64,
    ensures
        r == spec_opt(null_bit_map, position, value),
{
    if is_null(null_bit_map, position) {
        None
    } else {
        Some(value)
    }
}

pub open spec fn spec_integer_sk_opt(null_bit_map: i64, position: u32, sk: i64) -> Option<i32> {
    if spec_is_null(null_bit_map, position) || sk < 0 {
        None
    } else {
        Some(sk as i32)
    }
}

/// A surrogate key as an `Int32`: null when the null bit is set or the key
/// is negative (the generators' "no reference" sentinel).
pub fn integer_sk_opt(null_bit_map: i64, position: u32, sk: i64) -> (r: Option<i32>)
    requires
        position < 64,
    ensures
        r == spec_integer_sk_opt(null_bit_map, position, sk),
{
    if is_null(null_bit_map, position) || sk < 0 {
        None
    } else {
        Some(sk as i32)
    }
}

pub open spec fn spec_sk_opt(null_bit_map: i64, position: u32, sk: i64) -> Option<i64> {
    if spec_is_null(null_bit_map, position) || sk < 0 {
        None
    } else {
        Some(sk)
    }
}

/// A surrogate key as an `Int64`: null when the null bit is set or the key
/// is negative.
pub fn sk_opt(null_bit_map: i64, position: u32, sk: i64) -> (r: Option<i64>)
    requires
        position < 64,
    ensures
        r == spec_sk_opt(null_bit_map, position, sk),
{
    if is_null(null_bit_map, position) || sk < 0 {
        None
    } else {
        Some(sk)
    }
}

pub open spec fn spec_integer_opt(null_bit_map: i64, position: u32, value: i64) -> Option<i32> {
    if spec_is_null(null_bit_map, position) {
        None
    } else {
        Some(value as i32)
    }
}

/// A 64-bit generated integer as an `Int32`, null when the null bit is set.
pub fn integer_opt(null_bit_map: i64, position: u32, value: i64) -> (r: Option<i32>)
    requires
        position < 64,
    ensures
        r == spec_integer_opt(null_bit_map, position, value),
{
    if is_null(null_bit_map, position) {
        None
    } else {
        Some(value as i32)
    }
}

pub open spec fn spec_julian_to_date32(julian_days: i64) -> Option<i32> {
    if julian_days < 0 {
        None
    } else {
        Some((julian_days - UNIX_EPOCH_JULIAN_DAY) as i32)
    }
}

/// A julian day number as an Arrow `Date32` (days since 1970-01-01); a
/// negative julian day is the generators' "no date" sentinel and is null.
pub fn julian_to_date32(julian_days: i64) -> (r: Option<i32>)
    ensures
        r == spec_julian_to_date32(julian_days),
{
    if julian_days < 0 {
        None
    } else {
        Some((julian_days - UNIX_EPOCH_JULIAN_DAY) as i32)
    }
}

pub open spec fn spec_date_opt(null_bit_map: i64, position: u32, julian_days: i64) -> Option<i32> {
    if spec_is_null(null_bit_map, position) {
        None
    } else {
        spec_julian_to_date32(julian_days)
    }
}

/// A date column: null when the null bit is set, else the julian day as a
/// `Date32` (null for the negative sentinel).
pub fn date_opt(null_bit_map: i64, position: u32, julian_days: i64) -> (r: Option<i32>)
    requires
        position < 64,
    ensures
        r == spec_date_opt(null_bit_map, position, julian_days),
{
    if is_null(null_bit_map, position) {
        None
    } else {
        julian_to_date32(julian_days)
    }
}

/// A column cell is null exactly when the row's null bit map marks the
/// column, and otherwise holds the value unchanged: a row with no null bit
/// set has no null cell, and one with every bit set has only null cells.
pub proof fn law_null_bits_decide_nulls<T>(null_bit_map: i64, position: u32, value: T)
    requires
        position < 64,
    ensures
        spec_opt(null_bit_map, position, value) is None <==> spec_is_null(null_bit_map, position),
        !spec_is_null(null_bit_map, position) ==> spec_opt(null_bit_map, position, value) == Some(
            value,
        ),
        !spec_is_null(0, position),
        spec_is_null(-1i64, position),
{
    assert((0i64 as u64) & (1u64 << position) == 0) by (bit_vector)
        requires
            position < 64,
    ;
    assert((-1i64 as u64) & (1u64 << position) != 0) by (bit_vector)
        requires
            position < 64,
    ;
}

/// Dates count days from the Unix epoch: the julian day of the epoch is day
/// 0, and the next julian day is the next date.
pub proof fn law_dates_count_days_from_epoch(julian_days: i64)
    requires
        UNIX_EPOCH_JULIAN_DAY <= julian_days < UNIX_EPOCH_JULIAN_DAY + 0x7fff_ffff,
    ensures
        spec_julian_to_date32(UNIX_EPOCH_JULIAN_DAY) == Some(0i32),
        spec_julian_to_date32(julian_days) == Some((julian_days - UNIX_EPOCH_JULIAN_DAY) as i32),
        spec_julian_to_date32((julian_days + 1) as i64) == Some(
            (spec_julian_to_date32(julian_days)->0 + 1) as i32,
        ),
{
}

/// The character of decimal digit `d`.
pub open spec fn spec_digit_char(d: nat) -> char {
    (48 + d) as char
}

/// The decimal digits of `n`, most significant first, without leading
/// zeros (`"0"` for 0).
pub open spec fn spec_decimal_digits(n: nat) -> Seq<char>
    decreases n,
{
    if n < 10 {
        seq![spec_digit_char(n)]
    } else {
        spec_decimal_digits(n / 10).push(spec_digit_char(n % 10))
    }
}

/// `n` zero characters.
pub open spec fn spec_zeros(n: int) -> Seq<char> {
    Seq::new(if n > 0 { n as nat } else { 0 }, |i: int| '0')
}

/// An `i32` in decimal, with a leading `-` when negative (as `to_string`).
pub open spec fn spec_i32_string(v: i32) -> Seq<char> {
    if v < 0 {
        seq!['-'] + spec_decimal_digits((-v) as nat)
    } else {
        spec_decimal_digits(v as nat)
    }
}

/// An `i32` zero-padded to five characters, sign included (as `{:05}`).
pub open spec fn spec_zip_string(v: i32) -> Seq<char> {
    if v < 0 {
        let d = spec_decimal_digits((-v) as nat);
        seq!['-'] + spec_zeros(4 - d.len()) + d
    } else {
        let d = spec_decimal_digits(v as nat);
        spec_zeros(5 - d.len()) + d
    }
}

fn digit_str(d: u32) -> (s: &'static str)
    requires
        d < 10,
    ensures
        s@ == seq![spec_digit_char(d as nat)],
{
    proof {
        reveal_strlit("0");
        reveal_strlit("1");
        reveal_strlit("2");
        reveal_strlit("3");
        reveal_strlit("4");
        reveal_strlit("5");
        reveal_strlit("6");
        reveal_strlit("7");
        reveal_strlit("8");
        reveal_strlit("9");
    }
    match d {
        0 => "0",
        1 => "1",
        2 => "2",
        3 => "3",
        4 => "4",
        5 => "5",
        6 => "6",
        7 => "7",
        8 => "8",
        _ => "9",
    }
}

/// Append the decimal digits of `n` to `out`.
fn append_decimal(out: &mut String, n: u32)
    ensures
        final(out)@ == old(out)@ + spec_decimal_digits(n as nat),
    decreases n,
{
    if n >= 10 {
        append_decimal(out, n / 10);
    }
    out.append(digit_str(n % 10));
    proof {
        if n >= 10 {
            assert(spec_decimal_digits(n as nat) == spec_decimal_digits((n / 10) as nat).push(
                spec_digit_char((n % 10) as nat),
            ));
        }
    }
}

/// The number of decimal digits of `n`.
fn decimal_len(n: u32) -> (len: usize)
    ensures
        len == spec_decimal_digits(n as nat).len(),
        1 <= len <= n as int + 1,
    decreases n,
{
    if n < 10 {
        1
    } else {
        let l = decimal_len(n / 10);
        l + 1
    }
}

/// The magnitude of an `i32`.
fn magnitude(v: i32) -> (m: u32)
    ensures
        m == if v < 0 { -v } else { v as int },
{
    if v < 0 {
        (-(v as i64)) as u32
    } else {
        v as u32
    }
}

/// An `i32` in decimal, as `to_string` writes it.
pub fn i32_string(v: i32) -> (s: String)
    ensures
        s@ == spec_i32_string(v),
{
    let mut s = String::new();
    if v < 0 {
        proof {
            reveal_strlit("-");
        }
        s.append("-");
    }
    append_decimal(&mut s, magnitude(v));
    proof {
        if v >= 0 {
            assert(s@ =~= spec_decimal_digits(v as nat));
        }
    }
    s
}

/// Append `n` zero characters to `out`.
fn append_zeros(out: &mut String, n: usize)
    ensures
        final(out)@ == old(out)@ + spec_zeros(n as int),
{
    proof {
        reveal_strlit("0");
    }
    let mut i: usize = 0;
    while i < n
        invariant
            i <= n,
            out@ == old(out)@ + spec_zeros(i as int),
        decreases n - i,
    {
        proof {
            reveal_strlit("0");
        }
        out.append("0");
        i = i + 1;
        assert(spec_zeros(i as int) =~= spec_zeros(i - 1).push('0'));
        assert(out@ =~= old(out)@ + spec_zeros(i as int));
    }
}

/// A zip code zero-padded to five characters, as `{:05}` writes it.
pub fn zip_string(v: i32) -> (s: String)
    ensures
        s@ == spec_zip_string(v),
{
    let m = magnitude(v);
    let len = decimal_len(m);
    let mut s = String::new();
    if v < 0 {
        proof {
            reveal_strlit("-");
        }
        s.append("-");
        if len < 4 {
            append_zeros(&mut s, 4 - len);
        }
    } else if len < 5 {
        append_zeros(&mut s, 5 - len);
    }
    append_decimal(&mut s, m);
    proof {
        let d = spec_decimal_digits(m as nat);
        if v < 0 {
            assert(s@ =~= seq!['-'] + spec_zeros(4 - d.len()) + d);
        } else {
            assert(s@ =~= spec_zeros(5 - d.len()) + d);
        }
    }
    s
}

} // verus!
