//! Addresses of generated rows and the ten address columns they fill.
use crate::column::{spec_row_view, Cell, CellValue};
use crate::conversions::{i32_string, opt, spec_i32_string, spec_opt, spec_zip_string, zip_string};
use tpcdsgen::types::Address;
use vstd::prelude::*;

verus! {

#[verifier::external_type_specification]
#[verifier::external_body]
pub struct ExAddress(Address);

/// The values of a generated address.
#[derive(Clone, Debug)]
pub struct AddressRecord {
    pub street_number: i32,
    pub street_name: String,
    pub street_type: String,
    pub suite_number: String,
    pub city: String,
    pub county: Option<String>,
    pub state: String,
    pub zip: i32,
    pub country: String,
    /// Hours from GMT.
    pub gmt_offset: i32,
}

/// The county, or the empty text when the address has none.
pub open spec fn spec_county(a: AddressRecord) -> Seq<char> {
    match a.county {
        Some(c) => c@,
        None => Seq::empty(),
    }
}

/// The ten address columns of a row whose null bit map is `null_bit_map`,
/// the first of them at null bit `base`: street number, street name, street
/// type, suite number, city, county, state, zip (five digits, zero padded),
/// country, and the GMT offset as a `Decimal128(5, 2)`.
pub open spec fn spec_address_cells(a: AddressRecord, null_bit_map: i64, base: u32) -> Seq<CellValue> {
    seq![
        CellValue::Utf8(spec_opt(null_bit_map, base, spec_i32_string(a.street_number))),
        CellValue::Utf8(spec_opt(null_bit_map, (base + 1) as u32, a.street_name@)),
        CellValue::Utf8(spec_opt(null_bit_map, (base + 2) as u32, a.street_type@)),
        CellValue::Utf8(spec_opt(null_bit_map, (base + 3) as u32, a.suite_number@)),
        CellValue::Utf8(spec_opt(null_bit_map, (base + 4) as u32, a.city@)),
        CellValue::Utf8(spec_opt(null_bit_map, (base + 5) as u32, spec_county(a))),
        CellValue::Utf8(spec_opt(null_bit_map, (base + 6) as u32, a.state@)),
        CellValue::Utf8(spec_opt(null_bit_map, (base + 7) as u32, spec_zip_string(a.zip))),
        CellValue::Utf8(spec_opt(null_bit_map, (base + 8) as u32, a.country@)),
        CellValue::Decimal128(
            spec_opt(null_bit_map, (base + 9) as u32, (a.gmt_offset * 100) as i128),
        ),
    ]
}

/// The ten address columns of the generated address `a`, as
/// `spec_address_cells` lays them out.
pub open spec fn spec_address_cells_of(a: Address, null_bit_map: i64, base: u32) -> Seq<CellValue> {
    let county = match spec_address_county(a) {
        Some(c) => c,
        None => Seq::empty(),
    };
    seq![
        CellValue::Utf8(spec_opt(null_bit_map, base, spec_i32_string(spec_address_street_number(a)))),
        CellValue::Utf8(spec_opt(null_bit_map, (base + 1) as u32, spec_address_street_name(a))),
        CellValue::Utf8(spec_opt(null_bit_map, (base + 2) as u32, spec_address_street_type(a))),
        CellValue::Utf8(spec_opt(null_bit_map, (base + 3) as u32, spec_address_suite_number(a))),
        CellValue::Utf8(spec_opt(null_bit_map, (base + 4) as u32, spec_address_city(a))),
        CellValue::Utf8(spec_opt(null_bit_map, (base + 5) as u32, county)),
        CellValue::Utf8(spec_opt(null_bit_map, (base + 6) as u32, spec_address_state(a))),
        CellValue::Utf8(
            spec_opt(null_bit_map, (base + 7) as u32, spec_zip_string(spec_address_zip(a))),
        ),
        CellValue::Utf8(spec_opt(null_bit_map, (base + 8) as u32, spec_address_country(a))),
        CellValue::Decimal128(
            spec_opt(null_bit_map, (base + 9) as u32, (spec_address_gmt_offset(a) * 100) as i128),
        ),
    ]
}

fn text_cell(null_bit_map: i64, position: u32, s: String) -> (c: Cell)
    requires
        position < 64,
    ensures
        c@ == CellValue::Utf8(spec_opt(null_bit_map, position, s@)),
{
    Cell::Utf8(opt(null_bit_map, position, s))
}

/// Append the ten address columns of `a` to `row`.
pub fn push_address_cells(row: &mut Vec<Cell>, a: &AddressRecord, null_bit_map: i64, base: u32)
    requires
        base + 9 < 64,
    ensures
        spec_row_view(final(row)@) == spec_row_view(old(row)@) + spec_address_cells(
            *a,
            null_bit_map,
            base,
        ),
{
    let county = match &a.county {
        Some(c) => c.clone(),
        None => String::new(),
    };
    row.push(text_cell(null_bit_map, base, i32_string(a.street_number)));
    row.push(text_cell(null_bit_map, base + 1, a.street_name.clone()));
    row.push(text_cell(null_bit_map, base + 2, a.street_type.clone()));
    row.push(text_cell(null_bit_map, base + 3, a.suite_number.clone()));
    row.push(text_cell(null_bit_map, base + 4, a.city.clone()));
    row.push(text_cell(null_bit_map, base + 5, county));
    row.push(text_cell(null_bit_map, base + 6, a.state.clone()));
    row.push(text_cell(null_bit_map, base + 7, zip_string(a.zip)));
    row.push(text_cell(null_bit_map, base + 8, a.country.clone()));
    row.push(Cell::Decimal128(opt(null_bit_map, base + 9, (a.gmt_offset as i128) * 100)));
    assert(spec_row_view(row@) =~= spec_row_view(old(row)@) + spec_address_cells(
        *a,
        null_bit_map,
        base,
    ));
}

/// The value that `Address::get_street_number` returns for `a`.
pub uninterp spec fn spec_address_street_number(a: Address) -> i32;

/// Calls `Address::get_street_number`: a field of the address, named
/// `spec_address_street_number`.
#[verifier::external_body]
fn address_street_number(a: &Address) -> (v: i32)
    ensures
        v == spec_address_street_number(*a),
{
    a.get_street_number()
}

/// The text that `Address::get_street_name` returns for `a`.
pub uninterp spec fn spec_address_street_name(a: Address) -> Seq<char>;

/// Calls `Address::get_street_name`, as a `String`: a field of the address, named
/// `spec_address_street_name`.
#[verifier::external_body]
fn address_street_name(a: &Address) -> (v: String)
    ensures
        v@ == spec_address_street_name(*a),
{
    a.get_street_name()
}

/// The text that `Address::get_street_type` returns for `a`.
pub uninterp spec fn spec_address_street_type(a: Address) -> Seq<char>;

/// Calls `Address::get_street_type`, as a `String`: a field of the address, named
/// `spec_address_street_type`.
#[verifier::external_body]
fn address_street_type(a: &Address) -> (v: String)
    ensures
        v@ == spec_address_street_type(*a),
{
    a.get_street_type().to_owned()
}

/// The text that `Address::get_suite_number` returns for `a`.
pub uninterp spec fn spec_address_suite_number(a: Address) -> Seq<char>;

/// Calls `Address::get_suite_number`, as a `String`: a field of the address, named
/// `spec_address_suite_number`.
#[verifier::external_body]
fn address_suite_number(a: &Address) -> (v: String)
    ensures
        v@ == spec_address_suite_number(*a),
{
    a.get_suite_number().to_owned()
}

/// The text that `Address::get_city` returns for `a`.
pub uninterp spec fn spec_address_city(a: Address) -> Seq<char>;

/// Calls `Address::get_city`, as a `String`: a field of the address, named
/// `spec_address_city`.
#[verifier::external_body]
fn address_city(a: &Address) -> (v: String)
    ensures
        v@ == spec_address_city(*a),
{
    a.get_city().to_owned()
}

/// The county that `Address::get_county` returns for `a`, if any.
pub uninterp spec fn spec_address_county(a: Address) -> Option<Seq<char>>;

/// Calls `Address::get_county`, as a `String` when present: a field of the
/// address, named `spec_address_county`.
#[verifier::external_body]
fn address_county(a: &Address) -> (v: Option<String>)
    ensures
        match v {
            Some(c) => spec_address_county(*a) == Some(c@),
            None => spec_address_county(*a) is None,
        },
{
    match a.get_county() {
        Some(c) => Some(c.to_owned()),
        None => None,
    }
}

/// The text that `Address::get_state` returns for `a`.
pub uninterp spec fn spec_address_state(a: Address) -> Seq<char>;

/// Calls `Address::get_state`, as a `String`: a field of the address, named
/// `spec_address_state`.
#[verifier::external_body]
fn address_state(a: &Address) -> (v: String)
    ensures
        v@ == spec_address_state(*a),
{
    a.get_state().to_owned()
}

/// The value that `Address::get_zip` returns for `a`.
pub uninterp spec fn spec_address_zip(a: Address) -> i32;

/// Calls `Address::get_zip`: a field of the address, named
/// `spec_address_zip`.
#[verifier::external_body]
fn address_zip(a: &Address) -> (v: i32)
    ensures
        v == spec_address_zip(*a),
{
    a.get_zip()
}

/// The text that `Address::get_country` returns for `a`.
pub uninterp spec fn spec_address_country(a: Address) -> Seq<char>;

/// Calls `Address::get_country`, as a `String`: a field of the address, named
/// `spec_address_country`.
#[verifier::external_body]
fn address_country(a: &Address) -> (v: String)
    ensures
        v@ == spec_address_country(*a),
{
    a.get_country().to_owned()
}

/// The value that `Address::get_gmt_offset` returns for `a`.
pub uninterp spec fn spec_address_gmt_offset(a: Address) -> i32;

/// Calls `Address::get_gmt_offset`: a field of the address, named
/// `spec_address_gmt_offset`.
#[verifier::external_body]
fn address_gmt_offset(a: &Address) -> (v: i32)
    ensures
        v == spec_address_gmt_offset(*a),
{
    a.get_gmt_offset()
}

/// Whether `r` holds the values of the generated address `a`, field by
/// field.
pub open spec fn spec_address_matches(r: AddressRecord, a: Address) -> bool {
    &&& r.street_number == spec_address_street_number(a)
    &&& r.street_name@ == spec_address_street_name(a)
    &&& r.street_type@ == spec_address_street_type(a)
    &&& r.suite_number@ == spec_address_suite_number(a)
    &&& r.city@ == spec_address_city(a)
    &&& match r.county {
        Some(c) => spec_address_county(a) == Some(c@),
        None => spec_address_county(a) is None,
    }
    &&& r.state@ == spec_address_state(a)
    &&& r.zip == spec_address_zip(a)
    &&& r.country@ == spec_address_country(a)
    &&& r.gmt_offset == spec_address_gmt_offset(a)
}

/// Read the values of a generated address.
pub fn address_record(a: &Address) -> (r: AddressRecord)
    ensures
        spec_address_matches(r, *a),
{
    AddressRecord {
        street_number: address_street_number(a),
        street_name: address_street_name(a),
        street_type: address_street_type(a),
        suite_number: address_suite_number(a),
        city: address_city(a),
        county: address_county(a),
        state: address_state(a),
        zip: address_zip(a),
        country: address_country(a),
        gmt_offset: address_gmt_offset(a),
    }
}

} // verus!
