//! The `web_site` table: its rows as plain records, the cells of each row,
//! the table schema, and the batch reader over the row generator.
use crate::address::{
    address_record, push_address_cells, spec_address_cells, spec_address_cells_of,
    spec_address_matches, AddressRecord,
};
use crate::column::{
    column, rows_to_columns, spec_columns, spec_columns_view, spec_row_conforms, spec_row_view,
    spec_schema_view, Cell, CellValue, ColumnSpec, ColumnType, DEFAULT_BATCH_SIZE,
};
use crate::conversions::{
    integer_sk_opt, julian_to_date32, opt, spec_integer_sk_opt, spec_is_null,
    spec_julian_to_date32, spec_opt,
};
use crate::pricing::{decimal_number, spec_decimal_number};
use crate::batching::{lemma_batches_unfold, spec_batch_take, spec_batches};
use crate::plan::{spec_covers, RowRange, MAX_STARTING_ROW_NUMBER};
use crate::table::{spec_values_index, Table};
use crate::tpcds::{scaling_row_count, session_scaling, spec_scaling_row_count, spec_session_scaling};
use tpcdsgen::config::Session;
use tpcdsgen::row::{WebSiteRowGenerator, WebSiteRow};
use tpcdsgen::types::{Address, Decimal};
use vstd::prelude::*;

verus! {

#[verifier::external_type_specification]
#[verifier::external_body]
pub struct ExWebSiteRow(WebSiteRow);

#[verifier::external_type_specification]
#[verifier::external_body]
pub struct ExWebSiteRowGenerator(WebSiteRowGenerator);

/// The number of columns of the `web_site` table.
pub const WEB_SITE_COLUMNS: usize = 26;

/// The values of one generated `web_site` row.
#[derive(Clone, Debug)]
pub struct WebSiteRecord {
    /// Bit `i` set: column `i` is null.
    pub null_bit_map: i64,
    pub site_sk: i64,
    pub site_id: String,
    pub rec_start_date_id: i64,
    pub rec_end_date_id: i64,
    pub name: String,
    pub open_date: i64,
    pub close_date: i64,
    pub class: String,
    pub manager: String,
    pub market_id: i32,
    pub market_class: String,
    pub market_desc: String,
    pub market_manager: String,
    pub company_id: i32,
    pub company_name: String,
    pub address: AddressRecord,
    pub tax_percentage: i64,
}

/// The schema of the `web_site` table: column names, types and nullability.
pub open spec fn spec_web_site_schema() -> Seq<(Seq<char>, ColumnType, bool)> {
    seq![
        ("web_site_sk"@, ColumnType::Int32, false),
        ("web_site_id"@, ColumnType::Utf8View, false),
        ("web_rec_start_date"@, ColumnType::Date32, true),
        ("web_rec_end_date"@, ColumnType::Date32, true),
        ("web_name"@, ColumnType::Utf8View, true),
        ("web_open_date_sk"@, ColumnType::Int32, true),
        ("web_close_date_sk"@, ColumnType::Int32, true),
        ("web_class"@, ColumnType::Utf8View, true),
        ("web_manager"@, ColumnType::Utf8View, true),
        ("web_mkt_id"@, ColumnType::Int32, true),
        ("web_mkt_class"@, ColumnType::Utf8View, true),
        ("web_mkt_desc"@, ColumnType::Utf8View, true),
        ("web_market_manager"@, ColumnType::Utf8View, true),
        ("web_company_id"@, ColumnType::Int32, true),
        ("web_company_name"@, ColumnType::Utf8View, true),
        ("web_street_number"@, ColumnType::Utf8View, true),
        ("web_street_name"@, ColumnType::Utf8View, true),
        ("web_street_type"@, ColumnType::Utf8View, true),
        ("web_suite_number"@, ColumnType::Utf8View, true),
        ("web_city"@, ColumnType::Utf8View, true),
        ("web_county"@, ColumnType::Utf8View, true),
        ("web_state"@, ColumnType::Utf8View, true),
        ("web_zip"@, ColumnType::Utf8View, true),
        ("web_country"@, ColumnType::Utf8View, true),
        ("web_gmt_offset"@, ColumnType::Decimal128 { precision: 5, scale: 2 }, true),
        ("web_tax_percentage"@, ColumnType::Decimal128 { precision: 5, scale: 2 }, true),
    ]
}

/// The schema of the `web_site` table.
pub fn web_site_schema() -> (schema: Vec<ColumnSpec>)
    ensures
        spec_schema_view(schema@) == spec_web_site_schema(),
{
    let mut schema: Vec<ColumnSpec> = Vec::new();
    schema.push(column("web_site_sk", ColumnType::Int32, false));
    schema.push(column("web_site_id", ColumnType::Utf8View, false));
    schema.push(column("web_rec_start_date", ColumnType::Date32, true));
    schema.push(column("web_rec_end_date", ColumnType::Date32, true));
    schema.push(column("web_name", ColumnType::Utf8View, true));
    schema.push(column("web_open_date_sk", ColumnType::Int32, true));
    schema.push(column("web_close_date_sk", ColumnType::Int32, true));
    schema.push(column("web_class", ColumnType::Utf8View, true));
    schema.push(column("web_manager", ColumnType::Utf8View, true));
    schema.push(column("web_mkt_id", ColumnType::Int32, true));
    schema.push(column("web_mkt_class", ColumnType::Utf8View, true));
    schema.push(column("web_mkt_desc", ColumnType::Utf8View, true));
    schema.push(column("web_market_manager", ColumnType::Utf8View, true));
    schema.push(column("web_company_id", ColumnType::Int32, true));
    schema.push(column("web_company_name", ColumnType::Utf8View, true));
    schema.push(column("web_street_number", ColumnType::Utf8View, true));
    schema.push(column("web_street_name", ColumnType::Utf8View, true));
    schema.push(column("web_street_type", ColumnType::Utf8View, true));
    schema.push(column("web_suite_number", ColumnType::Utf8View, true));
    schema.push(column("web_city", ColumnType::Utf8View, true));
    schema.push(column("web_county", ColumnType::Utf8View, true));
    schema.push(column("web_state", ColumnType::Utf8View, true));
    schema.push(column("web_zip", ColumnType::Utf8View, true));
    schema.push(column("web_country", ColumnType::Utf8View, true));
    schema.push(column("web_gmt_offset", ColumnType::Decimal128 { precision: 5, scale: 2 }, true));
    schema.push(column("web_tax_percentage", ColumnType::Decimal128 { precision: 5, scale: 2 }, true));
    assert(spec_schema_view(schema@) =~= spec_web_site_schema());
    schema
}

/// The cells of a `web_site` row, in schema order.
pub open spec fn spec_web_site_row(r: WebSiteRecord) -> Seq<CellValue> {
    let nbm = r.null_bit_map;
    seq![
        CellValue::Int32(spec_integer_sk_opt(nbm, 0, r.site_sk)),
        CellValue::Utf8(spec_opt(nbm, 1, r.site_id@)),
        CellValue::Date32(spec_julian_to_date32(r.rec_start_date_id)),
        CellValue::Date32(spec_julian_to_date32(r.rec_end_date_id)),
        CellValue::Utf8(spec_opt(nbm, 4, r.name@)),
        CellValue::Int32(spec_integer_sk_opt(nbm, 5, r.open_date)),
        CellValue::Int32(spec_integer_sk_opt(nbm, 6, r.close_date)),
        CellValue::Utf8(spec_opt(nbm, 7, r.class@)),
        CellValue::Utf8(spec_opt(nbm, 8, r.manager@)),
        CellValue::Int32(spec_opt(nbm, 9, r.market_id)),
        CellValue::Utf8(spec_opt(nbm, 10, r.market_class@)),
        CellValue::Utf8(spec_opt(nbm, 11, r.market_desc@)),
        CellValue::Utf8(spec_opt(nbm, 12, r.market_manager@)),
        CellValue::Int32(spec_opt(nbm, 13, r.company_id)),
        CellValue::Utf8(spec_opt(nbm, 14, r.company_name@)),
    ] + spec_address_cells(r.address, nbm, 15) + seq![
        CellValue::Decimal128(spec_opt(nbm, 25, r.tax_percentage as i128)),
    ]
}

/// The cells of the generated `web_site` row `row`, in schema order.
pub open spec fn spec_web_site_row_of(row: WebSiteRow) -> Seq<CellValue> {
    let nbm = spec_web_site_null_bit_map(row);
    seq![
        CellValue::Int32(spec_integer_sk_opt(nbm, 0, spec_web_site_site_sk(row))),
        CellValue::Utf8(spec_opt(nbm, 1, spec_web_site_site_id(row))),
        CellValue::Date32(spec_julian_to_date32(spec_web_site_rec_start_date_id(row))),
        CellValue::Date32(spec_julian_to_date32(spec_web_site_rec_end_date_id(row))),
        CellValue::Utf8(spec_opt(nbm, 4, spec_web_site_name(row))),
        CellValue::Int32(spec_integer_sk_opt(nbm, 5, spec_web_site_open_date(row))),
        CellValue::Int32(spec_integer_sk_opt(nbm, 6, spec_web_site_close_date(row))),
        CellValue::Utf8(spec_opt(nbm, 7, spec_web_site_class(row))),
        CellValue::Utf8(spec_opt(nbm, 8, spec_web_site_manager(row))),
        CellValue::Int32(spec_opt(nbm, 9, spec_web_site_market_id(row))),
        CellValue::Utf8(spec_opt(nbm, 10, spec_web_site_market_class(row))),
        CellValue::Utf8(spec_opt(nbm, 11, spec_web_site_market_desc(row))),
        CellValue::Utf8(spec_opt(nbm, 12, spec_web_site_market_manager(row))),
        CellValue::Int32(spec_opt(nbm, 13, spec_web_site_company_id(row))),
        CellValue::Utf8(spec_opt(nbm, 14, spec_web_site_company_name(row))),
    ] + spec_address_cells_of(spec_web_site_address(row), nbm, 15) + seq![
        CellValue::Decimal128(spec_opt(nbm, 25, spec_decimal_number(spec_web_site_tax_percentage(row)) as i128)),
    ]
}

/// The cells of the generated rows `rows`, one row each.
pub open spec fn spec_web_site_rows_of(rows: Seq<WebSiteRow>) -> Seq<Seq<CellValue>> {{
    rows.map_values(|row: WebSiteRow| spec_web_site_row_of(row))
}}

/// Records that hold the values of generated rows have the cells of those
/// rows.
pub proof fn lemma_web_site_matching_records_cells(records: Seq<WebSiteRecord>, rows: Seq<WebSiteRow>)
    requires
        spec_web_site_records_match(records, rows),
    ensures
        spec_web_site_rows(records) == spec_web_site_rows_of(rows),
{{
    assert forall|i: int| 0 <= i < records.len() implies spec_web_site_row(records[i])
        =~= spec_web_site_row_of(rows[i]) by {{
        assert(spec_web_site_record_matches(records[i], rows[i]));
    }}
    assert(spec_web_site_rows(records) =~= spec_web_site_rows_of(rows));
}}

/// Each column of a generated `web_site` row holds what the generator's accessor for that
/// column gives: column `j` is the one the schema names, filled from the row's own value for it
/// (null where the row's null bit map marks it), through the conversion its type calls for.
pub proof fn law_web_site_columns_hold_their_values(row: WebSiteRow)
    ensures
        spec_web_site_row_of(row).len() == 26,
        spec_web_site_schema()[0].0 == "web_site_sk"@ && spec_web_site_row_of(row)[0] == CellValue::Int32(spec_integer_sk_opt(spec_web_site_null_bit_map(row), 0u32, spec_web_site_site_sk(row))),
        spec_web_site_schema()[1].0 == "web_site_id"@ && spec_web_site_row_of(row)[1] == CellValue::Utf8(spec_opt(spec_web_site_null_bit_map(row), 1u32, spec_web_site_site_id(row))),
        spec_web_site_schema()[2].0 == "web_rec_start_date"@ && spec_web_site_row_of(row)[2] == CellValue::Date32(spec_julian_to_date32(spec_web_site_rec_start_date_id(row))),
        spec_web_site_schema()[3].0 == "web_rec_end_date"@ && spec_web_site_row_of(row)[3] == CellValue::Date32(spec_julian_to_date32(spec_web_site_rec_end_date_id(row))),
        spec_web_site_schema()[4].0 == "web_name"@ && spec_web_site_row_of(row)[4] == CellValue::Utf8(spec_opt(spec_web_site_null_bit_map(row), 4u32, spec_web_site_name(row))),
        spec_web_site_schema()[5].0 == "web_open_date_sk"@ && spec_web_site_row_of(row)[5] == CellValue::Int32(spec_integer_sk_opt(spec_web_site_null_bit_map(row), 5u32, spec_web_site_open_date(row))),
        spec_web_site_schema()[6].0 == "web_close_date_sk"@ && spec_web_site_row_of(row)[6] == CellValue::Int32(spec_integer_sk_opt(spec_web_site_null_bit_map(row), 6u32, spec_web_site_close_date(row))),
        spec_web_site_schema()[7].0 == "web_class"@ && spec_web_site_row_of(row)[7] == CellValue::Utf8(spec_opt(spec_web_site_null_bit_map(row), 7u32, spec_web_site_class(row))),
        spec_web_site_schema()[8].0 == "web_manager"@ && spec_web_site_row_of(row)[8] == CellValue::Utf8(spec_opt(spec_web_site_null_bit_map(row), 8u32, spec_web_site_manager(row))),
        spec_web_site_schema()[9].0 == "web_mkt_id"@ && spec_web_site_row_of(row)[9] == CellValue::Int32(spec_opt(spec_web_site_null_bit_map(row), 9u32, spec_web_site_market_id(row))),
        spec_web_site_schema()[10].0 == "web_mkt_class"@ && spec_web_site_row_of(row)[10] == CellValue::Utf8(spec_opt(spec_web_site_null_bit_map(row), 10u32, spec_web_site_market_class(row))),
        spec_web_site_schema()[11].0 == "web_mkt_desc"@ && spec_web_site_row_of(row)[11] == CellValue::Utf8(spec_opt(spec_web_site_null_bit_map(row), 11u32, spec_web_site_market_desc(row))),
        spec_web_site_schema()[12].0 == "web_market_manager"@ && spec_web_site_row_of(row)[12] == CellValue::Utf8(spec_opt(spec_web_site_null_bit_map(row), 12u32, spec_web_site_market_manager(row))),
        spec_web_site_schema()[13].0 == "web_company_id"@ && spec_web_site_row_of(row)[13] == CellValue::Int32(spec_opt(spec_web_site_null_bit_map(row), 13u32, spec_web_site_company_id(row))),
        spec_web_site_schema()[14].0 == "web_company_name"@ && spec_web_site_row_of(row)[14] == CellValue::Utf8(spec_opt(spec_web_site_null_bit_map(row), 14u32, spec_web_site_company_name(row))),
        spec_web_site_schema()[15].0 == "web_street_number"@ && spec_web_site_row_of(row)[15] == CellValue::Utf8(spec_opt(spec_web_site_null_bit_map(row), 15u32, crate::conversions::spec_i32_string(crate::address::spec_address_street_number(spec_web_site_address(row))))),
        spec_web_site_schema()[16].0 == "web_street_name"@ && spec_web_site_row_of(row)[16] == CellValue::Utf8(spec_opt(spec_web_site_null_bit_map(row), 16u32, crate::address::spec_address_street_name(spec_web_site_address(row)))),
        spec_web_site_schema()[17].0 == "web_street_type"@ && spec_web_site_row_of(row)[17] == CellValue::Utf8(spec_opt(spec_web_site_null_bit_map(row), 17u32, crate::address::spec_address_street_type(spec_web_site_address(row)))),
        spec_web_site_schema()[18].0 == "web_suite_number"@ && spec_web_site_row_of(row)[18] == CellValue::Utf8(spec_opt(spec_web_site_null_bit_map(row), 18u32, crate::address::spec_address_suite_number(spec_web_site_address(row)))),
        spec_web_site_schema()[19].0 == "web_city"@ && spec_web_site_row_of(row)[19] == CellValue::Utf8(spec_opt(spec_web_site_null_bit_map(row), 19u32, crate::address::spec_address_city(spec_web_site_address(row)))),
        spec_web_site_schema()[20].0 == "web_county"@ && spec_web_site_row_of(row)[20] == CellValue::Utf8(spec_opt(spec_web_site_null_bit_map(row), 20u32, match crate::address::spec_address_county(spec_web_site_address(row)) { Some(c) => c, None => Seq::empty() })),
        spec_web_site_schema()[21].0 == "web_state"@ && spec_web_site_row_of(row)[21] == CellValue::Utf8(spec_opt(spec_web_site_null_bit_map(row), 21u32, crate::address::spec_address_state(spec_web_site_address(row)))),
        spec_web_site_schema()[22].0 == "web_zip"@ && spec_web_site_row_of(row)[22] == CellValue::Utf8(spec_opt(spec_web_site_null_bit_map(row), 22u32, crate::conversions::spec_zip_string(crate::address::spec_address_zip(spec_web_site_address(row))))),
        spec_web_site_schema()[23].0 == "web_country"@ && spec_web_site_row_of(row)[23] == CellValue::Utf8(spec_opt(spec_web_site_null_bit_map(row), 23u32, crate::address::spec_address_country(spec_web_site_address(row)))),
        spec_web_site_schema()[24].0 == "web_gmt_offset"@ && spec_web_site_row_of(row)[24] == CellValue::Decimal128(spec_opt(spec_web_site_null_bit_map(row), 24u32, (crate::address::spec_address_gmt_offset(spec_web_site_address(row)) * 100) as i128)),
        spec_web_site_schema()[25].0 == "web_tax_percentage"@ && spec_web_site_row_of(row)[25] == CellValue::Decimal128(spec_opt(spec_web_site_null_bit_map(row), 25u32, (crate::pricing::spec_decimal_number(spec_web_site_tax_percentage(row))) as i128)),
{
}

/// Each column of a `web_site` record's row holds the record's value for the column the schema
/// names, null where the record's null bit map marks it.
pub proof fn law_web_site_record_columns_hold_their_values(r: WebSiteRecord)
    ensures
        spec_web_site_row(r).len() == 26,
        spec_web_site_schema()[0].0 == "web_site_sk"@ && spec_web_site_row(r)[0] == CellValue::Int32(spec_integer_sk_opt(r.null_bit_map, 0u32, r.site_sk)),
        spec_web_site_schema()[1].0 == "web_site_id"@ && spec_web_site_row(r)[1] == CellValue::Utf8(spec_opt(r.null_bit_map, 1u32, r.site_id@)),
        spec_web_site_schema()[2].0 == "web_rec_start_date"@ && spec_web_site_row(r)[2] == CellValue::Date32(spec_julian_to_date32(r.rec_start_date_id)),
        spec_web_site_schema()[3].0 == "web_rec_end_date"@ && spec_web_site_row(r)[3] == CellValue::Date32(spec_julian_to_date32(r.rec_end_date_id)),
        spec_web_site_schema()[4].0 == "web_name"@ && spec_web_site_row(r)[4] == CellValue::Utf8(spec_opt(r.null_bit_map, 4u32, r.name@)),
        spec_web_site_schema()[5].0 == "web_open_date_sk"@ && spec_web_site_row(r)[5] == CellValue::Int32(spec_integer_sk_opt(r.null_bit_map, 5u32, r.open_date)),
        spec_web_site_schema()[6].0 == "web_close_date_sk"@ && spec_web_site_row(r)[6] == CellValue::Int32(spec_integer_sk_opt(r.null_bit_map, 6u32, r.close_date)),
        spec_web_site_schema()[7].0 == "web_class"@ && spec_web_site_row(r)[7] == CellValue::Utf8(spec_opt(r.null_bit_map, 7u32, r.class@)),
        spec_web_site_schema()[8].0 == "web_manager"@ && spec_web_site_row(r)[8] == CellValue::Utf8(spec_opt(r.null_bit_map, 8u32, r.manager@)),
        spec_web_site_schema()[9].0 == "web_mkt_id"@ && spec_web_site_row(r)[9] == CellValue::Int32(spec_opt(r.null_bit_map, 9u32, r.market_id)),
        spec_web_site_schema()[10].0 == "web_mkt_class"@ && spec_web_site_row(r)[10] == CellValue::Utf8(spec_opt(r.null_bit_map, 10u32, r.market_class@)),
        spec_web_site_schema()[11].0 == "web_mkt_desc"@ && spec_web_site_row(r)[11] == CellValue::Utf8(spec_opt(r.null_bit_map, 11u32, r.market_desc@)),
        spec_web_site_schema()[12].0 == "web_market_manager"@ && spec_web_site_row(r)[12] == CellValue::Utf8(spec_opt(r.null_bit_map, 12u32, r.market_manager@)),
        spec_web_site_schema()[13].0 == "web_company_id"@ && spec_web_site_row(r)[13] == CellValue::Int32(spec_opt(r.null_bit_map, 13u32, r.company_id)),
        spec_web_site_schema()[14].0 == "web_company_name"@ && spec_web_site_row(r)[14] == CellValue::Utf8(spec_opt(r.null_bit_map, 14u32, r.company_name@)),
        spec_web_site_schema()[15].0 == "web_street_number"@ && spec_web_site_row(r)[15] == CellValue::Utf8(spec_opt(r.null_bit_map, 15u32, crate::conversions::spec_i32_string(r.address.street_number))),
        spec_web_site_schema()[16].0 == "web_street_name"@ && spec_web_site_row(r)[16] == CellValue::Utf8(spec_opt(r.null_bit_map, 16u32, r.address.street_name@)),
        spec_web_site_schema()[17].0 == "web_street_type"@ && spec_web_site_row(r)[17] == CellValue::Utf8(spec_opt(r.null_bit_map, 17u32, r.address.street_type@)),
        spec_web_site_schema()[18].0 == "web_suite_number"@ && spec_web_site_row(r)[18] == CellValue::Utf8(spec_opt(r.null_bit_map, 18u32, r.address.suite_number@)),
        spec_web_site_schema()[19].0 == "web_city"@ && spec_web_site_row(r)[19] == CellValue::Utf8(spec_opt(r.null_bit_map, 19u32, r.address.city@)),
        spec_web_site_schema()[20].0 == "web_county"@ && spec_web_site_row(r)[20] == CellValue::Utf8(spec_opt(r.null_bit_map, 20u32, crate::address::spec_county(r.address))),
        spec_web_site_schema()[21].0 == "web_state"@ && spec_web_site_row(r)[21] == CellValue::Utf8(spec_opt(r.null_bit_map, 21u32, r.address.state@)),
        spec_web_site_schema()[22].0 == "web_zip"@ && spec_web_site_row(r)[22] == CellValue::Utf8(spec_opt(r.null_bit_map, 22u32, crate::conversions::spec_zip_string(r.address.zip))),
        spec_web_site_schema()[23].0 == "web_country"@ && spec_web_site_row(r)[23] == CellValue::Utf8(spec_opt(r.null_bit_map, 23u32, r.address.country@)),
        spec_web_site_schema()[24].0 == "web_gmt_offset"@ && spec_web_site_row(r)[24] == CellValue::Decimal128(spec_opt(r.null_bit_map, 24u32, (r.address.gmt_offset * 100) as i128)),
        spec_web_site_schema()[25].0 == "web_tax_percentage"@ && spec_web_site_row(r)[25] == CellValue::Decimal128(spec_opt(r.null_bit_map, 25u32, (r.tax_percentage) as i128)),
{
}

/// The rows of a batch of generated `web_site` rows come one per generated row, in the same
/// order.
pub proof fn law_web_site_rows_in_order(rows: Seq<WebSiteRow>)
    ensures
        spec_web_site_rows_of(rows).len() == rows.len(),
        forall|i: int| 0 <= i < rows.len() ==> #[trigger] spec_web_site_rows_of(rows)[i] == spec_web_site_row_of(rows[i]),
{
}

/// The rows of a batch of `web_site` records come one per record, in the same order.
pub proof fn law_web_site_record_rows_in_order(records: Seq<WebSiteRecord>)
    ensures
        spec_web_site_rows(records).len() == records.len(),
        forall|i: int| 0 <= i < records.len() ==> #[trigger] spec_web_site_rows(records)[i] == spec_web_site_row(records[i]),
{
}

/// The cells of a `web_site` row, in schema order.
pub fn web_site_row(r: &WebSiteRecord) -> (row: Vec<Cell>)
    ensures
        spec_row_view(row@) == spec_web_site_row(*r),
{
    let nbm = r.null_bit_map;
    let mut row: Vec<Cell> = Vec::new();
    row.push(Cell::Int32(integer_sk_opt(nbm, 0, r.site_sk)));
    row.push(Cell::Utf8(opt(nbm, 1, r.site_id.clone())));
    row.push(Cell::Date32(julian_to_date32(r.rec_start_date_id)));
    row.push(Cell::Date32(julian_to_date32(r.rec_end_date_id)));
    row.push(Cell::Utf8(opt(nbm, 4, r.name.clone())));
    row.push(Cell::Int32(integer_sk_opt(nbm, 5, r.open_date)));
    row.push(Cell::Int32(integer_sk_opt(nbm, 6, r.close_date)));
    row.push(Cell::Utf8(opt(nbm, 7, r.class.clone())));
    row.push(Cell::Utf8(opt(nbm, 8, r.manager.clone())));
    row.push(Cell::Int32(opt(nbm, 9, r.market_id)));
    row.push(Cell::Utf8(opt(nbm, 10, r.market_class.clone())));
    row.push(Cell::Utf8(opt(nbm, 11, r.market_desc.clone())));
    row.push(Cell::Utf8(opt(nbm, 12, r.market_manager.clone())));
    row.push(Cell::Int32(opt(nbm, 13, r.company_id)));
    row.push(Cell::Utf8(opt(nbm, 14, r.company_name.clone())));
    assert(spec_row_view(row@) =~= seq![
        CellValue::Int32(spec_integer_sk_opt(nbm, 0, r.site_sk)),
        CellValue::Utf8(spec_opt(nbm, 1, r.site_id@)),
        CellValue::Date32(spec_julian_to_date32(r.rec_start_date_id)),
        CellValue::Date32(spec_julian_to_date32(r.rec_end_date_id)),
        CellValue::Utf8(spec_opt(nbm, 4, r.name@)),
        CellValue::Int32(spec_integer_sk_opt(nbm, 5, r.open_date)),
        CellValue::Int32(spec_integer_sk_opt(nbm, 6, r.close_date)),
        CellValue::Utf8(spec_opt(nbm, 7, r.class@)),
        CellValue::Utf8(spec_opt(nbm, 8, r.manager@)),
        CellValue::Int32(spec_opt(nbm, 9, r.market_id)),
        CellValue::Utf8(spec_opt(nbm, 10, r.market_class@)),
        CellValue::Utf8(spec_opt(nbm, 11, r.market_desc@)),
        CellValue::Utf8(spec_opt(nbm, 12, r.market_manager@)),
        CellValue::Int32(spec_opt(nbm, 13, r.company_id)),
        CellValue::Utf8(spec_opt(nbm, 14, r.company_name@)),
    ]);
    push_address_cells(&mut row, &r.address, nbm, 15);
    row.push(Cell::Decimal128(opt(nbm, 25, r.tax_percentage as i128)));
    assert(spec_row_view(row@) =~= spec_web_site_row(*r));
    row
}

/// The cells of `records`, one row each.
pub open spec fn spec_web_site_rows(records: Seq<WebSiteRecord>) -> Seq<Seq<CellValue>> {
    records.map_values(|r: WebSiteRecord| spec_web_site_row(r))
}

/// The columns of a record batch holding `records`: column `j` holds the
/// `j`-th cell of each record's row, in record order.
pub fn web_site_columns(records: &Vec<WebSiteRecord>) -> (columns: Vec<Vec<Cell>>)
    ensures
        spec_columns_view(columns@) == spec_columns(
            spec_web_site_rows(records@),
            WEB_SITE_COLUMNS as nat,
        ),
{
    let mut rows: Vec<Vec<Cell>> = Vec::new();
    let mut i: usize = 0;
    while i < records.len()
        invariant
            i <= records.len(),
            rows.len() == i,
            forall|k: int|
                0 <= k < i ==> spec_row_view((#[trigger] rows[k])@) == spec_web_site_row(records[k]),
            forall|k: int| 0 <= k < i ==> (#[trigger] rows[k]).len() == WEB_SITE_COLUMNS,
        decreases records.len() - i,
    {
        let row = web_site_row(&records[i]);
        proof {
            assert(spec_row_view(row@).len() == row@.len());
        }
        rows.push(row);
        i = i + 1;
    }
    let columns = rows_to_columns(&rows, WEB_SITE_COLUMNS);
    proof {
        let expected = spec_columns(spec_web_site_rows(records@), WEB_SITE_COLUMNS as nat);
        assert forall|j: int| 0 <= j < WEB_SITE_COLUMNS implies spec_row_view(columns@[j]@)
            =~= expected[j] by {
            assert forall|k: int| 0 <= k < records.len() implies (#[trigger] spec_row_view(
                columns@[j]@,
            )[k]) == expected[j][k] by {
                assert(spec_row_view(rows[k]@)[j] == rows[k][j]@);
            }
        }
        assert(spec_columns_view(columns@) =~= expected);
    }
    columns
}

/// A `web_site` row conforms to the table schema (one cell per column, each
/// of the column's type, no null in a required column) whenever its required
/// columns are not marked null and their keys are not negative.
pub proof fn law_web_site_row_conforms(r: WebSiteRecord)
    requires
        !spec_is_null(r.null_bit_map, 0),
        r.site_sk >= 0,
        !spec_is_null(r.null_bit_map, 1),
    ensures
        spec_row_conforms(spec_web_site_row(r), spec_web_site_schema()),
{
    let row = spec_web_site_row(r);
    assert(row.len() == 26);
}

/// The null bit map that `WebSiteRow::null_bit_map` returns for `row`.
pub uninterp spec fn spec_web_site_null_bit_map(row: WebSiteRow) -> i64;

/// Calls `WebSiteRow::null_bit_map`: a field of the row, named
/// `spec_web_site_null_bit_map`.
#[verifier::external_body]
fn web_site_null_bit_map(r: &WebSiteRow) -> (v: i64)
    ensures
        v == spec_web_site_null_bit_map(*r),
{
    r.null_bit_map()
}

/// The value that `WebSiteRow::get_web_site_sk` returns for `row`.
pub uninterp spec fn spec_web_site_site_sk(row: WebSiteRow) -> i64;

/// Calls `WebSiteRow::get_web_site_sk`: a field of the row, named `spec_web_site_site_sk`.
#[verifier::external_body]
fn web_site_site_sk(r: &WebSiteRow) -> (v: i64)
    ensures
        v == spec_web_site_site_sk(*r),
{
    r.get_web_site_sk()
}

/// The text that `WebSiteRow::get_web_site_id` returns for `row`.
pub uninterp spec fn spec_web_site_site_id(row: WebSiteRow) -> Seq<char>;

/// Calls `WebSiteRow::get_web_site_id`, copied into a `String`: a field of the row, named
/// `spec_web_site_site_id`.
#[verifier::external_body]
fn web_site_site_id(r: &WebSiteRow) -> (v: String)
    ensures
        v@ == spec_web_site_site_id(*r),
{
    r.get_web_site_id().to_owned()
}

/// The value that `WebSiteRow::get_web_rec_start_date_id` returns for `row`.
pub uninterp spec fn spec_web_site_rec_start_date_id(row: WebSiteRow) -> i64;

/// Calls `WebSiteRow::get_web_rec_start_date_id`: a field of the row, named
/// `spec_web_site_rec_start_date_id`.
#[verifier::external_body]
fn web_site_rec_start_date_id(r: &WebSiteRow) -> (v: i64)
    ensures
        v == spec_web_site_rec_start_date_id(*r),
{
    r.get_web_rec_start_date_id()
}

/// The value that `WebSiteRow::get_web_rec_end_date_id` returns for `row`.
pub uninterp spec fn spec_web_site_rec_end_date_id(row: WebSiteRow) -> i64;

/// Calls `WebSiteRow::get_web_rec_end_date_id`: a field of the row, named
/// `spec_web_site_rec_end_date_id`.
#[verifier::external_body]
fn web_site_rec_end_date_id(r: &WebSiteRow) -> (v: i64)
    ensures
        v == spec_web_site_rec_end_date_id(*r),
{
    r.get_web_rec_end_date_id()
}

/// The text that `WebSiteRow::web_name` returns for `row`.
pub uninterp spec fn spec_web_site_name(row: WebSiteRow) -> Seq<char>;

/// Calls `WebSiteRow::web_name`, copied into a `String`: a field of the row, named
/// `spec_web_site_name`.
#[verifier::external_body]
fn web_site_name(r: &WebSiteRow) -> (v: String)
    ensures
        v@ == spec_web_site_name(*r),
{
    r.web_name().to_owned()
}

/// The value that `WebSiteRow::web_open_date` returns for `row`.
pub uninterp spec fn spec_web_site_open_date(row: WebSiteRow) -> i64;

/// Calls `WebSiteRow::web_open_date`: a field of the row, named `spec_web_site_open_date`.
#[verifier::external_body]
fn web_site_open_date(r: &WebSiteRow) -> (v: i64)
    ensures
        v == spec_web_site_open_date(*r),
{
    r.web_open_date()
}

/// The value that `WebSiteRow::web_close_date` returns for `row`.
pub uninterp spec fn spec_web_site_close_date(row: WebSiteRow) -> i64;

/// Calls `WebSiteRow::web_close_date`: a field of the row, named `spec_web_site_close_date`.
#[verifier::external_body]
fn web_site_close_date(r: &WebSiteRow) -> (v: i64)
    ensures
        v == spec_web_site_close_date(*r),
{
    r.web_close_date()
}

/// The text that `WebSiteRow::web_class` returns for `row`.
pub uninterp spec fn spec_web_site_class(row: WebSiteRow) -> Seq<char>;

/// Calls `WebSiteRow::web_class`, copied into a `String`: a field of the row, named
/// `spec_web_site_class`.
#[verifier::external_body]
fn web_site_class(r: &WebSiteRow) -> (v: String)
    ensures
        v@ == spec_web_site_class(*r),
{
    r.web_class().to_owned()
}

/// The text that `WebSiteRow::web_manager` returns for `row`.
pub uninterp spec fn spec_web_site_manager(row: WebSiteRow) -> Seq<char>;

/// Calls `WebSiteRow::web_manager`, copied into a `String`: a field of the row, named
/// `spec_web_site_manager`.
#[verifier::external_body]
fn web_site_manager(r: &WebSiteRow) -> (v: String)
    ensures
        v@ == spec_web_site_manager(*r),
{
    r.web_manager().to_owned()
}

/// The value that `WebSiteRow::web_market_id` returns for `row`.
pub uninterp spec fn spec_web_site_market_id(row: WebSiteRow) -> i32;

/// Calls `WebSiteRow::web_market_id`: a field of the row, named `spec_web_site_market_id`.
#[verifier::external_body]
fn web_site_market_id(r: &WebSiteRow) -> (v: i32)
    ensures
        v == spec_web_site_market_id(*r),
{
    r.web_market_id()
}

/// The text that `WebSiteRow::web_market_class` returns for `row`.
pub uninterp spec fn spec_web_site_market_class(row: WebSiteRow) -> Seq<char>;

/// Calls `WebSiteRow::web_market_class`, copied into a `String`: a field of the row, named
/// `spec_web_site_market_class`.
#[verifier::external_body]
fn web_site_market_class(r: &WebSiteRow) -> (v: String)
    ensures
        v@ == spec_web_site_market_class(*r),
{
    r.web_market_class().to_owned()
}

/// The text that `WebSiteRow::web_market_desc` returns for `row`.
pub uninterp spec fn spec_web_site_market_desc(row: WebSiteRow) -> Seq<char>;

/// Calls `WebSiteRow::web_market_desc`, copied into a `String`: a field of the row, named
/// `spec_web_site_market_desc`.
#[verifier::external_body]
fn web_site_market_desc(r: &WebSiteRow) -> (v: String)
    ensures
        v@ == spec_web_site_market_desc(*r),
{
    r.web_market_desc().to_owned()
}

/// The text that `WebSiteRow::web_market_manager` returns for `row`.
pub uninterp spec fn spec_web_site_market_manager(row: WebSiteRow) -> Seq<char>;

/// Calls `WebSiteRow::web_market_manager`, copied into a `String`: a field of the row, named
/// `spec_web_site_market_manager`.
#[verifier::external_body]
fn web_site_market_manager(r: &WebSiteRow) -> (v: String)
    ensures
        v@ == spec_web_site_market_manager(*r),
{
    r.web_market_manager().to_owned()
}

/// The value that `WebSiteRow::web_company_id` returns for `row`.
pub uninterp spec fn spec_web_site_company_id(row: WebSiteRow) -> i32;

/// Calls `WebSiteRow::web_company_id`: a field of the row, named `spec_web_site_company_id`.
#[verifier::external_body]
fn web_site_company_id(r: &WebSiteRow) -> (v: i32)
    ensures
        v == spec_web_site_company_id(*r),
{
    r.web_company_id()
}

/// The text that `WebSiteRow::web_company_name` returns for `row`.
pub uninterp spec fn spec_web_site_company_name(row: WebSiteRow) -> Seq<char>;

/// Calls `WebSiteRow::web_company_name`, copied into a `String`: a field of the row, named
/// `spec_web_site_company_name`.
#[verifier::external_body]
fn web_site_company_name(r: &WebSiteRow) -> (v: String)
    ensures
        v@ == spec_web_site_company_name(*r),
{
    r.web_company_name().to_owned()
}

/// The address that `WebSiteRow::web_address` returns for `row`.
pub uninterp spec fn spec_web_site_address(row: WebSiteRow) -> Address;

/// Calls `WebSiteRow::web_address`: a field of the row, named `spec_web_site_address`.
#[verifier::external_body]
fn web_site_address(r: &WebSiteRow) -> (v: &Address)
    ensures
        *v == spec_web_site_address(*r),
{
    r.web_address()
}

/// The decimal that `WebSiteRow::web_tax_percentage` returns for `row`.
pub uninterp spec fn spec_web_site_tax_percentage(row: WebSiteRow) -> Decimal;

/// Calls `WebSiteRow::web_tax_percentage`: a field of the row, named
/// `spec_web_site_tax_percentage`.
#[verifier::external_body]
fn web_site_tax_percentage(r: &WebSiteRow) -> (v: Decimal)
    ensures
        v == spec_web_site_tax_percentage(*r),
{
    *r.web_tax_percentage()
}

/// Whether `r` holds the values of the generated row `row`, field by field
/// (each decimal as its unscaled digits).
pub open spec fn spec_web_site_record_matches(r: WebSiteRecord, row: WebSiteRow) -> bool {
    &&& r.null_bit_map == spec_web_site_null_bit_map(row)
    &&& r.site_sk == spec_web_site_site_sk(row)
    &&& r.site_id@ == spec_web_site_site_id(row)
    &&& r.rec_start_date_id == spec_web_site_rec_start_date_id(row)
    &&& r.rec_end_date_id == spec_web_site_rec_end_date_id(row)
    &&& r.name@ == spec_web_site_name(row)
    &&& r.open_date == spec_web_site_open_date(row)
    &&& r.close_date == spec_web_site_close_date(row)
    &&& r.class@ == spec_web_site_class(row)
    &&& r.manager@ == spec_web_site_manager(row)
    &&& r.market_id == spec_web_site_market_id(row)
    &&& r.market_class@ == spec_web_site_market_class(row)
    &&& r.market_desc@ == spec_web_site_market_desc(row)
    &&& r.market_manager@ == spec_web_site_market_manager(row)
    &&& r.company_id == spec_web_site_company_id(row)
    &&& r.company_name@ == spec_web_site_company_name(row)
    &&& spec_address_matches(r.address, spec_web_site_address(row))
    &&& r.tax_percentage == spec_decimal_number(spec_web_site_tax_percentage(row))
}

/// Whether `records` hold the values of `rows`, one record per row, in order.
pub open spec fn spec_web_site_records_match(records: Seq<WebSiteRecord>, rows: Seq<WebSiteRow>) -> bool {
    &&& records.len() == rows.len()
    &&& forall|i: int|
        0 <= i < records.len() ==> #[trigger] spec_web_site_record_matches(records[i], rows[i])
}

/// Read the values of a generated `web_site` row.
pub fn web_site_record(row: &WebSiteRow) -> (r: WebSiteRecord)
    ensures
        spec_web_site_record_matches(r, *row),
{
    WebSiteRecord {
        null_bit_map: web_site_null_bit_map(row),
        site_sk: web_site_site_sk(row),
        site_id: web_site_site_id(row),
        rec_start_date_id: web_site_rec_start_date_id(row),
        rec_end_date_id: web_site_rec_end_date_id(row),
        name: web_site_name(row),
        open_date: web_site_open_date(row),
        close_date: web_site_close_date(row),
        class: web_site_class(row),
        manager: web_site_manager(row),
        market_id: web_site_market_id(row),
        market_class: web_site_market_class(row),
        market_desc: web_site_market_desc(row),
        market_manager: web_site_market_manager(row),
        company_id: web_site_company_id(row),
        company_name: web_site_company_name(row),
        address: address_record(web_site_address(row)),
        tax_percentage: decimal_number(&web_site_tax_percentage(row)),
    }
}

/// The rows that a `WebSiteRowGenerator` of `session` yields for source row `row_number`: the
/// one `web_site` row of that source row. The generator fast-forwards its random number streams
/// to a source row, so what a source row yields depends on the session and the row number
/// alone.
pub uninterp spec fn spec_web_site_source_row(session: Session, row_number: nat) -> Seq<WebSiteRow>;

/// The rows that `generator` has still to yield, in order.
pub uninterp spec fn spec_web_site_pending(generator: WebSiteRowGenerator) -> Seq<WebSiteRow>;

/// The session that `generator` holds.
pub uninterp spec fn spec_web_site_session(generator: WebSiteRowGenerator) -> Session;

/// The last source row that `generator` generates (its row count, after any clamping by a
/// range).
pub uninterp spec fn spec_web_site_end(generator: WebSiteRowGenerator) -> u64;

/// The rows that a generator of `session` yields for source rows `start..=end`: those of each
/// source row, in row order.
pub open spec fn spec_web_site_source_rows(session: Session, start: int, end: int) -> Seq<WebSiteRow>
    decreases end + 1 - start,
{
    if end < start {
        Seq::empty()
    } else {
        spec_web_site_source_rows(session, start, end - 1) + spec_web_site_source_row(session, end as nat)
    }
}

/// The row count of `WebSite` at the scaling of `session`: the source rows of a reader of the
/// table.
pub open spec fn spec_web_site_table_rows(session: Session) -> u64 {
    spec_scaling_row_count(spec_session_scaling(session), spec_values_index(Table::WebSite))
}

/// Calls `WebSiteRowGenerator::new`: a generator of the source rows `1..=row_count` of
/// `session`, about to start source row 1. Each source row yields one row.
#[verifier::external_body]
fn web_site_generator(session: Session, row_count: u64) -> (generator: WebSiteRowGenerator)
    ensures
        spec_web_site_session(generator) == session,
        spec_web_site_end(generator) == row_count,
        spec_web_site_pending(generator) == spec_web_site_source_rows(session, 1, row_count as int)
            && forall|n: nat| 1 <= n <= row_count ==> #[trigger] spec_web_site_source_row(session, n).len() == 1,
{
    WebSiteRowGenerator::new(session, row_count)
}

/// Calls `WebSiteRowGenerator::skip_rows_until_starting_row_number`: the generator goes on at
/// source row `starting_row_number` and still ends at its last source row. The rows to come are
/// stated from any state (the generator drops its previous row and replays the history of a
/// slowly changing row from that row's first version). The starting row is at least 1 (row 0
/// has no key) and at most [`MAX_STARTING_ROW_NUMBER`] (the fast-forward multiplies it by the
/// seeds per row in a `u64`).
#[verifier::external_body]
fn web_site_skip(generator: &mut WebSiteRowGenerator, starting_row_number: u64)
    requires
        1 <= starting_row_number <= MAX_STARTING_ROW_NUMBER,
    ensures
        spec_web_site_session(*final(generator)) == spec_web_site_session(*old(generator)),
        spec_web_site_end(*final(generator)) == spec_web_site_end(*old(generator)),
        spec_web_site_pending(*final(generator)) == spec_web_site_source_rows(
            spec_web_site_session(*old(generator)),
            starting_row_number as int,
            spec_web_site_end(*final(generator)) as int,
        ),
{
    generator.skip_rows_until_starting_row_number(starting_row_number)
}

/// Calls `WebSiteRowGenerator::set_source_row_range`: the generator goes on at source row
/// `starting_row_number` and ends at `ending_row_number`, clamped to its last source row. The
/// rows to come, and the bounds on the starting row, are as for `web_site_skip`.
#[verifier::external_body]
fn web_site_set_range(generator: &mut WebSiteRowGenerator, starting_row_number: u64, ending_row_number: u64)
    requires
        1 <= starting_row_number <= MAX_STARTING_ROW_NUMBER,
    ensures
        spec_web_site_session(*final(generator)) == spec_web_site_session(*old(generator)),
        spec_web_site_end(*final(generator)) == if ending_row_number < spec_web_site_end(*old(generator)) {
            ending_row_number
        } else {
            spec_web_site_end(*old(generator))
        },
        spec_web_site_pending(*final(generator)) == spec_web_site_source_rows(
            spec_web_site_session(*old(generator)),
            starting_row_number as int,
            spec_web_site_end(*final(generator)) as int,
        ),
{
    generator.set_source_row_range(starting_row_number, ending_row_number)
}

/// Calls `Iterator::next` of `WebSiteRowGenerator`: the first of the rows still to come, which
/// it then no longer holds, or `None` when none is left. Its session and last source row stay.
#[verifier::external_body]
fn web_site_next(generator: &mut WebSiteRowGenerator) -> (row: Option<WebSiteRow>)
    ensures
        spec_web_site_session(*final(generator)) == spec_web_site_session(*old(generator)),
        spec_web_site_end(*final(generator)) == spec_web_site_end(*old(generator)),
        spec_web_site_pending(*old(generator)).len() == 0 ==> row is None && spec_web_site_pending(
            *final(generator),
        ) == spec_web_site_pending(*old(generator)),
        spec_web_site_pending(*old(generator)).len() > 0 ==> row == Some(
            spec_web_site_pending(*old(generator))[0],
        ) && spec_web_site_pending(*final(generator)) == spec_web_site_pending(
            *old(generator),
        ).drop_first(),
{
    generator.next()
}

/// Generating source rows `start..=mid` and then `mid + 1..=end` yields the rows of generating
/// `start..=end`: none is lost or repeated at the boundary.
pub proof fn law_web_site_source_rows_concatenate(session: Session, start: int, mid: int, end: int)
    requires
        start <= mid + 1,
        mid <= end,
    ensures
        spec_web_site_source_rows(session, start, end) == spec_web_site_source_rows(session, start, mid)
            + spec_web_site_source_rows(session, mid + 1, end),
    decreases end - mid,
{
    if end == mid {
        assert(spec_web_site_source_rows(session, mid + 1, end) =~= Seq::empty());
        assert(spec_web_site_source_rows(session, start, mid) + Seq::empty()
            =~= spec_web_site_source_rows(session, start, mid));
    } else {
        law_web_site_source_rows_concatenate(session, start, mid, end - 1);
        assert(spec_web_site_source_rows(session, start, end) =~= spec_web_site_source_rows(
            session,
            start,
            mid,
        ) + spec_web_site_source_rows(session, mid + 1, end));
    }
}

/// The rows of generating each of `ranges` in turn, in order.
pub open spec fn spec_web_site_ranges_rows(session: Session, ranges: Seq<RowRange>) -> Seq<WebSiteRow>
    decreases ranges.len(),
{
    if ranges.len() == 0 {
        Seq::empty()
    } else {
        spec_web_site_ranges_rows(session, ranges.drop_last()) + spec_web_site_source_rows(
            session,
            ranges.last().start as int,
            ranges.last().end as int,
        )
    }
}

/// Non-empty ranges that follow each other without gap generate, in turn, the rows of the span
/// from the first start to the last end.
proof fn lemma_web_site_chained_ranges(session: Session, ranges: Seq<RowRange>)
    requires
        ranges.len() > 0,
        forall|i: int| 0 <= i < ranges.len() ==> #[trigger] ranges[i].start <= ranges[i].end,
        forall|i: int| 0 <= i < ranges.len() - 1 ==> #[trigger] ranges[i + 1].start == ranges[i].end + 1,
    ensures
        ranges[0].start <= ranges.last().end,
        spec_web_site_ranges_rows(session, ranges) == spec_web_site_source_rows(
            session,
            ranges[0].start as int,
            ranges.last().end as int,
        ),
    decreases ranges.len(),
{
    let last = ranges.last();
    if ranges.len() == 1 {
        assert(ranges.drop_last().len() == 0);
        assert(spec_web_site_ranges_rows(session, ranges.drop_last()) =~= Seq::empty());
        assert(spec_web_site_ranges_rows(session, ranges) =~= spec_web_site_source_rows(
            session,
            last.start as int,
            last.end as int,
        ));
    } else {
        let front = ranges.drop_last();
        assert forall|i: int| 0 <= i < front.len() implies #[trigger] front[i].start <= front[i].end by {
            assert(front[i] == ranges[i]);
        }
        assert forall|i: int| 0 <= i < front.len() - 1 implies #[trigger] front[i + 1].start
            == front[i].end + 1 by {
            assert(front[i] == ranges[i]);
            assert(front[i + 1] == ranges[i + 1]);
        }
        lemma_web_site_chained_ranges(session, front);
        let k = ranges.len() - 2;
        assert(front.last() == ranges[k]);
        assert(front[0] == ranges[0]);
        assert(ranges[k + 1].start == ranges[k].end + 1);
        law_web_site_source_rows_concatenate(
            session,
            ranges[0].start as int,
            ranges[k].end as int,
            last.end as int,
        );
    }
}

/// Ranges that cover source rows `1..=rows` (as a plan's row groups do, see
/// `law_plan_covers_source_rows`) generate, one after the other, exactly the rows of all `rows`
/// source rows: readers ranged over them, concatenated, give the rows of the unranged reader.
pub proof fn law_web_site_covering_ranges_concatenate(session: Session, ranges: Seq<RowRange>, rows: nat)
    requires
        spec_covers(ranges, rows),
    ensures
        spec_web_site_ranges_rows(session, ranges) == spec_web_site_source_rows(session, 1, rows as int),
{
    lemma_web_site_chained_ranges(session, ranges);
}

/// Generation is deterministic: readers of equal sessions over the same source rows, at the
/// same batch size, hand out the same batches.
pub proof fn law_web_site_equal_sessions_equal_batches(
    first: Session,
    second: Session,
    start: int,
    end: int,
    batch_size: nat,
)
    requires
        first == second,
    ensures
        spec_batches(spec_web_site_source_rows(first, start, end), batch_size) == spec_batches(
            spec_web_site_source_rows(second, start, end),
            batch_size,
        ),
{
}

/// Skipping to source row `start` leaves the rows that a range `start..=ending_row_number`
/// leaves, for any ending row number at or past the last source row `end`.
pub proof fn law_web_site_skip_is_range_to_the_end(session: Session, start: int, end: u64, ending_row_number: u64)
    requires
        end <= ending_row_number,
    ensures
        spec_web_site_source_rows(session, start, end as int) == spec_web_site_source_rows(
            session,
            start,
            (if ending_row_number < end {
                ending_row_number
            } else {
                end
            }) as int,
        ),
{
}

/// Where each source row yields one row (as it does for the rows `1..=rows` of a reader, see
/// `new`), source rows `start..=end` yield `end - start + 1` rows, none when `end < start`.
pub proof fn law_web_site_one_row_per_source_row(session: Session, start: int, end: int, rows: nat)
    requires
        1 <= start,
        end <= rows,
        forall|n: nat| 1 <= n <= rows ==> #[trigger] spec_web_site_source_row(session, n).len() == 1,
    ensures
        spec_web_site_source_rows(session, start, end).len() == if end < start {
            0
        } else {
            end - start + 1
        },
    decreases end + 1 - start,
{
    if end >= start {
        law_web_site_one_row_per_source_row(session, start, end - 1, rows);
        assert(spec_web_site_source_row(session, end as nat).len() == 1);
    }
}

/// Generates the `web_site` table as record batches of at most `batch_size` rows, each batch as
/// its columns of cells.
pub struct WebSiteArrow {
    generator: WebSiteRowGenerator,
    batch_size: usize,
}

impl WebSiteArrow {
    /// The number of rows per batch.
    pub closed spec fn spec_batch_size(&self) -> usize {
        self.batch_size
    }

    /// The rows the reader's generator has still to yield, in order.
    pub closed spec fn spec_pending(&self) -> Seq<WebSiteRow> {
        spec_web_site_pending(self.generator)
    }

    /// The session the reader generates from.
    pub closed spec fn spec_session(&self) -> Session {
        spec_web_site_session(self.generator)
    }

    /// The last source row the reader generates.
    pub closed spec fn spec_end(&self) -> u64 {
        spec_web_site_end(self.generator)
    }

    /// Whether a skip or a range on the reader yields exactly the source rows asked for:
    /// always, for a table of slowly changing rows.
    pub closed spec fn spec_at_row_start(&self) -> bool {
        true
    }

    /// Whether the reader reaches a source row boundary once it has handed out all its rows.
    pub closed spec fn spec_steady(&self) -> bool {
        true
    }

    /// A reader of all the table's rows at the scale of `session`, in batches of
    /// [`DEFAULT_BATCH_SIZE`] rows: its generator yields the rows of source rows `1..=n`, where
    /// `n` is the row count of `WebSite` at the session's scaling.
    pub fn new(session: Session) -> (reader: Self)
        ensures
            reader.spec_batch_size() == DEFAULT_BATCH_SIZE,
            reader.spec_session() == session,
            reader.spec_end() == spec_web_site_table_rows(session),
            reader.spec_at_row_start(),
            reader.spec_steady(),
            reader.spec_pending() == spec_web_site_source_rows(
                session,
                1,
                spec_web_site_table_rows(session) as int,
            ),
            forall|n: nat| 1 <= n <= spec_web_site_table_rows(session) ==> #[trigger] spec_web_site_source_row(session, n).len() == 1,
    {
        let row_count = scaling_row_count(session_scaling(&session), Table::WebSite.values_index());
        WebSiteArrow { generator: web_site_generator(session, row_count), batch_size: DEFAULT_BATCH_SIZE }
    }

    /// Start generating at source row `starting_row_number` (1-based); the generator still ends
    /// at its last source row. When a skip yields exactly the rows asked for (see
    /// `spec_at_row_start`), the rows to come are those of source rows
    /// `starting_row_number..=end`.
    pub fn skip_rows_until_starting_row_number(&mut self, starting_row_number: u64)
        requires
            1 <= starting_row_number <= MAX_STARTING_ROW_NUMBER,
        ensures
            final(self).spec_batch_size() == old(self).spec_batch_size(),
            final(self).spec_session() == old(self).spec_session(),
            final(self).spec_end() == old(self).spec_end(),
            old(self).spec_at_row_start() ==> final(self).spec_pending() == spec_web_site_source_rows(
                old(self).spec_session(),
                starting_row_number as int,
                old(self).spec_end() as int,
            ),
            old(self).spec_at_row_start() ==> final(self).spec_at_row_start() && final(self).spec_steady(),
    {
        web_site_skip(&mut self.generator, starting_row_number);
    }

    /// Generate only source rows `starting_row_number..=ending_row_number` (1-based,
    /// inclusive). The ending row number is clamped to the table's row count.
    pub fn with_source_row_range(self, starting_row_number: u64, ending_row_number: u64) -> (reader: Self)
        requires
            1 <= starting_row_number <= MAX_STARTING_ROW_NUMBER,
        ensures
            reader.spec_batch_size() == self.spec_batch_size(),
            reader.spec_session() == self.spec_session(),
            reader.spec_end() == if ending_row_number < self.spec_end() {
                ending_row_number
            } else {
                self.spec_end()
            },
            self.spec_at_row_start() ==> reader.spec_pending() == spec_web_site_source_rows(
                self.spec_session(),
                starting_row_number as int,
                reader.spec_end() as int,
            ),
            self.spec_at_row_start() ==> reader.spec_at_row_start() && reader.spec_steady(),
    {
        let mut reader = self;
        web_site_set_range(&mut reader.generator, starting_row_number, ending_row_number);
        reader
    }

    /// Use batches of `batch_size` rows.
    pub fn with_batch_size(self, batch_size: usize) -> (reader: Self)
        ensures
            reader.spec_batch_size() == batch_size,
            reader.spec_pending() == self.spec_pending(),
            reader.spec_session() == self.spec_session(),
            reader.spec_end() == self.spec_end(),
            reader.spec_at_row_start() == self.spec_at_row_start(),
            reader.spec_steady() == self.spec_steady(),
    {
        let mut reader = self;
        reader.batch_size = batch_size;
        reader
    }

    /// The number of rows per batch.
    pub fn batch_size(&self) -> (n: usize)
        ensures
            n == self.spec_batch_size(),
    {
        self.batch_size
    }

    /// The schema of the batches.
    pub fn schema(&self) -> (schema: Vec<ColumnSpec>)
        ensures
            spec_schema_view(schema@) == spec_web_site_schema(),
    {
        web_site_schema()
    }

    /// The number of rows the next batch takes: the batch size, or all the rows still to come
    /// when fewer are left.
    pub open spec fn spec_next_count(&self) -> int {
        spec_batch_take(self.spec_pending().len(), self.spec_batch_size() as nat) as int
    }

    /// The next rows of the generator: a full batch of them, or all that are left once fewer
    /// remain. They are no longer to come afterwards.
    pub fn next_records(&mut self) -> (records: Vec<WebSiteRecord>)
        ensures
            spec_web_site_records_match(
                records@,
                old(self).spec_pending().take(old(self).spec_next_count()),
            ),
            final(self).spec_pending() == old(self).spec_pending().skip(
                old(self).spec_next_count(),
            ),
            final(self).spec_batch_size() == old(self).spec_batch_size(),
            final(self).spec_session() == old(self).spec_session(),
            final(self).spec_end() == old(self).spec_end(),
            old(self).spec_batch_size() == 0 ==> final(self).spec_at_row_start() == old(self).spec_at_row_start(),
            old(self).spec_steady() ==> final(self).spec_steady(),
            old(self).spec_steady() && old(self).spec_batch_size() > old(self).spec_pending().len()
                ==> final(self).spec_at_row_start(),
    {
        let batch_size = self.batch_size;
        let ghost pending = self.spec_pending();
        let ghost session = self.spec_session();
        let ghost end = self.spec_end();
        let ghost at_start = self.spec_at_row_start();
        let ghost steady = self.spec_steady();
        let mut records: Vec<WebSiteRecord> = Vec::new();
        while records.len() < batch_size
            invariant_except_break
                self.batch_size == batch_size,
                records.len() <= batch_size,
                records.len() <= pending.len(),
                self.spec_pending() == pending.skip(records.len() as int),
                spec_web_site_records_match(records@, pending.take(records.len() as int)),
                self.spec_session() == session,
                self.spec_end() == end,
                records.len() == 0 ==> self.spec_at_row_start() == at_start,
                steady ==> self.spec_steady(),
            ensures
                self.batch_size == batch_size,
                records.len() == (if batch_size <= pending.len() {
                    batch_size as int
                } else {
                    pending.len() as int
                }),
                self.spec_pending() == pending.skip(records.len() as int),
                spec_web_site_records_match(records@, pending.take(records.len() as int)),
                self.spec_session() == session,
                self.spec_end() == end,
                batch_size == 0 ==> self.spec_at_row_start() == at_start,
                steady ==> self.spec_steady(),
                steady && batch_size > pending.len() ==> self.spec_at_row_start(),
            decreases batch_size - records.len(),
        {
            let ghost done = records.len() as int;
            match web_site_next(&mut self.generator) {
                Some(row) => {
                    let record = web_site_record(&row);
                    records.push(record);
                    proof {
                        assert(pending.skip(done)[0] == pending[done]);
                        assert(pending.skip(done).drop_first() =~= pending.skip(done + 1));
                        assert forall|i: int| 0 <= i < records.len() implies #[trigger]
                            spec_web_site_record_matches(records@[i], pending.take(done + 1)[i]) by {
                            if i < done {
                                assert(pending.take(done)[i] == pending.take(done + 1)[i]);
                            }
                        }
                    }
                },
                None => {
                    break;
                },
            }
        }
        records
    }

    /// The next record batch, as its columns: the next rows of the generator, a full batch of
    /// them or all that are left once fewer remain; `None` when no row is left (or batches hold
    /// no rows). Called until it gives `None`, a reader hands out, in order, the batches
    /// `spec_batches` cuts its rows into (see `law_batches_concatenate` and
    /// `law_batch_count_and_sizes`).
    pub fn next_batch(&mut self) -> (batch: Option<Vec<Vec<Cell>>>)
        ensures
            batch is None <==> old(self).spec_next_count() == 0,
            batch matches Some(columns) ==> spec_columns_view(columns@) == spec_columns(
                spec_web_site_rows_of(old(self).spec_pending().take(old(self).spec_next_count())),
                WEB_SITE_COLUMNS as nat,
            ),
            batch is Some ==> spec_batches(old(self).spec_pending(), old(self).spec_batch_size() as nat)
                == seq![old(self).spec_pending().take(old(self).spec_next_count())] + spec_batches(
                final(self).spec_pending(),
                old(self).spec_batch_size() as nat,
            ),
            final(self).spec_pending() == old(self).spec_pending().skip(
                old(self).spec_next_count(),
            ),
            final(self).spec_batch_size() == old(self).spec_batch_size(),
            final(self).spec_session() == old(self).spec_session(),
            final(self).spec_end() == old(self).spec_end(),
            old(self).spec_batch_size() == 0 ==> final(self).spec_at_row_start() == old(self).spec_at_row_start(),
            old(self).spec_steady() ==> final(self).spec_steady(),
            old(self).spec_steady() && old(self).spec_batch_size() > old(self).spec_pending().len()
                ==> final(self).spec_at_row_start(),
    {
        let ghost pending = self.spec_pending();
        let ghost rows = self.spec_pending().take(self.spec_next_count());
        let records = self.next_records();
        if records.len() == 0 {
            return None;
        }
        proof {
            lemma_web_site_matching_records_cells(records@, rows);
            lemma_batches_unfold(pending, self.batch_size as nat);
        }
        Some(web_site_columns(&records))
    }
}

} // verus!
