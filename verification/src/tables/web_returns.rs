//! The `web_returns` table: its rows as plain records, the cells of each row,
//! the table schema, and the batch reader over the row generator.
use crate::column::{
    column, rows_to_columns, spec_columns, spec_columns_view, spec_row_conforms, spec_row_view,
    spec_schema_view, Cell, CellValue, ColumnSpec, ColumnType, DEFAULT_BATCH_SIZE,
};
use crate::conversions::{
    integer_sk_opt, opt, spec_integer_sk_opt, spec_is_null, spec_opt,
};
use crate::pricing::{pricing_record, spec_pricing_record, PricingRecord};
use crate::batching::{lemma_batches_unfold, spec_batch_take, spec_batches};
use crate::plan::{spec_covers, RowRange, MAX_STARTING_ROW_NUMBER};
use crate::table::{spec_values_index, Table};
use crate::tpcds::{scaling_row_count, session_scaling, spec_scaling_row_count, spec_session_scaling};
use tpcdsgen::config::Session;
use tpcdsgen::row::{WebReturnsRowGenerator, WebReturnsRow};
use tpcdsgen::types::Pricing;
use vstd::prelude::*;

verus! {

#[verifier::external_type_specification]
#[verifier::external_body]
pub struct ExWebReturnsRow(WebReturnsRow);

#[verifier::external_type_specification]
#[verifier::external_body]
pub struct ExWebReturnsRowGenerator(WebReturnsRowGenerator);

/// The number of columns of the `web_returns` table.
pub const WEB_RETURNS_COLUMNS: usize = 24;

/// The values of one generated `web_returns` row.
#[derive(Clone, Debug)]
pub struct WebReturnsRecord {
    /// Bit `i` set: column `i` is null.
    pub null_bit_map: i64,
    pub returned_date_sk: i64,
    pub returned_time_sk: i64,
    pub item_sk: i64,
    pub refunded_customer_sk: i64,
    pub refunded_cdemo_sk: i64,
    pub refunded_hdemo_sk: i64,
    pub refunded_addr_sk: i64,
    pub returning_customer_sk: i64,
    pub returning_cdemo_sk: i64,
    pub returning_hdemo_sk: i64,
    pub returning_addr_sk: i64,
    pub web_page_sk: i64,
    pub reason_sk: i64,
    pub order_number: i64,
    pub pricing: PricingRecord,
}

/// The schema of the `web_returns` table: column names, types and nullability.
pub open spec fn spec_web_returns_schema() -> Seq<(Seq<char>, ColumnType, bool)> {
    seq![
        ("wr_returned_date_sk"@, ColumnType::Int32, true),
        ("wr_returned_time_sk"@, ColumnType::Int32, true),
        ("wr_item_sk"@, ColumnType::Int32, false),
        ("wr_refunded_customer_sk"@, ColumnType::Int32, true),
        ("wr_refunded_cdemo_sk"@, ColumnType::Int32, true),
        ("wr_refunded_hdemo_sk"@, ColumnType::Int32, true),
        ("wr_refunded_addr_sk"@, ColumnType::Int32, true),
        ("wr_returning_customer_sk"@, ColumnType::Int32, true),
        ("wr_returning_cdemo_sk"@, ColumnType::Int32, true),
        ("wr_returning_hdemo_sk"@, ColumnType::Int32, true),
        ("wr_returning_addr_sk"@, ColumnType::Int32, true),
        ("wr_web_page_sk"@, ColumnType::Int32, true),
        ("wr_reason_sk"@, ColumnType::Int32, true),
        ("wr_order_number"@, ColumnType::Int64, false),
        ("wr_return_quantity"@, ColumnType::Int32, true),
        ("wr_return_amt"@, ColumnType::Decimal128 { precision: 7, scale: 2 }, true),
        ("wr_return_tax"@, ColumnType::Decimal128 { precision: 7, scale: 2 }, true),
        ("wr_return_amt_inc_tax"@, ColumnType::Decimal128 { precision: 7, scale: 2 }, true),
        ("wr_fee"@, ColumnType::Decimal128 { precision: 7, scale: 2 }, true),
        ("wr_return_ship_cost"@, ColumnType::Decimal128 { precision: 7, scale: 2 }, true),
        ("wr_refunded_cash"@, ColumnType::Decimal128 { precision: 7, scale: 2 }, true),
        ("wr_reversed_charge"@, ColumnType::Decimal128 { precision: 7, scale: 2 }, true),
        ("wr_account_credit"@, ColumnType::Decimal128 { precision: 7, scale: 2 }, true),
        ("wr_net_loss"@, ColumnType::Decimal128 { precision: 7, scale: 2 }, true),
    ]
}

/// The schema of the `web_returns` table.
pub fn web_returns_schema() -> (schema: Vec<ColumnSpec>)
    ensures
        spec_schema_view(schema@) == spec_web_returns_schema(),
{
    let mut schema: Vec<ColumnSpec> = Vec::new();
    schema.push(column("wr_returned_date_sk", ColumnType::Int32, true));
    schema.push(column("wr_returned_time_sk", ColumnType::Int32, true));
    schema.push(column("wr_item_sk", ColumnType::Int32, false));
    schema.push(column("wr_refunded_customer_sk", ColumnType::Int32, true));
    schema.push(column("wr_refunded_cdemo_sk", ColumnType::Int32, true));
    schema.push(column("wr_refunded_hdemo_sk", ColumnType::Int32, true));
    schema.push(column("wr_refunded_addr_sk", ColumnType::Int32, true));
    schema.push(column("wr_returning_customer_sk", ColumnType::Int32, true));
    schema.push(column("wr_returning_cdemo_sk", ColumnType::Int32, true));
    schema.push(column("wr_returning_hdemo_sk", ColumnType::Int32, true));
    schema.push(column("wr_returning_addr_sk", ColumnType::Int32, true));
    schema.push(column("wr_web_page_sk", ColumnType::Int32, true));
    schema.push(column("wr_reason_sk", ColumnType::Int32, true));
    schema.push(column("wr_order_number", ColumnType::Int64, false));
    schema.push(column("wr_return_quantity", ColumnType::Int32, true));
    schema.push(column("wr_return_amt", ColumnType::Decimal128 { precision: 7, scale: 2 }, true));
    schema.push(column("wr_return_tax", ColumnType::Decimal128 { precision: 7, scale: 2 }, true));
    schema.push(column("wr_return_amt_inc_tax", ColumnType::Decimal128 { precision: 7, scale: 2 }, true));
    schema.push(column("wr_fee", ColumnType::Decimal128 { precision: 7, scale: 2 }, true));
    schema.push(column("wr_return_ship_cost", ColumnType::Decimal128 { precision: 7, scale: 2 }, true));
    schema.push(column("wr_refunded_cash", ColumnType::Decimal128 { precision: 7, scale: 2 }, true));
    schema.push(column("wr_reversed_charge", ColumnType::Decimal128 { precision: 7, scale: 2 }, true));
    schema.push(column("wr_account_credit", ColumnType::Decimal128 { precision: 7, scale: 2 }, true));
    schema.push(column("wr_net_loss", ColumnType::Decimal128 { precision: 7, scale: 2 }, true));
    assert(spec_schema_view(schema@) =~= spec_web_returns_schema());
    schema
}

/// The cells of a `web_returns` row, in schema order.
pub open spec fn spec_web_returns_row(r: WebReturnsRecord) -> Seq<CellValue> {
    let nbm = r.null_bit_map;
    seq![
        CellValue::Int32(spec_integer_sk_opt(nbm, 0, r.returned_date_sk)),
        CellValue::Int32(spec_integer_sk_opt(nbm, 1, r.returned_time_sk)),
        CellValue::Int32(spec_integer_sk_opt(nbm, 2, r.item_sk)),
        CellValue::Int32(spec_integer_sk_opt(nbm, 3, r.refunded_customer_sk)),
        CellValue::Int32(spec_integer_sk_opt(nbm, 4, r.refunded_cdemo_sk)),
        CellValue::Int32(spec_integer_sk_opt(nbm, 5, r.refunded_hdemo_sk)),
        CellValue::Int32(spec_integer_sk_opt(nbm, 6, r.refunded_addr_sk)),
        CellValue::Int32(spec_integer_sk_opt(nbm, 7, r.returning_customer_sk)),
        CellValue::Int32(spec_integer_sk_opt(nbm, 8, r.returning_cdemo_sk)),
        CellValue::Int32(spec_integer_sk_opt(nbm, 9, r.returning_hdemo_sk)),
        CellValue::Int32(spec_integer_sk_opt(nbm, 10, r.returning_addr_sk)),
        CellValue::Int32(spec_integer_sk_opt(nbm, 11, r.web_page_sk)),
        CellValue::Int32(spec_integer_sk_opt(nbm, 12, r.reason_sk)),
        CellValue::Int64(spec_opt(nbm, 13, r.order_number)),
        CellValue::Int32(spec_opt(nbm, 14, r.pricing.quantity)),
        CellValue::Decimal128(spec_opt(nbm, 15, r.pricing.net_paid as i128)),
        CellValue::Decimal128(spec_opt(nbm, 16, r.pricing.ext_tax as i128)),
        CellValue::Decimal128(spec_opt(nbm, 17, r.pricing.net_paid_including_tax as i128)),
        CellValue::Decimal128(spec_opt(nbm, 18, r.pricing.fee as i128)),
        CellValue::Decimal128(spec_opt(nbm, 19, r.pricing.ext_ship_cost as i128)),
        CellValue::Decimal128(spec_opt(nbm, 20, r.pricing.refunded_cash as i128)),
        CellValue::Decimal128(spec_opt(nbm, 21, r.pricing.reversed_charge as i128)),
        CellValue::Decimal128(spec_opt(nbm, 22, r.pricing.store_credit as i128)),
        CellValue::Decimal128(spec_opt(nbm, 23, r.pricing.net_loss as i128)),
    ]
}

/// The cells of the generated `web_returns` row `row`, in schema order.
pub open spec fn spec_web_returns_row_of(row: WebReturnsRow) -> Seq<CellValue> {
    let nbm = spec_web_returns_null_bit_map(row);
    seq![
        CellValue::Int32(spec_integer_sk_opt(nbm, 0, spec_web_returns_returned_date_sk(row))),
        CellValue::Int32(spec_integer_sk_opt(nbm, 1, spec_web_returns_returned_time_sk(row))),
        CellValue::Int32(spec_integer_sk_opt(nbm, 2, spec_web_returns_item_sk(row))),
        CellValue::Int32(spec_integer_sk_opt(nbm, 3, spec_web_returns_refunded_customer_sk(row))),
        CellValue::Int32(spec_integer_sk_opt(nbm, 4, spec_web_returns_refunded_cdemo_sk(row))),
        CellValue::Int32(spec_integer_sk_opt(nbm, 5, spec_web_returns_refunded_hdemo_sk(row))),
        CellValue::Int32(spec_integer_sk_opt(nbm, 6, spec_web_returns_refunded_addr_sk(row))),
        CellValue::Int32(spec_integer_sk_opt(nbm, 7, spec_web_returns_returning_customer_sk(row))),
        CellValue::Int32(spec_integer_sk_opt(nbm, 8, spec_web_returns_returning_cdemo_sk(row))),
        CellValue::Int32(spec_integer_sk_opt(nbm, 9, spec_web_returns_returning_hdemo_sk(row))),
        CellValue::Int32(spec_integer_sk_opt(nbm, 10, spec_web_returns_returning_addr_sk(row))),
        CellValue::Int32(spec_integer_sk_opt(nbm, 11, spec_web_returns_web_page_sk(row))),
        CellValue::Int32(spec_integer_sk_opt(nbm, 12, spec_web_returns_reason_sk(row))),
        CellValue::Int64(spec_opt(nbm, 13, spec_web_returns_order_number(row))),
        CellValue::Int32(spec_opt(nbm, 14, spec_pricing_record(spec_web_returns_pricing(row)).quantity)),
        CellValue::Decimal128(spec_opt(nbm, 15, spec_pricing_record(spec_web_returns_pricing(row)).net_paid as i128)),
        CellValue::Decimal128(spec_opt(nbm, 16, spec_pricing_record(spec_web_returns_pricing(row)).ext_tax as i128)),
        CellValue::Decimal128(spec_opt(nbm, 17, spec_pricing_record(spec_web_returns_pricing(row)).net_paid_including_tax as i128)),
        CellValue::Decimal128(spec_opt(nbm, 18, spec_pricing_record(spec_web_returns_pricing(row)).fee as i128)),
        CellValue::Decimal128(spec_opt(nbm, 19, spec_pricing_record(spec_web_returns_pricing(row)).ext_ship_cost as i128)),
        CellValue::Decimal128(spec_opt(nbm, 20, spec_pricing_record(spec_web_returns_pricing(row)).refunded_cash as i128)),
        CellValue::Decimal128(spec_opt(nbm, 21, spec_pricing_record(spec_web_returns_pricing(row)).reversed_charge as i128)),
        CellValue::Decimal128(spec_opt(nbm, 22, spec_pricing_record(spec_web_returns_pricing(row)).store_credit as i128)),
        CellValue::Decimal128(spec_opt(nbm, 23, spec_pricing_record(spec_web_returns_pricing(row)).net_loss as i128)),
    ]
}

/// The cells of the generated rows `rows`, one row each.
pub open spec fn spec_web_returns_rows_of(rows: Seq<WebReturnsRow>) -> Seq<Seq<CellValue>> {{
    rows.map_values(|row: WebReturnsRow| spec_web_returns_row_of(row))
}}

/// Records that hold the values of generated rows have the cells of those
/// rows.
pub proof fn lemma_web_returns_matching_records_cells(records: Seq<WebReturnsRecord>, rows: Seq<WebReturnsRow>)
    requires
        spec_web_returns_records_match(records, rows),
    ensures
        spec_web_returns_rows(records) == spec_web_returns_rows_of(rows),
{{
    assert forall|i: int| 0 <= i < records.len() implies spec_web_returns_row(records[i])
        =~= spec_web_returns_row_of(rows[i]) by {{
        assert(spec_web_returns_record_matches(records[i], rows[i]));
    }}
    assert(spec_web_returns_rows(records) =~= spec_web_returns_rows_of(rows));
}}

/// Each column of a generated `web_returns` row holds what the generator's accessor for that
/// column gives: column `j` is the one the schema names, filled from the row's own value for it
/// (null where the row's null bit map marks it), through the conversion its type calls for.
pub proof fn law_web_returns_columns_hold_their_values(row: WebReturnsRow)
    ensures
        spec_web_returns_row_of(row).len() == 24,
        spec_web_returns_schema()[0].0 == "wr_returned_date_sk"@ && spec_web_returns_row_of(row)[0] == CellValue::Int32(spec_integer_sk_opt(spec_web_returns_null_bit_map(row), 0u32, spec_web_returns_returned_date_sk(row))),
        spec_web_returns_schema()[1].0 == "wr_returned_time_sk"@ && spec_web_returns_row_of(row)[1] == CellValue::Int32(spec_integer_sk_opt(spec_web_returns_null_bit_map(row), 1u32, spec_web_returns_returned_time_sk(row))),
        spec_web_returns_schema()[2].0 == "wr_item_sk"@ && spec_web_returns_row_of(row)[2] == CellValue::Int32(spec_integer_sk_opt(spec_web_returns_null_bit_map(row), 2u32, spec_web_returns_item_sk(row))),
        spec_web_returns_schema()[3].0 == "wr_refunded_customer_sk"@ && spec_web_returns_row_of(row)[3] == CellValue::Int32(spec_integer_sk_opt(spec_web_returns_null_bit_map(row), 3u32, spec_web_returns_refunded_customer_sk(row))),
        spec_web_returns_schema()[4].0 == "wr_refunded_cdemo_sk"@ && spec_web_returns_row_of(row)[4] == CellValue::Int32(spec_integer_sk_opt(spec_web_returns_null_bit_map(row), 4u32, spec_web_returns_refunded_cdemo_sk(row))),
        spec_web_returns_schema()[5].0 == "wr_refunded_hdemo_sk"@ && spec_web_returns_row_of(row)[5] == CellValue::Int32(spec_integer_sk_opt(spec_web_returns_null_bit_map(row), 5u32, spec_web_returns_refunded_hdemo_sk(row))),
        spec_web_returns_schema()[6].0 == "wr_refunded_addr_sk"@ && spec_web_returns_row_of(row)[6] == CellValue::Int32(spec_integer_sk_opt(spec_web_returns_null_bit_map(row), 6u32, spec_web_returns_refunded_addr_sk(row))),
        spec_web_returns_schema()[7].0 == "wr_returning_customer_sk"@ && spec_web_returns_row_of(row)[7] == CellValue::Int32(spec_integer_sk_opt(spec_web_returns_null_bit_map(row), 7u32, spec_web_returns_returning_customer_sk(row))),
        spec_web_returns_schema()[8].0 == "wr_returning_cdemo_sk"@ && spec_web_returns_row_of(row)[8] == CellValue::Int32(spec_integer_sk_opt(spec_web_returns_null_bit_map(row), 8u32, spec_web_returns_returning_cdemo_sk(row))),
        spec_web_returns_schema()[9].0 == "wr_returning_hdemo_sk"@ && spec_web_returns_row_of(row)[9] == CellValue::Int32(spec_integer_sk_opt(spec_web_returns_null_bit_map(row), 9u32, spec_web_returns_returning_hdemo_sk(row))),
        spec_web_returns_schema()[10].0 == "wr_returning_addr_sk"@ && spec_web_returns_row_of(row)[10] == CellValue::Int32(spec_integer_sk_opt(spec_web_returns_null_bit_map(row), 10u32, spec_web_returns_returning_addr_sk(row))),
        spec_web_returns_schema()[11].0 == "wr_web_page_sk"@ && spec_web_returns_row_of(row)[11] == CellValue::Int32(spec_integer_sk_opt(spec_web_returns_null_bit_map(row), 11u32, spec_web_returns_web_page_sk(row))),
        spec_web_returns_schema()[12].0 == "wr_reason_sk"@ && spec_web_returns_row_of(row)[12] == CellValue::Int32(spec_integer_sk_opt(spec_web_returns_null_bit_map(row), 12u32, spec_web_returns_reason_sk(row))),
        spec_web_returns_schema()[13].0 == "wr_order_number"@ && spec_web_returns_row_of(row)[13] == CellValue::Int64(spec_opt(spec_web_returns_null_bit_map(row), 13u32, spec_web_returns_order_number(row))),
        spec_web_returns_schema()[14].0 == "wr_return_quantity"@ && spec_web_returns_row_of(row)[14] == CellValue::Int32(spec_opt(spec_web_returns_null_bit_map(row), 14u32, crate::pricing::spec_pricing_quantity(spec_web_returns_pricing(row)))),
        spec_web_returns_schema()[15].0 == "wr_return_amt"@ && spec_web_returns_row_of(row)[15] == CellValue::Decimal128(spec_opt(spec_web_returns_null_bit_map(row), 15u32, (crate::pricing::spec_decimal_number(crate::pricing::spec_pricing_net_paid(spec_web_returns_pricing(row)))) as i128)),
        spec_web_returns_schema()[16].0 == "wr_return_tax"@ && spec_web_returns_row_of(row)[16] == CellValue::Decimal128(spec_opt(spec_web_returns_null_bit_map(row), 16u32, (crate::pricing::spec_decimal_number(crate::pricing::spec_pricing_ext_tax(spec_web_returns_pricing(row)))) as i128)),
        spec_web_returns_schema()[17].0 == "wr_return_amt_inc_tax"@ && spec_web_returns_row_of(row)[17] == CellValue::Decimal128(spec_opt(spec_web_returns_null_bit_map(row), 17u32, (crate::pricing::spec_decimal_number(crate::pricing::spec_pricing_net_paid_including_tax(spec_web_returns_pricing(row)))) as i128)),
        spec_web_returns_schema()[18].0 == "wr_fee"@ && spec_web_returns_row_of(row)[18] == CellValue::Decimal128(spec_opt(spec_web_returns_null_bit_map(row), 18u32, (crate::pricing::spec_decimal_number(crate::pricing::spec_pricing_fee(spec_web_returns_pricing(row)))) as i128)),
        spec_web_returns_schema()[19].0 == "wr_return_ship_cost"@ && spec_web_returns_row_of(row)[19] == CellValue::Decimal128(spec_opt(spec_web_returns_null_bit_map(row), 19u32, (crate::pricing::spec_decimal_number(crate::pricing::spec_pricing_ext_ship_cost(spec_web_returns_pricing(row)))) as i128)),
        spec_web_returns_schema()[20].0 == "wr_refunded_cash"@ && spec_web_returns_row_of(row)[20] == CellValue::Decimal128(spec_opt(spec_web_returns_null_bit_map(row), 20u32, (crate::pricing::spec_decimal_number(crate::pricing::spec_pricing_refunded_cash(spec_web_returns_pricing(row)))) as i128)),
        spec_web_returns_schema()[21].0 == "wr_reversed_charge"@ && spec_web_returns_row_of(row)[21] == CellValue::Decimal128(spec_opt(spec_web_returns_null_bit_map(row), 21u32, (crate::pricing::spec_decimal_number(crate::pricing::spec_pricing_reversed_charge(spec_web_returns_pricing(row)))) as i128)),
        spec_web_returns_schema()[22].0 == "wr_account_credit"@ && spec_web_returns_row_of(row)[22] == CellValue::Decimal128(spec_opt(spec_web_returns_null_bit_map(row), 22u32, (crate::pricing::spec_decimal_number(crate::pricing::spec_pricing_store_credit(spec_web_returns_pricing(row)))) as i128)),
        spec_web_returns_schema()[23].0 == "wr_net_loss"@ && spec_web_returns_row_of(row)[23] == CellValue::Decimal128(spec_opt(spec_web_returns_null_bit_map(row), 23u32, (crate::pricing::spec_decimal_number(crate::pricing::spec_pricing_net_loss(spec_web_returns_pricing(row)))) as i128)),
{
}

/// Each column of a `web_returns` record's row holds the record's value for the column the
/// schema names, null where the record's null bit map marks it.
pub proof fn law_web_returns_record_columns_hold_their_values(r: WebReturnsRecord)
    ensures
        spec_web_returns_row(r).len() == 24,
        spec_web_returns_schema()[0].0 == "wr_returned_date_sk"@ && spec_web_returns_row(r)[0] == CellValue::Int32(spec_integer_sk_opt(r.null_bit_map, 0u32, r.returned_date_sk)),
        spec_web_returns_schema()[1].0 == "wr_returned_time_sk"@ && spec_web_returns_row(r)[1] == CellValue::Int32(spec_integer_sk_opt(r.null_bit_map, 1u32, r.returned_time_sk)),
        spec_web_returns_schema()[2].0 == "wr_item_sk"@ && spec_web_returns_row(r)[2] == CellValue::Int32(spec_integer_sk_opt(r.null_bit_map, 2u32, r.item_sk)),
        spec_web_returns_schema()[3].0 == "wr_refunded_customer_sk"@ && spec_web_returns_row(r)[3] == CellValue::Int32(spec_integer_sk_opt(r.null_bit_map, 3u32, r.refunded_customer_sk)),
        spec_web_returns_schema()[4].0 == "wr_refunded_cdemo_sk"@ && spec_web_returns_row(r)[4] == CellValue::Int32(spec_integer_sk_opt(r.null_bit_map, 4u32, r.refunded_cdemo_sk)),
        spec_web_returns_schema()[5].0 == "wr_refunded_hdemo_sk"@ && spec_web_returns_row(r)[5] == CellValue::Int32(spec_integer_sk_opt(r.null_bit_map, 5u32, r.refunded_hdemo_sk)),
        spec_web_returns_schema()[6].0 == "wr_refunded_addr_sk"@ && spec_web_returns_row(r)[6] == CellValue::Int32(spec_integer_sk_opt(r.null_bit_map, 6u32, r.refunded_addr_sk)),
        spec_web_returns_schema()[7].0 == "wr_returning_customer_sk"@ && spec_web_returns_row(r)[7] == CellValue::Int32(spec_integer_sk_opt(r.null_bit_map, 7u32, r.returning_customer_sk)),
        spec_web_returns_schema()[8].0 == "wr_returning_cdemo_sk"@ && spec_web_returns_row(r)[8] == CellValue::Int32(spec_integer_sk_opt(r.null_bit_map, 8u32, r.returning_cdemo_sk)),
        spec_web_returns_schema()[9].0 == "wr_returning_hdemo_sk"@ && spec_web_returns_row(r)[9] == CellValue::Int32(spec_integer_sk_opt(r.null_bit_map, 9u32, r.returning_hdemo_sk)),
        spec_web_returns_schema()[10].0 == "wr_returning_addr_sk"@ && spec_web_returns_row(r)[10] == CellValue::Int32(spec_integer_sk_opt(r.null_bit_map, 10u32, r.returning_addr_sk)),
        spec_web_returns_schema()[11].0 == "wr_web_page_sk"@ && spec_web_returns_row(r)[11] == CellValue::Int32(spec_integer_sk_opt(r.null_bit_map, 11u32, r.web_page_sk)),
        spec_web_returns_schema()[12].0 == "wr_reason_sk"@ && spec_web_returns_row(r)[12] == CellValue::Int32(spec_integer_sk_opt(r.null_bit_map, 12u32, r.reason_sk)),
        spec_web_returns_schema()[13].0 == "wr_order_number"@ && spec_web_returns_row(r)[13] == CellValue::Int64(spec_opt(r.null_bit_map, 13u32, r.order_number)),
        spec_web_returns_schema()[14].0 == "wr_return_quantity"@ && spec_web_returns_row(r)[14] == CellValue::Int32(spec_opt(r.null_bit_map, 14u32, r.pricing.quantity)),
        spec_web_returns_schema()[15].0 == "wr_return_amt"@ && spec_web_returns_row(r)[15] == CellValue::Decimal128(spec_opt(r.null_bit_map, 15u32, (r.pricing.net_paid) as i128)),
        spec_web_returns_schema()[16].0 == "wr_return_tax"@ && spec_web_returns_row(r)[16] == CellValue::Decimal128(spec_opt(r.null_bit_map, 16u32, (r.pricing.ext_tax) as i128)),
        spec_web_returns_schema()[17].0 == "wr_return_amt_inc_tax"@ && spec_web_returns_row(r)[17] == CellValue::Decimal128(spec_opt(r.null_bit_map, 17u32, (r.pricing.net_paid_including_tax) as i128)),
        spec_web_returns_schema()[18].0 == "wr_fee"@ && spec_web_returns_row(r)[18] == CellValue::Decimal128(spec_opt(r.null_bit_map, 18u32, (r.pricing.fee) as i128)),
        spec_web_returns_schema()[19].0 == "wr_return_ship_cost"@ && spec_web_returns_row(r)[19] == CellValue::Decimal128(spec_opt(r.null_bit_map, 19u32, (r.pricing.ext_ship_cost) as i128)),
        spec_web_returns_schema()[20].0 == "wr_refunded_cash"@ && spec_web_returns_row(r)[20] == CellValue::Decimal128(spec_opt(r.null_bit_map, 20u32, (r.pricing.refunded_cash) as i128)),
        spec_web_returns_schema()[21].0 == "wr_reversed_charge"@ && spec_web_returns_row(r)[21] == CellValue::Decimal128(spec_opt(r.null_bit_map, 21u32, (r.pricing.reversed_charge) as i128)),
        spec_web_returns_schema()[22].0 == "wr_account_credit"@ && spec_web_returns_row(r)[22] == CellValue::Decimal128(spec_opt(r.null_bit_map, 22u32, (r.pricing.store_credit) as i128)),
        spec_web_returns_schema()[23].0 == "wr_net_loss"@ && spec_web_returns_row(r)[23] == CellValue::Decimal128(spec_opt(r.null_bit_map, 23u32, (r.pricing.net_loss) as i128)),
{
}

/// The rows of a batch of generated `web_returns` rows come one per generated row, in the same
/// order.
pub proof fn law_web_returns_rows_in_order(rows: Seq<WebReturnsRow>)
    ensures
        spec_web_returns_rows_of(rows).len() == rows.len(),
        forall|i: int| 0 <= i < rows.len() ==> #[trigger] spec_web_returns_rows_of(rows)[i] == spec_web_returns_row_of(rows[i]),
{
}

/// The rows of a batch of `web_returns` records come one per record, in the same order.
pub proof fn law_web_returns_record_rows_in_order(records: Seq<WebReturnsRecord>)
    ensures
        spec_web_returns_rows(records).len() == records.len(),
        forall|i: int| 0 <= i < records.len() ==> #[trigger] spec_web_returns_rows(records)[i] == spec_web_returns_row(records[i]),
{
}

/// The cells of a `web_returns` row, in schema order.
pub fn web_returns_row(r: &WebReturnsRecord) -> (row: Vec<Cell>)
    ensures
        spec_row_view(row@) == spec_web_returns_row(*r),
{
    let nbm = r.null_bit_map;
    let mut row: Vec<Cell> = Vec::new();
    row.push(Cell::Int32(integer_sk_opt(nbm, 0, r.returned_date_sk)));
    row.push(Cell::Int32(integer_sk_opt(nbm, 1, r.returned_time_sk)));
    row.push(Cell::Int32(integer_sk_opt(nbm, 2, r.item_sk)));
    row.push(Cell::Int32(integer_sk_opt(nbm, 3, r.refunded_customer_sk)));
    row.push(Cell::Int32(integer_sk_opt(nbm, 4, r.refunded_cdemo_sk)));
    row.push(Cell::Int32(integer_sk_opt(nbm, 5, r.refunded_hdemo_sk)));
    row.push(Cell::Int32(integer_sk_opt(nbm, 6, r.refunded_addr_sk)));
    row.push(Cell::Int32(integer_sk_opt(nbm, 7, r.returning_customer_sk)));
    row.push(Cell::Int32(integer_sk_opt(nbm, 8, r.returning_cdemo_sk)));
    row.push(Cell::Int32(integer_sk_opt(nbm, 9, r.returning_hdemo_sk)));
    row.push(Cell::Int32(integer_sk_opt(nbm, 10, r.returning_addr_sk)));
    row.push(Cell::Int32(integer_sk_opt(nbm, 11, r.web_page_sk)));
    row.push(Cell::Int32(integer_sk_opt(nbm, 12, r.reason_sk)));
    row.push(Cell::Int64(opt(nbm, 13, r.order_number)));
    row.push(Cell::Int32(opt(nbm, 14, r.pricing.quantity)));
    row.push(Cell::Decimal128(opt(nbm, 15, r.pricing.net_paid as i128)));
    row.push(Cell::Decimal128(opt(nbm, 16, r.pricing.ext_tax as i128)));
    row.push(Cell::Decimal128(opt(nbm, 17, r.pricing.net_paid_including_tax as i128)));
    row.push(Cell::Decimal128(opt(nbm, 18, r.pricing.fee as i128)));
    row.push(Cell::Decimal128(opt(nbm, 19, r.pricing.ext_ship_cost as i128)));
    row.push(Cell::Decimal128(opt(nbm, 20, r.pricing.refunded_cash as i128)));
    row.push(Cell::Decimal128(opt(nbm, 21, r.pricing.reversed_charge as i128)));
    row.push(Cell::Decimal128(opt(nbm, 22, r.pricing.store_credit as i128)));
    row.push(Cell::Decimal128(opt(nbm, 23, r.pricing.net_loss as i128)));
    assert(spec_row_view(row@) =~= spec_web_returns_row(*r));
    row
}

/// The cells of `records`, one row each.
pub open spec fn spec_web_returns_rows(records: Seq<WebReturnsRecord>) -> Seq<Seq<CellValue>> {
    records.map_values(|r: WebReturnsRecord| spec_web_returns_row(r))
}

/// The columns of a record batch holding `records`: column `j` holds the
/// `j`-th cell of each record's row, in record order.
pub fn web_returns_columns(records: &Vec<WebReturnsRecord>) -> (columns: Vec<Vec<Cell>>)
    ensures
        spec_columns_view(columns@) == spec_columns(
            spec_web_returns_rows(records@),
            WEB_RETURNS_COLUMNS as nat,
        ),
{
    let mut rows: Vec<Vec<Cell>> = Vec::new();
    let mut i: usize = 0;
    while i < records.len()
        invariant
            i <= records.len(),
            rows.len() == i,
            forall|k: int|
                0 <= k < i ==> spec_row_view((#[trigger] rows[k])@) == spec_web_returns_row(records[k]),
            forall|k: int| 0 <= k < i ==> (#[trigger] rows[k]).len() == WEB_RETURNS_COLUMNS,
        decreases records.len() - i,
    {
        let row = web_returns_row(&records[i]);
        proof {
            assert(spec_row_view(row@).len() == row@.len());
        }
        rows.push(row);
        i = i + 1;
    }
    let columns = rows_to_columns(&rows, WEB_RETURNS_COLUMNS);
    proof {
        let expected = spec_columns(spec_web_returns_rows(records@), WEB_RETURNS_COLUMNS as nat);
        assert forall|j: int| 0 <= j < WEB_RETURNS_COLUMNS implies spec_row_view(columns@[j]@)
            =~= expected[j] by {
            assert forall|k: int| 0 <= k < records.len() implies (#[trigger] spec_row_view(
                columns@[j]@,
            )[k]) == expected[j][k] by {
                assert(spec_row_view(rows[k]@)[j] == rows[k][j]@);
            }
        }
        assert(spec_columns_view(columns@) =~= expected);
    }
    columns
}

/// A `web_returns` row conforms to the table schema (one cell per column, each
/// of the column's type, no null in a required column) whenever its required
/// columns are not marked null and their keys are not negative.
pub proof fn law_web_returns_row_conforms(r: WebReturnsRecord)
    requires
        !spec_is_null(r.null_bit_map, 2),
        r.item_sk >= 0,
        !spec_is_null(r.null_bit_map, 13),
    ensures
        spec_row_conforms(spec_web_returns_row(r), spec_web_returns_schema()),
{
    let row = spec_web_returns_row(r);
    assert(row.len() == 24);
}

/// The null bit map that `WebReturnsRow::null_bit_map` returns for `row`.
pub uninterp spec fn spec_web_returns_null_bit_map(row: WebReturnsRow) -> i64;

/// Calls `WebReturnsRow::null_bit_map`: a field of the row, named
/// `spec_web_returns_null_bit_map`.
#[verifier::external_body]
fn web_returns_null_bit_map(r: &WebReturnsRow) -> (v: i64)
    ensures
        v == spec_web_returns_null_bit_map(*r),
{
    r.null_bit_map()
}

/// The value that `WebReturnsRow::get_wr_returned_date_sk` returns for `row`.
pub uninterp spec fn spec_web_returns_returned_date_sk(row: WebReturnsRow) -> i64;

/// Calls `WebReturnsRow::get_wr_returned_date_sk`: a field of the row, named
/// `spec_web_returns_returned_date_sk`.
#[verifier::external_body]
fn web_returns_returned_date_sk(r: &WebReturnsRow) -> (v: i64)
    ensures
        v == spec_web_returns_returned_date_sk(*r),
{
    r.get_wr_returned_date_sk()
}

/// The value that `WebReturnsRow::get_wr_returned_time_sk` returns for `row`.
pub uninterp spec fn spec_web_returns_returned_time_sk(row: WebReturnsRow) -> i64;

/// Calls `WebReturnsRow::get_wr_returned_time_sk`: a field of the row, named
/// `spec_web_returns_returned_time_sk`.
#[verifier::external_body]
fn web_returns_returned_time_sk(r: &WebReturnsRow) -> (v: i64)
    ensures
        v == spec_web_returns_returned_time_sk(*r),
{
    r.get_wr_returned_time_sk()
}

/// The value that `WebReturnsRow::get_wr_item_sk` returns for `row`.
pub uninterp spec fn spec_web_returns_item_sk(row: WebReturnsRow) -> i64;

/// Calls `WebReturnsRow::get_wr_item_sk`: a field of the row, named `spec_web_returns_item_sk`.
#[verifier::external_body]
fn web_returns_item_sk(r: &WebReturnsRow) -> (v: i64)
    ensures
        v == spec_web_returns_item_sk(*r),
{
    r.get_wr_item_sk()
}

/// The value that `WebReturnsRow::get_wr_refunded_customer_sk` returns for `row`.
pub uninterp spec fn spec_web_returns_refunded_customer_sk(row: WebReturnsRow) -> i64;

/// Calls `WebReturnsRow::get_wr_refunded_customer_sk`: a field of the row, named
/// `spec_web_returns_refunded_customer_sk`.
#[verifier::external_body]
fn web_returns_refunded_customer_sk(r: &WebReturnsRow) -> (v: i64)
    ensures
        v == spec_web_returns_refunded_customer_sk(*r),
{
    r.get_wr_refunded_customer_sk()
}

/// The value that `WebReturnsRow::get_wr_refunded_cdemo_sk` returns for `row`.
pub uninterp spec fn spec_web_returns_refunded_cdemo_sk(row: WebReturnsRow) -> i64;

/// Calls `WebReturnsRow::get_wr_refunded_cdemo_sk`: a field of the row, named
/// `spec_web_returns_refunded_cdemo_sk`.
#[verifier::external_body]
fn web_returns_refunded_cdemo_sk(r: &WebReturnsRow) -> (v: i64)
    ensures
        v == spec_web_returns_refunded_cdemo_sk(*r),
{
    r.get_wr_refunded_cdemo_sk()
}

/// The value that `WebReturnsRow::get_wr_refunded_hdemo_sk` returns for `row`.
pub uninterp spec fn spec_web_returns_refunded_hdemo_sk(row: WebReturnsRow) -> i64;

/// Calls `WebReturnsRow::get_wr_refunded_hdemo_sk`: a field of the row, named
/// `spec_web_returns_refunded_hdemo_sk`.
#[verifier::external_body]
fn web_returns_refunded_hdemo_sk(r: &WebReturnsRow) -> (v: i64)
    ensures
        v == spec_web_returns_refunded_hdemo_sk(*r),
{
    r.get_wr_refunded_hdemo_sk()
}

/// The value that `WebReturnsRow::get_wr_refunded_addr_sk` returns for `row`.
pub uninterp spec fn spec_web_returns_refunded_addr_sk(row: WebReturnsRow) -> i64;

/// Calls `WebReturnsRow::get_wr_refunded_addr_sk`: a field of the row, named
/// `spec_web_returns_refunded_addr_sk`.
#[verifier::external_body]
fn web_returns_refunded_addr_sk(r: &WebReturnsRow) -> (v: i64)
    ensures
        v == spec_web_returns_refunded_addr_sk(*r),
{
    r.get_wr_refunded_addr_sk()
}

/// The value that `WebReturnsRow::get_wr_returning_customer_sk` returns for `row`.
pub uninterp spec fn spec_web_returns_returning_customer_sk(row: WebReturnsRow) -> i64;

/// Calls `WebReturnsRow::get_wr_returning_customer_sk`: a field of the row, named
/// `spec_web_returns_returning_customer_sk`.
#[verifier::external_body]
fn web_returns_returning_customer_sk(r: &WebReturnsRow) -> (v: i64)
    ensures
        v == spec_web_returns_returning_customer_sk(*r),
{
    r.get_wr_returning_customer_sk()
}

/// The value that `WebReturnsRow::get_wr_returning_cdemo_sk` returns for `row`.
pub uninterp spec fn spec_web_returns_returning_cdemo_sk(row: WebReturnsRow) -> i64;

/// Calls `WebReturnsRow::get_wr_returning_cdemo_sk`: a field of the row, named
/// `spec_web_returns_returning_cdemo_sk`.
#[verifier::external_body]
fn web_returns_returning_cdemo_sk(r: &WebReturnsRow) -> (v: i64)
    ensures
        v == spec_web_returns_returning_cdemo_sk(*r),
{
    r.get_wr_returning_cdemo_sk()
}

/// The value that `WebReturnsRow::get_wr_returning_hdemo_sk` returns for `row`.
pub uninterp spec fn spec_web_returns_returning_hdemo_sk(row: WebReturnsRow) -> i64;

/// Calls `WebReturnsRow::get_wr_returning_hdemo_sk`: a field of the row, named
/// `spec_web_returns_returning_hdemo_sk`.
#[verifier::external_body]
fn web_returns_returning_hdemo_sk(r: &WebReturnsRow) -> (v: i64)
    ensures
        v == spec_web_returns_returning_hdemo_sk(*r),
{
    r.get_wr_returning_hdemo_sk()
}

/// The value that `WebReturnsRow::get_wr_returning_addr_sk` returns for `row`.
pub uninterp spec fn spec_web_returns_returning_addr_sk(row: WebReturnsRow) -> i64;

/// Calls `WebReturnsRow::get_wr_returning_addr_sk`: a field of the row, named
/// `spec_web_returns_returning_addr_sk`.
#[verifier::external_body]
fn web_returns_returning_addr_sk(r: &WebReturnsRow) -> (v: i64)
    ensures
        v == spec_web_returns_returning_addr_sk(*r),
{
    r.get_wr_returning_addr_sk()
}

/// The value that `WebReturnsRow::get_wr_web_page_sk` returns for `row`.
pub uninterp spec fn spec_web_returns_web_page_sk(row: WebReturnsRow) -> i64;

/// Calls `WebReturnsRow::get_wr_web_page_sk`: a field of the row, named
/// `spec_web_returns_web_page_sk`.
#[verifier::external_body]
fn web_returns_web_page_sk(r: &WebReturnsRow) -> (v: i64)
    ensures
        v == spec_web_returns_web_page_sk(*r),
{
    r.get_wr_web_page_sk()
}

/// The value that `WebReturnsRow::get_wr_reason_sk` returns for `row`.
pub uninterp spec fn spec_web_returns_reason_sk(row: WebReturnsRow) -> i64;

/// Calls `WebReturnsRow::get_wr_reason_sk`: a field of the row, named
/// `spec_web_returns_reason_sk`.
#[verifier::external_body]
fn web_returns_reason_sk(r: &WebReturnsRow) -> (v: i64)
    ensures
        v == spec_web_returns_reason_sk(*r),
{
    r.get_wr_reason_sk()
}

/// The value that `WebReturnsRow::get_wr_order_number` returns for `row`.
pub uninterp spec fn spec_web_returns_order_number(row: WebReturnsRow) -> i64;

/// Calls `WebReturnsRow::get_wr_order_number`: a field of the row, named
/// `spec_web_returns_order_number`.
#[verifier::external_body]
fn web_returns_order_number(r: &WebReturnsRow) -> (v: i64)
    ensures
        v == spec_web_returns_order_number(*r),
{
    r.get_wr_order_number()
}

/// The pricing that `WebReturnsRow::get_wr_pricing` returns for `row`.
pub uninterp spec fn spec_web_returns_pricing(row: WebReturnsRow) -> Pricing;

/// Calls `WebReturnsRow::get_wr_pricing`: a field of the row, named `spec_web_returns_pricing`.
#[verifier::external_body]
fn web_returns_pricing(r: &WebReturnsRow) -> (v: &Pricing)
    ensures
        *v == spec_web_returns_pricing(*r),
{
    r.get_wr_pricing()
}

/// Whether `r` holds the values of the generated row `row`, field by field
/// (each decimal as its unscaled digits).
pub open spec fn spec_web_returns_record_matches(r: WebReturnsRecord, row: WebReturnsRow) -> bool {
    &&& r.null_bit_map == spec_web_returns_null_bit_map(row)
    &&& r.returned_date_sk == spec_web_returns_returned_date_sk(row)
    &&& r.returned_time_sk == spec_web_returns_returned_time_sk(row)
    &&& r.item_sk == spec_web_returns_item_sk(row)
    &&& r.refunded_customer_sk == spec_web_returns_refunded_customer_sk(row)
    &&& r.refunded_cdemo_sk == spec_web_returns_refunded_cdemo_sk(row)
    &&& r.refunded_hdemo_sk == spec_web_returns_refunded_hdemo_sk(row)
    &&& r.refunded_addr_sk == spec_web_returns_refunded_addr_sk(row)
    &&& r.returning_customer_sk == spec_web_returns_returning_customer_sk(row)
    &&& r.returning_cdemo_sk == spec_web_returns_returning_cdemo_sk(row)
    &&& r.returning_hdemo_sk == spec_web_returns_returning_hdemo_sk(row)
    &&& r.returning_addr_sk == spec_web_returns_returning_addr_sk(row)
    &&& r.web_page_sk == spec_web_returns_web_page_sk(row)
    &&& r.reason_sk == spec_web_returns_reason_sk(row)
    &&& r.order_number == spec_web_returns_order_number(row)
    &&& r.pricing == spec_pricing_record(spec_web_returns_pricing(row))
}

/// Whether `records` hold the values of `rows`, one record per row, in order.
pub open spec fn spec_web_returns_records_match(records: Seq<WebReturnsRecord>, rows: Seq<WebReturnsRow>) -> bool {
    &&& records.len() == rows.len()
    &&& forall|i: int|
        0 <= i < records.len() ==> #[trigger] spec_web_returns_record_matches(records[i], rows[i])
}

/// Read the values of a generated `web_returns` row.
pub fn web_returns_record(row: &WebReturnsRow) -> (r: WebReturnsRecord)
    ensures
        spec_web_returns_record_matches(r, *row),
{
    WebReturnsRecord {
        null_bit_map: web_returns_null_bit_map(row),
        returned_date_sk: web_returns_returned_date_sk(row),
        returned_time_sk: web_returns_returned_time_sk(row),
        item_sk: web_returns_item_sk(row),
        refunded_customer_sk: web_returns_refunded_customer_sk(row),
        refunded_cdemo_sk: web_returns_refunded_cdemo_sk(row),
        refunded_hdemo_sk: web_returns_refunded_hdemo_sk(row),
        refunded_addr_sk: web_returns_refunded_addr_sk(row),
        returning_customer_sk: web_returns_returning_customer_sk(row),
        returning_cdemo_sk: web_returns_returning_cdemo_sk(row),
        returning_hdemo_sk: web_returns_returning_hdemo_sk(row),
        returning_addr_sk: web_returns_returning_addr_sk(row),
        web_page_sk: web_returns_web_page_sk(row),
        reason_sk: web_returns_reason_sk(row),
        order_number: web_returns_order_number(row),
        pricing: pricing_record(web_returns_pricing(row)),
    }
}

/// The rows that a `WebReturnsRowGenerator` of `session` yields for source row `row_number`:
/// the returns of the line items of that web sales order, in order (there may be none). The
/// generator fast-forwards its random number streams to a source row, so what a source row
/// yields depends on the session and the row number alone.
pub uninterp spec fn spec_web_returns_source_row(session: Session, row_number: nat) -> Seq<WebReturnsRow>;

/// The rows that `generator` has still to yield, in order.
pub uninterp spec fn spec_web_returns_pending(generator: WebReturnsRowGenerator) -> Seq<WebReturnsRow>;

/// The session that `generator` holds.
pub uninterp spec fn spec_web_returns_session(generator: WebReturnsRowGenerator) -> Session;

/// The last source row that `generator` generates (its row count, after any clamping by a
/// range).
pub uninterp spec fn spec_web_returns_end(generator: WebReturnsRowGenerator) -> u64;

/// Whether no source row of `generator` is partly yielded: it is about to start a source row,
/// or has none left.
pub uninterp spec fn spec_web_returns_between_rows(generator: WebReturnsRowGenerator) -> bool;

/// Whether `generator` holds no partly yielded source row past its last source row (a skip or a
/// range taken in the middle of a source row can leave it so).
pub uninterp spec fn spec_web_returns_consistent(generator: WebReturnsRowGenerator) -> bool;

/// The rows that a generator of `session` yields for source rows `start..=end`: those of each
/// source row, in row order.
pub open spec fn spec_web_returns_source_rows(session: Session, start: int, end: int) -> Seq<WebReturnsRow>
    decreases end + 1 - start,
{
    if end < start {
        Seq::empty()
    } else {
        spec_web_returns_source_rows(session, start, end - 1) + spec_web_returns_source_row(session, end as nat)
    }
}

/// The row count of `WebSales` at the scaling of `session`: the source rows of a reader of the
/// table.
pub open spec fn spec_web_returns_table_rows(session: Session) -> u64 {
    spec_scaling_row_count(spec_session_scaling(session), spec_values_index(Table::WebSales))
}

/// Calls `WebReturnsRowGenerator::new`: a generator of the source rows `1..=row_count` of
/// `session`, about to start source row 1. An order has at most 16 line items, so at most 16
/// returns.
#[verifier::external_body]
fn web_returns_generator(session: Session, row_count: u64) -> (generator: WebReturnsRowGenerator)
    ensures
        spec_web_returns_session(generator) == session,
        spec_web_returns_end(generator) == row_count,
        spec_web_returns_between_rows(generator),
        spec_web_returns_consistent(generator),
        spec_web_returns_pending(generator) == spec_web_returns_source_rows(session, 1, row_count as int)
            && forall|n: nat| 1 <= n <= row_count ==> #[trigger] spec_web_returns_source_row(session, n).len() <= 16,
{
    WebReturnsRowGenerator::new(session, row_count)
}

/// Calls `WebReturnsRowGenerator::skip_rows_until_starting_row_number`: the generator goes on
/// at source row `starting_row_number` and still ends at its last source row. The rows to come
/// are stated when no source row is partly yielded (in the middle of a source row the source
/// keeps that row's remaining line items). The starting row is at least 1 (row 0 has no key)
/// and at most [`MAX_STARTING_ROW_NUMBER`] (the fast-forward multiplies it by the seeds per row
/// in a `u64`).
#[verifier::external_body]
fn web_returns_skip(generator: &mut WebReturnsRowGenerator, starting_row_number: u64)
    requires
        1 <= starting_row_number <= MAX_STARTING_ROW_NUMBER,
    ensures
        spec_web_returns_session(*final(generator)) == spec_web_returns_session(*old(generator)),
        spec_web_returns_end(*final(generator)) == spec_web_returns_end(*old(generator)),
        spec_web_returns_between_rows(*old(generator)) ==> spec_web_returns_pending(*final(generator)) == spec_web_returns_source_rows(
            spec_web_returns_session(*old(generator)),
            starting_row_number as int,
            spec_web_returns_end(*final(generator)) as int,
        ) && spec_web_returns_between_rows(
            *final(generator),
        ) && spec_web_returns_consistent(*final(generator)),
{
    generator.skip_rows_until_starting_row_number(starting_row_number)
}

/// Calls `WebReturnsRowGenerator::set_source_row_range`: the generator goes on at source row
/// `starting_row_number` and ends at `ending_row_number`, clamped to its last source row. The
/// rows to come, and the bounds on the starting row, are as for `web_returns_skip`.
#[verifier::external_body]
fn web_returns_set_range(generator: &mut WebReturnsRowGenerator, starting_row_number: u64, ending_row_number: u64)
    requires
        1 <= starting_row_number <= MAX_STARTING_ROW_NUMBER,
    ensures
        spec_web_returns_session(*final(generator)) == spec_web_returns_session(*old(generator)),
        spec_web_returns_end(*final(generator)) == if ending_row_number < spec_web_returns_end(*old(generator)) {
            ending_row_number
        } else {
            spec_web_returns_end(*old(generator))
        },
        spec_web_returns_between_rows(*old(generator)) ==> spec_web_returns_pending(*final(generator)) == spec_web_returns_source_rows(
            spec_web_returns_session(*old(generator)),
            starting_row_number as int,
            spec_web_returns_end(*final(generator)) as int,
        ) && spec_web_returns_between_rows(
            *final(generator),
        ) && spec_web_returns_consistent(*final(generator)),
{
    generator.set_source_row_range(starting_row_number, ending_row_number)
}

/// Calls `Iterator::next` of `WebReturnsRowGenerator`: the first of the rows still to come,
/// which it then no longer holds, or `None` when none is left. Its session and last source row
/// stay. A consistent generator stays so, and one that has nothing left has finished its last
/// source row.
#[verifier::external_body]
fn web_returns_next(generator: &mut WebReturnsRowGenerator) -> (row: Option<WebReturnsRow>)
    ensures
        spec_web_returns_session(*final(generator)) == spec_web_returns_session(*old(generator)),
        spec_web_returns_end(*final(generator)) == spec_web_returns_end(*old(generator)),
        spec_web_returns_pending(*old(generator)).len() == 0 ==> row is None && spec_web_returns_pending(
            *final(generator),
        ) == spec_web_returns_pending(*old(generator)),
        spec_web_returns_pending(*old(generator)).len() > 0 ==> row == Some(
            spec_web_returns_pending(*old(generator))[0],
        ) && spec_web_returns_pending(*final(generator)) == spec_web_returns_pending(
            *old(generator),
        ).drop_first(),
        spec_web_returns_consistent(*old(generator)) ==> spec_web_returns_consistent(*final(generator)),
        spec_web_returns_consistent(*old(generator)) && row is None ==> spec_web_returns_between_rows(*final(generator)),
{
    generator.next()
}

/// Generating source rows `start..=mid` and then `mid + 1..=end` yields the rows of generating
/// `start..=end`: none is lost or repeated at the boundary.
pub proof fn law_web_returns_source_rows_concatenate(session: Session, start: int, mid: int, end: int)
    requires
        start <= mid + 1,
        mid <= end,
    ensures
        spec_web_returns_source_rows(session, start, end) == spec_web_returns_source_rows(session, start, mid)
            + spec_web_returns_source_rows(session, mid + 1, end),
    decreases end - mid,
{
    if end == mid {
        assert(spec_web_returns_source_rows(session, mid + 1, end) =~= Seq::empty());
        assert(spec_web_returns_source_rows(session, start, mid) + Seq::empty()
            =~= spec_web_returns_source_rows(session, start, mid));
    } else {
        law_web_returns_source_rows_concatenate(session, start, mid, end - 1);
        assert(spec_web_returns_source_rows(session, start, end) =~= spec_web_returns_source_rows(
            session,
            start,
            mid,
        ) + spec_web_returns_source_rows(session, mid + 1, end));
    }
}

/// The rows of generating each of `ranges` in turn, in order.
pub open spec fn spec_web_returns_ranges_rows(session: Session, ranges: Seq<RowRange>) -> Seq<WebReturnsRow>
    decreases ranges.len(),
{
    if ranges.len() == 0 {
        Seq::empty()
    } else {
        spec_web_returns_ranges_rows(session, ranges.drop_last()) + spec_web_returns_source_rows(
            session,
            ranges.last().start as int,
            ranges.last().end as int,
        )
    }
}

/// Non-empty ranges that follow each other without gap generate, in turn, the rows of the span
/// from the first start to the last end.
proof fn lemma_web_returns_chained_ranges(session: Session, ranges: Seq<RowRange>)
    requires
        ranges.len() > 0,
        forall|i: int| 0 <= i < ranges.len() ==> #[trigger] ranges[i].start <= ranges[i].end,
        forall|i: int| 0 <= i < ranges.len() - 1 ==> #[trigger] ranges[i + 1].start == ranges[i].end + 1,
    ensures
        ranges[0].start <= ranges.last().end,
        spec_web_returns_ranges_rows(session, ranges) == spec_web_returns_source_rows(
            session,
            ranges[0].start as int,
            ranges.last().end as int,
        ),
    decreases ranges.len(),
{
    let last = ranges.last();
    if ranges.len() == 1 {
        assert(ranges.drop_last().len() == 0);
        assert(spec_web_returns_ranges_rows(session, ranges.drop_last()) =~= Seq::empty());
        assert(spec_web_returns_ranges_rows(session, ranges) =~= spec_web_returns_source_rows(
            session,
            last.start as int,
            last.end as int,
        ));
    } else {
        let front = ranges.drop_last();
        assert forall|i: int| 0 <= i < front.len() implies #[trigger] front[i].start <= front[i].end by {
            assert(front[i] == ranges[i]);
        }
        assert forall|i: int| 0 <= i < front.len() - 1 implies #[trigger] front[i + 1].start
            == front[i].end + 1 by {
            assert(front[i] == ranges[i]);
            assert(front[i + 1] == ranges[i + 1]);
        }
        lemma_web_returns_chained_ranges(session, front);
        let k = ranges.len() - 2;
        assert(front.last() == ranges[k]);
        assert(front[0] == ranges[0]);
        assert(ranges[k + 1].start == ranges[k].end + 1);
        law_web_returns_source_rows_concatenate(
            session,
            ranges[0].start as int,
            ranges[k].end as int,
            last.end as int,
        );
    }
}

/// Ranges that cover source rows `1..=rows` (as a plan's row groups do, see
/// `law_plan_covers_source_rows`) generate, one after the other, exactly the rows of all `rows`
/// source rows: readers ranged over them, concatenated, give the rows of the unranged reader.
pub proof fn law_web_returns_covering_ranges_concatenate(session: Session, ranges: Seq<RowRange>, rows: nat)
    requires
        spec_covers(ranges, rows),
    ensures
        spec_web_returns_ranges_rows(session, ranges) == spec_web_returns_source_rows(session, 1, rows as int),
{
    lemma_web_returns_chained_ranges(session, ranges);
}

/// Generation is deterministic: readers of equal sessions over the same source rows, at the
/// same batch size, hand out the same batches.
pub proof fn law_web_returns_equal_sessions_equal_batches(
    first: Session,
    second: Session,
    start: int,
    end: int,
    batch_size: nat,
)
    requires
        first == second,
    ensures
        spec_batches(spec_web_returns_source_rows(first, start, end), batch_size) == spec_batches(
            spec_web_returns_source_rows(second, start, end),
            batch_size,
        ),
{
}

/// Skipping to source row `start` leaves the rows that a range `start..=ending_row_number`
/// leaves, for any ending row number at or past the last source row `end`.
pub proof fn law_web_returns_skip_is_range_to_the_end(session: Session, start: int, end: u64, ending_row_number: u64)
    requires
        end <= ending_row_number,
    ensures
        spec_web_returns_source_rows(session, start, end as int) == spec_web_returns_source_rows(
            session,
            start,
            (if ending_row_number < end {
                ending_row_number
            } else {
                end
            }) as int,
        ),
{
}

/// Generates the `web_returns` table as record batches of at most `batch_size` rows, each batch
/// as its columns of cells.
pub struct WebReturnsArrow {
    generator: WebReturnsRowGenerator,
    batch_size: usize,
}

impl WebReturnsArrow {
    /// The number of rows per batch.
    pub closed spec fn spec_batch_size(&self) -> usize {
        self.batch_size
    }

    /// The rows the reader's generator has still to yield, in order.
    pub closed spec fn spec_pending(&self) -> Seq<WebReturnsRow> {
        spec_web_returns_pending(self.generator)
    }

    /// The session the reader generates from.
    pub closed spec fn spec_session(&self) -> Session {
        spec_web_returns_session(self.generator)
    }

    /// The last source row the reader generates.
    pub closed spec fn spec_end(&self) -> u64 {
        spec_web_returns_end(self.generator)
    }

    /// Whether a skip or a range on the reader yields exactly the source rows asked for: when
    /// no source row is partly read.
    pub closed spec fn spec_at_row_start(&self) -> bool {
        spec_web_returns_between_rows(self.generator) && spec_web_returns_consistent(self.generator)
    }

    /// Whether the reader reaches a source row boundary once it has handed out all its rows.
    pub closed spec fn spec_steady(&self) -> bool {
        spec_web_returns_consistent(self.generator)
    }

    /// A reader of all the table's rows at the scale of `session`, in batches of
    /// [`DEFAULT_BATCH_SIZE`] rows: its generator yields the rows of source rows `1..=n`, where
    /// `n` is the row count of `WebSales` at the session's scaling.
    pub fn new(session: Session) -> (reader: Self)
        ensures
            reader.spec_batch_size() == DEFAULT_BATCH_SIZE,
            reader.spec_session() == session,
            reader.spec_end() == spec_web_returns_table_rows(session),
            reader.spec_at_row_start(),
            reader.spec_steady(),
            reader.spec_pending() == spec_web_returns_source_rows(
                session,
                1,
                spec_web_returns_table_rows(session) as int,
            ),
            forall|n: nat| 1 <= n <= spec_web_returns_table_rows(session) ==> #[trigger] spec_web_returns_source_row(session, n).len() <= 16,
    {
        let row_count = scaling_row_count(session_scaling(&session), Table::WebSales.values_index());
        WebReturnsArrow { generator: web_returns_generator(session, row_count), batch_size: DEFAULT_BATCH_SIZE }
    }

    /// Start generating at source row `starting_row_number` (1-based); the generator still ends
    /// at its last source row. When a skip yields exactly the rows asked for (see
    /// `spec_at_row_start`), the rows to come are those of source rows
    /// `starting_row_number..=end`.
    pub fn skip_rows_until_starting_row_number(&mut self, starting_row_number: u64)
        requires
            1 <= starting_row_number <= MAX_STARTING_ROW_NUMBER,
        ensures
            final(self).spec_batch_size() == old(self).spec_batch_size(),
            final(self).spec_session() == old(self).spec_session(),
            final(self).spec_end() == old(self).spec_end(),
            old(self).spec_at_row_start() ==> final(self).spec_pending() == spec_web_returns_source_rows(
                old(self).spec_session(),
                starting_row_number as int,
                old(self).spec_end() as int,
            ),
            old(self).spec_at_row_start() ==> final(self).spec_at_row_start() && final(self).spec_steady(),
    {
        web_returns_skip(&mut self.generator, starting_row_number);
    }

    /// Generate only source rows `starting_row_number..=ending_row_number` (1-based,
    /// inclusive). The ending row number is clamped to the table's row count.
    pub fn with_source_row_range(self, starting_row_number: u64, ending_row_number: u64) -> (reader: Self)
        requires
            1 <= starting_row_number <= MAX_STARTING_ROW_NUMBER,
        ensures
            reader.spec_batch_size() == self.spec_batch_size(),
            reader.spec_session() == self.spec_session(),
            reader.spec_end() == if ending_row_number < self.spec_end() {
                ending_row_number
            } else {
                self.spec_end()
            },
            self.spec_at_row_start() ==> reader.spec_pending() == spec_web_returns_source_rows(
                self.spec_session(),
                starting_row_number as int,
                reader.spec_end() as int,
            ),
            self.spec_at_row_start() ==> reader.spec_at_row_start() && reader.spec_steady(),
    {
        let mut reader = self;
        web_returns_set_range(&mut reader.generator, starting_row_number, ending_row_number);
        reader
    }

    /// Use batches of `batch_size` rows.
    pub fn with_batch_size(self, batch_size: usize) -> (reader: Self)
        ensures
            reader.spec_batch_size() == batch_size,
            reader.spec_pending() == self.spec_pending(),
            reader.spec_session() == self.spec_session(),
            reader.spec_end() == self.spec_end(),
            reader.spec_at_row_start() == self.spec_at_row_start(),
            reader.spec_steady() == self.spec_steady(),
    {
        let mut reader = self;
        reader.batch_size = batch_size;
        reader
    }

    /// The number of rows per batch.
    pub fn batch_size(&self) -> (n: usize)
        ensures
            n == self.spec_batch_size(),
    {
        self.batch_size
    }

    /// The schema of the batches.
    pub fn schema(&self) -> (schema: Vec<ColumnSpec>)
        ensures
            spec_schema_view(schema@) == spec_web_returns_schema(),
    {
        web_returns_schema()
    }

    /// The number of rows the next batch takes: the batch size, or all the rows still to come
    /// when fewer are left.
    pub open spec fn spec_next_count(&self) -> int {
        spec_batch_take(self.spec_pending().len(), self.spec_batch_size() as nat) as int
    }

    /// The next rows of the generator: a full batch of them, or all that are left once fewer
    /// remain. They are no longer to come afterwards.
    pub fn next_records(&mut self) -> (records: Vec<WebReturnsRecord>)
        ensures
            spec_web_returns_records_match(
                records@,
                old(self).spec_pending().take(old(self).spec_next_count()),
            ),
            final(self).spec_pending() == old(self).spec_pending().skip(
                old(self).spec_next_count(),
            ),
            final(self).spec_batch_size() == old(self).spec_batch_size(),
            final(self).spec_session() == old(self).spec_session(),
            final(self).spec_end() == old(self).spec_end(),
            old(self).spec_batch_size() == 0 ==> final(self).spec_at_row_start() == old(self).spec_at_row_start(),
            old(self).spec_steady() ==> final(self).spec_steady(),
            old(self).spec_steady() && old(self).spec_batch_size() > old(self).spec_pending().len()
                ==> final(self).spec_at_row_start(),
    {
        let batch_size = self.batch_size;
        let ghost pending = self.spec_pending();
        let ghost session = self.spec_session();
        let ghost end = self.spec_end();
        let ghost at_start = self.spec_at_row_start();
        let ghost steady = self.spec_steady();
        let mut records: Vec<WebReturnsRecord> = Vec::new();
        while records.len() < batch_size
            invariant_except_break
                self.batch_size == batch_size,
                records.len() <= batch_size,
                records.len() <= pending.len(),
                self.spec_pending() == pending.skip(records.len() as int),
                spec_web_returns_records_match(records@, pending.take(records.len() as int)),
                self.spec_session() == session,
                self.spec_end() == end,
                records.len() == 0 ==> self.spec_at_row_start() == at_start,
                steady ==> self.spec_steady(),
            ensures
                self.batch_size == batch_size,
                records.len() == (if batch_size <= pending.len() {
                    batch_size as int
                } else {
                    pending.len() as int
                }),
                self.spec_pending() == pending.skip(records.len() as int),
                spec_web_returns_records_match(records@, pending.take(records.len() as int)),
                self.spec_session() == session,
                self.spec_end() == end,
                batch_size == 0 ==> self.spec_at_row_start() == at_start,
                steady ==> self.spec_steady(),
                steady && batch_size > pending.len() ==> self.spec_at_row_start(),
            decreases batch_size - records.len(),
        {
            let ghost done = records.len() as int;
            match web_returns_next(&mut self.generator) {
                Some(row) => {
                    let record = web_returns_record(&row);
                    records.push(record);
                    proof {
                        assert(pending.skip(done)[0] == pending[done]);
                        assert(pending.skip(done).drop_first() =~= pending.skip(done + 1));
                        assert forall|i: int| 0 <= i < records.len() implies #[trigger]
                            spec_web_returns_record_matches(records@[i], pending.take(done + 1)[i]) by {
                            if i < done {
                                assert(pending.take(done)[i] == pending.take(done + 1)[i]);
                            }
                        }
                    }
                },
                None => {
                    break;
                },
            }
        }
        records
    }

    /// The next record batch, as its columns: the next rows of the generator, a full batch of
    /// them or all that are left once fewer remain; `None` when no row is left (or batches hold
    /// no rows). Called until it gives `None`, a reader hands out, in order, the batches
    /// `spec_batches` cuts its rows into (see `law_batches_concatenate` and
    /// `law_batch_count_and_sizes`).
    pub fn next_batch(&mut self) -> (batch: Option<Vec<Vec<Cell>>>)
        ensures
            batch is None <==> old(self).spec_next_count() == 0,
            batch matches Some(columns) ==> spec_columns_view(columns@) == spec_columns(
                spec_web_returns_rows_of(old(self).spec_pending().take(old(self).spec_next_count())),
                WEB_RETURNS_COLUMNS as nat,
            ),
            batch is Some ==> spec_batches(old(self).spec_pending(), old(self).spec_batch_size() as nat)
                == seq![old(self).spec_pending().take(old(self).spec_next_count())] + spec_batches(
                final(self).spec_pending(),
                old(self).spec_batch_size() as nat,
            ),
            final(self).spec_pending() == old(self).spec_pending().skip(
                old(self).spec_next_count(),
            ),
            final(self).spec_batch_size() == old(self).spec_batch_size(),
            final(self).spec_session() == old(self).spec_session(),
            final(self).spec_end() == old(self).spec_end(),
            old(self).spec_batch_size() == 0 ==> final(self).spec_at_row_start() == old(self).spec_at_row_start(),
            old(self).spec_steady() ==> final(self).spec_steady(),
            old(self).spec_steady() && old(self).spec_batch_size() > old(self).spec_pending().len()
                ==> final(self).spec_at_row_start(),
    {
        let ghost pending = self.spec_pending();
        let ghost rows = self.spec_pending().take(self.spec_next_count());
        let records = self.next_records();
        if records.len() == 0 {
            return None;
        }
        proof {
            lemma_web_returns_matching_records_cells(records@, rows);
            lemma_batches_unfold(pending, self.batch_size as nat);
        }
        Some(web_returns_columns(&records))
    }
}

} // verus!
