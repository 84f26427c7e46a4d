//! The `catalog_sales` table: its rows as plain records, the cells of each row,
//! the table schema, and the batch reader over the row generator.
use crate::column::{
    column, rows_to_columns, spec_columns, spec_columns_view, spec_row_conforms, spec_row_view,
    spec_schema_view, Cell, CellValue, ColumnSpec, ColumnType, DEFAULT_BATCH_SIZE,
};
use crate::conversions::{
    integer_sk_opt, opt, spec_integer_sk_opt, spec_is_null, spec_opt,
};
use crate::pricing::{pricing_record, spec_pricing_record, PricingRecord};
use crate::batching::{lemma_batches_unfold, spec_batch_take, spec_batches};
use crate::plan::{spec_covers, RowRange, MAX_STARTING_ROW_NUMBER};
use crate::table::{spec_values_index, Table};
use crate::tpcds::{scaling_row_count, session_scaling, spec_scaling_row_count, spec_session_scaling};
use tpcdsgen::config::Session;
use tpcdsgen::row::{CatalogSalesRowGenerator, CatalogSalesRow};
use tpcdsgen::types::Pricing;
use vstd::prelude::*;

verus! {

#[verifier::external_type_specification]
#[verifier::external_body]
pub struct ExCatalogSalesRow(CatalogSalesRow);

#[verifier::external_type_specification]
#[verifier::external_body]
pub struct ExCatalogSalesRowGenerator(CatalogSalesRowGenerator);

/// The number of columns of the `catalog_sales` table.
pub const CATALOG_SALES_COLUMNS: usize = 34;

/// The values of one generated `catalog_sales` row.
#[derive(Clone, Debug)]
pub struct CatalogSalesRecord {
    /// Bit `i` set: column `i` is null.
    pub null_bit_map: i64,
    pub sold_date_sk: i64,
    pub sold_time_sk: i64,
    pub ship_date_sk: i64,
    pub bill_customer_sk: i64,
    pub bill_cdemo_sk: i64,
    pub bill_hdemo_sk: i64,
    pub bill_addr_sk: i64,
    pub ship_customer_sk: i64,
    pub ship_cdemo_sk: i64,
    pub ship_hdemo_sk: i64,
    pub ship_addr_sk: i64,
    pub call_center_sk: i64,
    pub catalog_page_sk: i64,
    pub ship_mode_sk: i64,
    pub warehouse_sk: i64,
    pub sold_item_sk: i64,
    pub promo_sk: i64,
    pub order_number: i64,
    pub pricing: PricingRecord,
}

/// The schema of the `catalog_sales` table: column names, types and nullability.
pub open spec fn spec_catalog_sales_schema() -> Seq<(Seq<char>, ColumnType, bool)> {
    seq![
        ("cs_sold_date_sk"@, ColumnType::Int32, true),
        ("cs_sold_time_sk"@, ColumnType::Int32, true),
        ("cs_ship_date_sk"@, ColumnType::Int32, true),
        ("cs_bill_customer_sk"@, ColumnType::Int32, true),
        ("cs_bill_cdemo_sk"@, ColumnType::Int32, true),
        ("cs_bill_hdemo_sk"@, ColumnType::Int32, true),
        ("cs_bill_addr_sk"@, ColumnType::Int32, true),
        ("cs_ship_customer_sk"@, ColumnType::Int32, true),
        ("cs_ship_cdemo_sk"@, ColumnType::Int32, true),
        ("cs_ship_hdemo_sk"@, ColumnType::Int32, true),
        ("cs_ship_addr_sk"@, ColumnType::Int32, true),
        ("cs_call_center_sk"@, ColumnType::Int32, true),
        ("cs_catalog_page_sk"@, ColumnType::Int32, true),
        ("cs_ship_mode_sk"@, ColumnType::Int32, true),
        ("cs_warehouse_sk"@, ColumnType::Int32, true),
        ("cs_item_sk"@, ColumnType::Int32, false),
        ("cs_promo_sk"@, ColumnType::Int32, true),
        ("cs_order_number"@, ColumnType::Int64, false),
        ("cs_quantity"@, ColumnType::Int32, true),
        ("cs_wholesale_cost"@, ColumnType::Decimal128 { precision: 7, scale: 2 }, true),
        ("cs_list_price"@, ColumnType::Decimal128 { precision: 7, scale: 2 }, true),
        ("cs_sales_price"@, ColumnType::Decimal128 { precision: 7, scale: 2 }, true),
        ("cs_ext_discount_amt"@, ColumnType::Decimal128 { precision: 7, scale: 2 }, true),
        ("cs_ext_sales_price"@, ColumnType::Decimal128 { precision: 7, scale: 2 }, true),
        ("cs_ext_wholesale_cost"@, ColumnType::Decimal128 { precision: 7, scale: 2 }, true),
        ("cs_ext_list_price"@, ColumnType::Decimal128 { precision: 7, scale: 2 }, true),
        ("cs_ext_tax"@, ColumnType::Decimal128 { precision: 7, scale: 2 }, true),
        ("cs_coupon_amt"@, ColumnType::Decimal128 { precision: 7, scale: 2 }, true),
        ("cs_ext_ship_cost"@, ColumnType::Decimal128 { precision: 7, scale: 2 }, true),
        ("cs_net_paid"@, ColumnType::Decimal128 { precision: 7, scale: 2 }, true),
        ("cs_net_paid_inc_tax"@, ColumnType::Decimal128 { precision: 7, scale: 2 }, true),
        ("cs_net_paid_inc_ship"@, ColumnType::Decimal128 { precision: 7, scale: 2 }, true),
        ("cs_net_paid_inc_ship_tax"@, ColumnType::Decimal128 { precision: 7, scale: 2 }, true),
        ("cs_net_profit"@, ColumnType::Decimal128 { precision: 7, scale: 2 }, true),
    ]
}

/// The schema of the `catalog_sales` table.
pub fn catalog_sales_schema() -> (schema: Vec<ColumnSpec>)
    ensures
        spec_schema_view(schema@) == spec_catalog_sales_schema(),
{
    let mut schema: Vec<ColumnSpec> = Vec::new();
    schema.push(column("cs_sold_date_sk", ColumnType::Int32, true));
    schema.push(column("cs_sold_time_sk", ColumnType::Int32, true));
    schema.push(column("cs_ship_date_sk", ColumnType::Int32, true));
    schema.push(column("cs_bill_customer_sk", ColumnType::Int32, true));
    schema.push(column("cs_bill_cdemo_sk", ColumnType::Int32, true));
    schema.push(column("cs_bill_hdemo_sk", ColumnType::Int32, true));
    schema.push(column("cs_bill_addr_sk", ColumnType::Int32, true));
    schema.push(column("cs_ship_customer_sk", ColumnType::Int32, true));
    schema.push(column("cs_ship_cdemo_sk", ColumnType::Int32, true));
    schema.push(column("cs_ship_hdemo_sk", ColumnType::Int32, true));
    schema.push(column("cs_ship_addr_sk", ColumnType::Int32, true));
    schema.push(column("cs_call_center_sk", ColumnType::Int32, true));
    schema.push(column("cs_catalog_page_sk", ColumnType::Int32, true));
    schema.push(column("cs_ship_mode_sk", ColumnType::Int32, true));
    schema.push(column("cs_warehouse_sk", ColumnType::Int32, true));
    schema.push(column("cs_item_sk", ColumnType::Int32, false));
    schema.push(column("cs_promo_sk", ColumnType::Int32, true));
    schema.push(column("cs_order_number", ColumnType::Int64, false));
    schema.push(column("cs_quantity", ColumnType::Int32, true));
    schema.push(column("cs_wholesale_cost", ColumnType::Decimal128 { precision: 7, scale: 2 }, true));
    schema.push(column("cs_list_price", ColumnType::Decimal128 { precision: 7, scale: 2 }, true));
    schema.push(column("cs_sales_price", ColumnType::Decimal128 { precision: 7, scale: 2 }, true));
    schema.push(column("cs_ext_discount_amt", ColumnType::Decimal128 { precision: 7, scale: 2 }, true));
    schema.push(column("cs_ext_sales_price", ColumnType::Decimal128 { precision: 7, scale: 2 }, true));
    schema.push(column("cs_ext_wholesale_cost", ColumnType::Decimal128 { precision: 7, scale: 2 }, true));
    schema.push(column("cs_ext_list_price", ColumnType::Decimal128 { precision: 7, scale: 2 }, true));
    schema.push(column("cs_ext_tax", ColumnType::Decimal128 { precision: 7, scale: 2 }, true));
    schema.push(column("cs_coupon_amt", ColumnType::Decimal128 { precision: 7, scale: 2 }, true));
    schema.push(column("cs_ext_ship_cost", ColumnType::Decimal128 { precision: 7, scale: 2 }, true));
    schema.push(column("cs_net_paid", ColumnType::Decimal128 { precision: 7, scale: 2 }, true));
    schema.push(column("cs_net_paid_inc_tax", ColumnType::Decimal128 { precision: 7, scale: 2 }, true));
    schema.push(column("cs_net_paid_inc_ship", ColumnType::Decimal128 { precision: 7, scale: 2 }, true));
    schema.push(column("cs_net_paid_inc_ship_tax", ColumnType::Decimal128 { precision: 7, scale: 2 }, true));
    schema.push(column("cs_net_profit", ColumnType::Decimal128 { precision: 7, scale: 2 }, true));
    assert(spec_schema_view(schema@) =~= spec_catalog_sales_schema());
    schema
}

/// The cells of a `catalog_sales` row, in schema order.
pub open spec fn spec_catalog_sales_row(r: CatalogSalesRecord) -> Seq<CellValue> {
    let nbm = r.null_bit_map;
    seq![
        CellValue::Int32(spec_integer_sk_opt(nbm, 0, r.sold_date_sk)),
        CellValue::Int32(spec_integer_sk_opt(nbm, 1, r.sold_time_sk)),
        CellValue::Int32(spec_integer_sk_opt(nbm, 2, r.ship_date_sk)),
        CellValue::Int32(spec_integer_sk_opt(nbm, 3, r.bill_customer_sk)),
        CellValue::Int32(spec_integer_sk_opt(nbm, 4, r.bill_cdemo_sk)),
        CellValue::Int32(spec_integer_sk_opt(nbm, 5, r.bill_hdemo_sk)),
        CellValue::Int32(spec_integer_sk_opt(nbm, 6, r.bill_addr_sk)),
        CellValue::Int32(spec_integer_sk_opt(nbm, 7, r.ship_customer_sk)),
        CellValue::Int32(spec_integer_sk_opt(nbm, 8, r.ship_cdemo_sk)),
        CellValue::Int32(spec_integer_sk_opt(nbm, 9, r.ship_hdemo_sk)),
        CellValue::Int32(spec_integer_sk_opt(nbm, 10, r.ship_addr_sk)),
        CellValue::Int32(spec_integer_sk_opt(nbm, 11, r.call_center_sk)),
        CellValue::Int32(spec_integer_sk_opt(nbm, 12, r.catalog_page_sk)),
        CellValue::Int32(spec_integer_sk_opt(nbm, 13, r.ship_mode_sk)),
        CellValue::Int32(spec_integer_sk_opt(nbm, 14, r.warehouse_sk)),
        CellValue::Int32(spec_integer_sk_opt(nbm, 15, r.sold_item_sk)),
        CellValue::Int32(spec_integer_sk_opt(nbm, 16, r.promo_sk)),
        CellValue::Int64(spec_opt(nbm, 17, r.order_number)),
        CellValue::Int32(spec_opt(nbm, 18, r.pricing.quantity)),
        CellValue::Decimal128(spec_opt(nbm, 19, r.pricing.wholesale_cost as i128)),
        CellValue::Decimal128(spec_opt(nbm, 20, r.pricing.list_price as i128)),
        CellValue::Decimal128(spec_opt(nbm, 21, r.pricing.sales_price as i128)),
        CellValue::Decimal128(spec_opt(nbm, 24, r.pricing.ext_discount_amount as i128)),
        CellValue::Decimal128(spec_opt(nbm, 23, r.pricing.ext_sales_price as i128)),
        CellValue::Decimal128(spec_opt(nbm, 25, r.pricing.ext_wholesale_cost as i128)),
        CellValue::Decimal128(spec_opt(nbm, 26, r.pricing.ext_list_price as i128)),
        CellValue::Decimal128(spec_opt(nbm, 27, r.pricing.ext_tax as i128)),
        CellValue::Decimal128(spec_opt(nbm, 22, r.pricing.coupon_amount as i128)),
        CellValue::Decimal128(spec_opt(nbm, 28, r.pricing.ext_ship_cost as i128)),
        CellValue::Decimal128(spec_opt(nbm, 29, r.pricing.net_paid as i128)),
        CellValue::Decimal128(spec_opt(nbm, 30, r.pricing.net_paid_including_tax as i128)),
        CellValue::Decimal128(spec_opt(nbm, 31, r.pricing.net_paid_including_shipping as i128)),
        CellValue::Decimal128(spec_opt(nbm, 32, r.pricing.net_paid_including_shipping_and_tax as i128)),
        CellValue::Decimal128(spec_opt(nbm, 33, r.pricing.net_profit as i128)),
    ]
}

/// The cells of the generated `catalog_sales` row `row`, in schema order.
pub open spec fn spec_catalog_sales_row_of(row: CatalogSalesRow) -> Seq<CellValue> {
    let nbm = spec_catalog_sales_null_bit_map(row);
    seq![
        CellValue::Int32(spec_integer_sk_opt(nbm, 0, spec_catalog_sales_sold_date_sk(row))),
        CellValue::Int32(spec_integer_sk_opt(nbm, 1, spec_catalog_sales_sold_time_sk(row))),
        CellValue::Int32(spec_integer_sk_opt(nbm, 2, spec_catalog_sales_ship_date_sk(row))),
        CellValue::Int32(spec_integer_sk_opt(nbm, 3, spec_catalog_sales_bill_customer_sk(row))),
        CellValue::Int32(spec_integer_sk_opt(nbm, 4, spec_catalog_sales_bill_cdemo_sk(row))),
        CellValue::Int32(spec_integer_sk_opt(nbm, 5, spec_catalog_sales_bill_hdemo_sk(row))),
        CellValue::Int32(spec_integer_sk_opt(nbm, 6, spec_catalog_sales_bill_addr_sk(row))),
        CellValue::Int32(spec_integer_sk_opt(nbm, 7, spec_catalog_sales_ship_customer_sk(row))),
        CellValue::Int32(spec_integer_sk_opt(nbm, 8, spec_catalog_sales_ship_cdemo_sk(row))),
        CellValue::Int32(spec_integer_sk_opt(nbm, 9, spec_catalog_sales_ship_hdemo_sk(row))),
        CellValue::Int32(spec_integer_sk_opt(nbm, 10, spec_catalog_sales_ship_addr_sk(row))),
        CellValue::Int32(spec_integer_sk_opt(nbm, 11, spec_catalog_sales_call_center_sk(row))),
        CellValue::Int32(spec_integer_sk_opt(nbm, 12, spec_catalog_sales_catalog_page_sk(row))),
        CellValue::Int32(spec_integer_sk_opt(nbm, 13, spec_catalog_sales_ship_mode_sk(row))),
        CellValue::Int32(spec_integer_sk_opt(nbm, 14, spec_catalog_sales_warehouse_sk(row))),
        CellValue::Int32(spec_integer_sk_opt(nbm, 15, spec_catalog_sales_sold_item_sk(row))),
        CellValue::Int32(spec_integer_sk_opt(nbm, 16, spec_catalog_sales_promo_sk(row))),
        CellValue::Int64(spec_opt(nbm, 17, spec_catalog_sales_order_number(row))),
        CellValue::Int32(spec_opt(nbm, 18, spec_pricing_record(spec_catalog_sales_pricing(row)).quantity)),
        CellValue::Decimal128(spec_opt(nbm, 19, spec_pricing_record(spec_catalog_sales_pricing(row)).wholesale_cost as i128)),
        CellValue::Decimal128(spec_opt(nbm, 20, spec_pricing_record(spec_catalog_sales_pricing(row)).list_price as i128)),
        CellValue::Decimal128(spec_opt(nbm, 21, spec_pricing_record(spec_catalog_sales_pricing(row)).sales_price as i128)),
        CellValue::Decimal128(spec_opt(nbm, 24, spec_pricing_record(spec_catalog_sales_pricing(row)).ext_discount_amount as i128)),
        CellValue::Decimal128(spec_opt(nbm, 23, spec_pricing_record(spec_catalog_sales_pricing(row)).ext_sales_price as i128)),
        CellValue::Decimal128(spec_opt(nbm, 25, spec_pricing_record(spec_catalog_sales_pricing(row)).ext_wholesale_cost as i128)),
        CellValue::Decimal128(spec_opt(nbm, 26, spec_pricing_record(spec_catalog_sales_pricing(row)).ext_list_price as i128)),
        CellValue::Decimal128(spec_opt(nbm, 27, spec_pricing_record(spec_catalog_sales_pricing(row)).ext_tax as i128)),
        CellValue::Decimal128(spec_opt(nbm, 22, spec_pricing_record(spec_catalog_sales_pricing(row)).coupon_amount as i128)),
        CellValue::Decimal128(spec_opt(nbm, 28, spec_pricing_record(spec_catalog_sales_pricing(row)).ext_ship_cost as i128)),
        CellValue::Decimal128(spec_opt(nbm, 29, spec_pricing_record(spec_catalog_sales_pricing(row)).net_paid as i128)),
        CellValue::Decimal128(spec_opt(nbm, 30, spec_pricing_record(spec_catalog_sales_pricing(row)).net_paid_including_tax as i128)),
        CellValue::Decimal128(spec_opt(nbm, 31, spec_pricing_record(spec_catalog_sales_pricing(row)).net_paid_including_shipping as i128)),
        CellValue::Decimal128(spec_opt(nbm, 32, spec_pricing_record(spec_catalog_sales_pricing(row)).net_paid_including_shipping_and_tax as i128)),
        CellValue::Decimal128(spec_opt(nbm, 33, spec_pricing_record(spec_catalog_sales_pricing(row)).net_profit as i128)),
    ]
}

/// The cells of the generated rows `rows`, one row each.
pub open spec fn spec_catalog_sales_rows_of(rows: Seq<CatalogSalesRow>) -> Seq<Seq<CellValue>> {{
    rows.map_values(|row: CatalogSalesRow| spec_catalog_sales_row_of(row))
}}

/// Records that hold the values of generated rows have the cells of those
/// rows.
pub proof fn lemma_catalog_sales_matching_records_cells(records: Seq<CatalogSalesRecord>, rows: Seq<CatalogSalesRow>)
    requires
        spec_catalog_sales_records_match(records, rows),
    ensures
        spec_catalog_sales_rows(records) == spec_catalog_sales_rows_of(rows),
{{
    assert forall|i: int| 0 <= i < records.len() implies spec_catalog_sales_row(records[i])
        =~= spec_catalog_sales_row_of(rows[i]) by {{
        assert(spec_catalog_sales_record_matches(records[i], rows[i]));
    }}
    assert(spec_catalog_sales_rows(records) =~= spec_catalog_sales_rows_of(rows));
}}

/// Each column of a generated `catalog_sales` row holds what the generator's accessor for that
/// column gives: column `j` is the one the schema names, filled from the row's own value for it
/// (null where the row's null bit map marks it), through the conversion its type calls for.
pub proof fn law_catalog_sales_columns_hold_their_values(row: CatalogSalesRow)
    ensures
        spec_catalog_sales_row_of(row).len() == 34,
        spec_catalog_sales_schema()[0].0 == "cs_sold_date_sk"@ && spec_catalog_sales_row_of(row)[0] == CellValue::Int32(spec_integer_sk_opt(spec_catalog_sales_null_bit_map(row), 0u32, spec_catalog_sales_sold_date_sk(row))),
        spec_catalog_sales_schema()[1].0 == "cs_sold_time_sk"@ && spec_catalog_sales_row_of(row)[1] == CellValue::Int32(spec_integer_sk_opt(spec_catalog_sales_null_bit_map(row), 1u32, spec_catalog_sales_sold_time_sk(row))),
        spec_catalog_sales_schema()[2].0 == "cs_ship_date_sk"@ && spec_catalog_sales_row_of(row)[2] == CellValue::Int32(spec_integer_sk_opt(spec_catalog_sales_null_bit_map(row), 2u32, spec_catalog_sales_ship_date_sk(row))),
        spec_catalog_sales_schema()[3].0 == "cs_bill_customer_sk"@ && spec_catalog_sales_row_of(row)[3] == CellValue::Int32(spec_integer_sk_opt(spec_catalog_sales_null_bit_map(row), 3u32, spec_catalog_sales_bill_customer_sk(row))),
        spec_catalog_sales_schema()[4].0 == "cs_bill_cdemo_sk"@ && spec_catalog_sales_row_of(row)[4] == CellValue::Int32(spec_integer_sk_opt(spec_catalog_sales_null_bit_map(row), 4u32, spec_catalog_sales_bill_cdemo_sk(row))),
        spec_catalog_sales_schema()[5].0 == "cs_bill_hdemo_sk"@ && spec_catalog_sales_row_of(row)[5] == CellValue::Int32(spec_integer_sk_opt(spec_catalog_sales_null_bit_map(row), 5u32, spec_catalog_sales_bill_hdemo_sk(row))),
        spec_catalog_sales_schema()[6].0 == "cs_bill_addr_sk"@ && spec_catalog_sales_row_of(row)[6] == CellValue::Int32(spec_integer_sk_opt(spec_catalog_sales_null_bit_map(row), 6u32, spec_catalog_sales_bill_addr_sk(row))),
        spec_catalog_sales_schema()[7].0 == "cs_ship_customer_sk"@ && spec_catalog_sales_row_of(row)[7] == CellValue::Int32(spec_integer_sk_opt(spec_catalog_sales_null_bit_map(row), 7u32, spec_catalog_sales_ship_customer_sk(row))),
        spec_catalog_sales_schema()[8].0 == "cs_ship_cdemo_sk"@ && spec_catalog_sales_row_of(row)[8] == CellValue::Int32(spec_integer_sk_opt(spec_catalog_sales_null_bit_map(row), 8u32, spec_catalog_sales_ship_cdemo_sk(row))),
        spec_catalog_sales_schema()[9].0 == "cs_ship_hdemo_sk"@ && spec_catalog_sales_row_of(row)[9] == CellValue::Int32(spec_integer_sk_opt(spec_catalog_sales_null_bit_map(row), 9u32, spec_catalog_sales_ship_hdemo_sk(row))),
        spec_catalog_sales_schema()[10].0 == "cs_ship_addr_sk"@ && spec_catalog_sales_row_of(row)[10] == CellValue::Int32(spec_integer_sk_opt(spec_catalog_sales_null_bit_map(row), 10u32, spec_catalog_sales_ship_addr_sk(row))),
        spec_catalog_sales_schema()[11].0 == "cs_call_center_sk"@ && spec_catalog_sales_row_of(row)[11] == CellValue::Int32(spec_integer_sk_opt(spec_catalog_sales_null_bit_map(row), 11u32, spec_catalog_sales_call_center_sk(row))),
        spec_catalog_sales_schema()[12].0 == "cs_catalog_page_sk"@ && spec_catalog_sales_row_of(row)[12] == CellValue::Int32(spec_integer_sk_opt(spec_catalog_sales_null_bit_map(row), 12u32, spec_catalog_sales_catalog_page_sk(row))),
        spec_catalog_sales_schema()[13].0 == "cs_ship_mode_sk"@ && spec_catalog_sales_row_of(row)[13] == CellValue::Int32(spec_integer_sk_opt(spec_catalog_sales_null_bit_map(row), 13u32, spec_catalog_sales_ship_mode_sk(row))),
        spec_catalog_sales_schema()[14].0 == "cs_warehouse_sk"@ && spec_catalog_sales_row_of(row)[14] == CellValue::Int32(spec_integer_sk_opt(spec_catalog_sales_null_bit_map(row), 14u32, spec_catalog_sales_warehouse_sk(row))),
        spec_catalog_sales_schema()[15].0 == "cs_item_sk"@ && spec_catalog_sales_row_of(row)[15] == CellValue::Int32(spec_integer_sk_opt(spec_catalog_sales_null_bit_map(row), 15u32, spec_catalog_sales_sold_item_sk(row))),
        spec_catalog_sales_schema()[16].0 == "cs_promo_sk"@ && spec_catalog_sales_row_of(row)[16] == CellValue::Int32(spec_integer_sk_opt(spec_catalog_sales_null_bit_map(row), 16u32, spec_catalog_sales_promo_sk(row))),
        spec_catalog_sales_schema()[17].0 == "cs_order_number"@ && spec_catalog_sales_row_of(row)[17] == CellValue::Int64(spec_opt(spec_catalog_sales_null_bit_map(row), 17u32, spec_catalog_sales_order_number(row))),
        spec_catalog_sales_schema()[18].0 == "cs_quantity"@ && spec_catalog_sales_row_of(row)[18] == CellValue::Int32(spec_opt(spec_catalog_sales_null_bit_map(row), 18u32, crate::pricing::spec_pricing_quantity(spec_catalog_sales_pricing(row)))),
        spec_catalog_sales_schema()[19].0 == "cs_wholesale_cost"@ && spec_catalog_sales_row_of(row)[19] == CellValue::Decimal128(spec_opt(spec_catalog_sales_null_bit_map(row), 19u32, (crate::pricing::spec_decimal_number(crate::pricing::spec_pricing_wholesale_cost(spec_catalog_sales_pricing(row)))) as i128)),
        spec_catalog_sales_schema()[20].0 == "cs_list_price"@ && spec_catalog_sales_row_of(row)[20] == CellValue::Decimal128(spec_opt(spec_catalog_sales_null_bit_map(row), 20u32, (crate::pricing::spec_decimal_number(crate::pricing::spec_pricing_list_price(spec_catalog_sales_pricing(row)))) as i128)),
        spec_catalog_sales_schema()[21].0 == "cs_sales_price"@ && spec_catalog_sales_row_of(row)[21] == CellValue::Decimal128(spec_opt(spec_catalog_sales_null_bit_map(row), 21u32, (crate::pricing::spec_decimal_number(crate::pricing::spec_pricing_sales_price(spec_catalog_sales_pricing(row)))) as i128)),
        spec_catalog_sales_schema()[22].0 == "cs_ext_discount_amt"@ && spec_catalog_sales_row_of(row)[22] == CellValue::Decimal128(spec_opt(spec_catalog_sales_null_bit_map(row), 24u32, (crate::pricing::spec_decimal_number(crate::pricing::spec_pricing_ext_discount_amount(spec_catalog_sales_pricing(row)))) as i128)),
        spec_catalog_sales_schema()[23].0 == "cs_ext_sales_price"@ && spec_catalog_sales_row_of(row)[23] == CellValue::Decimal128(spec_opt(spec_catalog_sales_null_bit_map(row), 23u32, (crate::pricing::spec_decimal_number(crate::pricing::spec_pricing_ext_sales_price(spec_catalog_sales_pricing(row)))) as i128)),
        spec_catalog_sales_schema()[24].0 == "cs_ext_wholesale_cost"@ && spec_catalog_sales_row_of(row)[24] == CellValue::Decimal128(spec_opt(spec_catalog_sales_null_bit_map(row), 25u32, (crate::pricing::spec_decimal_number(crate::pricing::spec_pricing_ext_wholesale_cost(spec_catalog_sales_pricing(row)))) as i128)),
        spec_catalog_sales_schema()[25].0 == "cs_ext_list_price"@ && spec_catalog_sales_row_of(row)[25] == CellValue::Decimal128(spec_opt(spec_catalog_sales_null_bit_map(row), 26u32, (crate::pricing::spec_decimal_number(crate::pricing::spec_pricing_ext_list_price(spec_catalog_sales_pricing(row)))) as i128)),
        spec_catalog_sales_schema()[26].0 == "cs_ext_tax"@ && spec_catalog_sales_row_of(row)[26] == CellValue::Decimal128(spec_opt(spec_catalog_sales_null_bit_map(row), 27u32, (crate::pricing::spec_decimal_number(crate::pricing::spec_pricing_ext_tax(spec_catalog_sales_pricing(row)))) as i128)),
        spec_catalog_sales_schema()[27].0 == "cs_coupon_amt"@ && spec_catalog_sales_row_of(row)[27] == CellValue::Decimal128(spec_opt(spec_catalog_sales_null_bit_map(row), 22u32, (crate::pricing::spec_decimal_number(crate::pricing::spec_pricing_coupon_amount(spec_catalog_sales_pricing(row)))) as i128)),
        spec_catalog_sales_schema()[28].0 == "cs_ext_ship_cost"@ && spec_catalog_sales_row_of(row)[28] == CellValue::Decimal128(spec_opt(spec_catalog_sales_null_bit_map(row), 28u32, (crate::pricing::spec_decimal_number(crate::pricing::spec_pricing_ext_ship_cost(spec_catalog_sales_pricing(row)))) as i128)),
        spec_catalog_sales_schema()[29].0 == "cs_net_paid"@ && spec_catalog_sales_row_of(row)[29] == CellValue::Decimal128(spec_opt(spec_catalog_sales_null_bit_map(row), 29u32, (crate::pricing::spec_decimal_number(crate::pricing::spec_pricing_net_paid(spec_catalog_sales_pricing(row)))) as i128)),
        spec_catalog_sales_schema()[30].0 == "cs_net_paid_inc_tax"@ && spec_catalog_sales_row_of(row)[30] == CellValue::Decimal128(spec_opt(spec_catalog_sales_null_bit_map(row), 30u32, (crate::pricing::spec_decimal_number(crate::pricing::spec_pricing_net_paid_including_tax(spec_catalog_sales_pricing(row)))) as i128)),
        spec_catalog_sales_schema()[31].0 == "cs_net_paid_inc_ship"@ && spec_catalog_sales_row_of(row)[31] == CellValue::Decimal128(spec_opt(spec_catalog_sales_null_bit_map(row), 31u32, (crate::pricing::spec_decimal_number(crate::pricing::spec_pricing_net_paid_including_shipping(spec_catalog_sales_pricing(row)))) as i128)),
        spec_catalog_sales_schema()[32].0 == "cs_net_paid_inc_ship_tax"@ && spec_catalog_sales_row_of(row)[32] == CellValue::Decimal128(spec_opt(spec_catalog_sales_null_bit_map(row), 32u32, (crate::pricing::spec_decimal_number(crate::pricing::spec_pricing_net_paid_including_shipping_and_tax(spec_catalog_sales_pricing(row)))) as i128)),
        spec_catalog_sales_schema()[33].0 == "cs_net_profit"@ && spec_catalog_sales_row_of(row)[33] == CellValue::Decimal128(spec_opt(spec_catalog_sales_null_bit_map(row), 33u32, (crate::pricing::spec_decimal_number(crate::pricing::spec_pricing_net_profit(spec_catalog_sales_pricing(row)))) as i128)),
{
}

/// Each column of a `catalog_sales` record's row holds the record's value for the column the
/// schema names, null where the record's null bit map marks it.
pub proof fn law_catalog_sales_record_columns_hold_their_values(r: CatalogSalesRecord)
    ensures
        spec_catalog_sales_row(r).len() == 34,
        spec_catalog_sales_schema()[0].0 == "cs_sold_date_sk"@ && spec_catalog_sales_row(r)[0] == CellValue::Int32(spec_integer_sk_opt(r.null_bit_map, 0u32, r.sold_date_sk)),
        spec_catalog_sales_schema()[1].0 == "cs_sold_time_sk"@ && spec_catalog_sales_row(r)[1] == CellValue::Int32(spec_integer_sk_opt(r.null_bit_map, 1u32, r.sold_time_sk)),
        spec_catalog_sales_schema()[2].0 == "cs_ship_date_sk"@ && spec_catalog_sales_row(r)[2] == CellValue::Int32(spec_integer_sk_opt(r.null_bit_map, 2u32, r.ship_date_sk)),
        spec_catalog_sales_schema()[3].0 == "cs_bill_customer_sk"@ && spec_catalog_sales_row(r)[3] == CellValue::Int32(spec_integer_sk_opt(r.null_bit_map, 3u32, r.bill_customer_sk)),
        spec_catalog_sales_schema()[4].0 == "cs_bill_cdemo_sk"@ && spec_catalog_sales_row(r)[4] == CellValue::Int32(spec_integer_sk_opt(r.null_bit_map, 4u32, r.bill_cdemo_sk)),
        spec_catalog_sales_schema()[5].0 == "cs_bill_hdemo_sk"@ && spec_catalog_sales_row(r)[5] == CellValue::Int32(spec_integer_sk_opt(r.null_bit_map, 5u32, r.bill_hdemo_sk)),
        spec_catalog_sales_schema()[6].0 == "cs_bill_addr_sk"@ && spec_catalog_sales_row(r)[6] == CellValue::Int32(spec_integer_sk_opt(r.null_bit_map, 6u32, r.bill_addr_sk)),
        spec_catalog_sales_schema()[7].0 == "cs_ship_customer_sk"@ && spec_catalog_sales_row(r)[7] == CellValue::Int32(spec_integer_sk_opt(r.null_bit_map, 7u32, r.ship_customer_sk)),
        spec_catalog_sales_schema()[8].0 == "cs_ship_cdemo_sk"@ && spec_catalog_sales_row(r)[8] == CellValue::Int32(spec_integer_sk_opt(r.null_bit_map, 8u32, r.ship_cdemo_sk)),
        spec_catalog_sales_schema()[9].0 == "cs_ship_hdemo_sk"@ && spec_catalog_sales_row(r)[9] == CellValue::Int32(spec_integer_sk_opt(r.null_bit_map, 9u32, r.ship_hdemo_sk)),
        spec_catalog_sales_schema()[10].0 == "cs_ship_addr_sk"@ && spec_catalog_sales_row(r)[10] == CellValue::Int32(spec_integer_sk_opt(r.null_bit_map, 10u32, r.ship_addr_sk)),
        spec_catalog_sales_schema()[11].0 == "cs_call_center_sk"@ && spec_catalog_sales_row(r)[11] == CellValue::Int32(spec_integer_sk_opt(r.null_bit_map, 11u32, r.call_center_sk)),
        spec_catalog_sales_schema()[12].0 == "cs_catalog_page_sk"@ && spec_catalog_sales_row(r)[12] == CellValue::Int32(spec_integer_sk_opt(r.null_bit_map, 12u32, r.catalog_page_sk)),
        spec_catalog_sales_schema()[13].0 == "cs_ship_mode_sk"@ && spec_catalog_sales_row(r)[13] == CellValue::Int32(spec_integer_sk_opt(r.null_bit_map, 13u32, r.ship_mode_sk)),
        spec_catalog_sales_schema()[14].0 == "cs_warehouse_sk"@ && spec_catalog_sales_row(r)[14] == CellValue::Int32(spec_integer_sk_opt(r.null_bit_map, 14u32, r.warehouse_sk)),
        spec_catalog_sales_schema()[15].0 == "cs_item_sk"@ && spec_catalog_sales_row(r)[15] == CellValue::Int32(spec_integer_sk_opt(r.null_bit_map, 15u32, r.sold_item_sk)),
        spec_catalog_sales_schema()[16].0 == "cs_promo_sk"@ && spec_catalog_sales_row(r)[16] == CellValue::Int32(spec_integer_sk_opt(r.null_bit_map, 16u32, r.promo_sk)),
        spec_catalog_sales_schema()[17].0 == "cs_order_number"@ && spec_catalog_sales_row(r)[17] == CellValue::Int64(spec_opt(r.null_bit_map, 17u32, r.order_number)),
        spec_catalog_sales_schema()[18].0 == "cs_quantity"@ && spec_catalog_sales_row(r)[18] == CellValue::Int32(spec_opt(r.null_bit_map, 18u32, r.pricing.quantity)),
        spec_catalog_sales_schema()[19].0 == "cs_wholesale_cost"@ && spec_catalog_sales_row(r)[19] == CellValue::Decimal128(spec_opt(r.null_bit_map, 19u32, (r.pricing.wholesale_cost) as i128)),
        spec_catalog_sales_schema()[20].0 == "cs_list_price"@ && spec_catalog_sales_row(r)[20] == CellValue::Decimal128(spec_opt(r.null_bit_map, 20u32, (r.pricing.list_price) as i128)),
        spec_catalog_sales_schema()[21].0 == "cs_sales_price"@ && spec_catalog_sales_row(r)[21] == CellValue::Decimal128(spec_opt(r.null_bit_map, 21u32, (r.pricing.sales_price) as i128)),
        spec_catalog_sales_schema()[22].0 == "cs_ext_discount_amt"@ && spec_catalog_sales_row(r)[22] == CellValue::Decimal128(spec_opt(r.null_bit_map, 24u32, (r.pricing.ext_discount_amount) as i128)),
        spec_catalog_sales_schema()[23].0 == "cs_ext_sales_price"@ && spec_catalog_sales_row(r)[23] == CellValue::Decimal128(spec_opt(r.null_bit_map, 23u32, (r.pricing.ext_sales_price) as i128)),
        spec_catalog_sales_schema()[24].0 == "cs_ext_wholesale_cost"@ && spec_catalog_sales_row(r)[24] == CellValue::Decimal128(spec_opt(r.null_bit_map, 25u32, (r.pricing.ext_wholesale_cost) as i128)),
        spec_catalog_sales_schema()[25].0 == "cs_ext_list_price"@ && spec_catalog_sales_row(r)[25] == CellValue::Decimal128(spec_opt(r.null_bit_map, 26u32, (r.pricing.ext_list_price) as i128)),
        spec_catalog_sales_schema()[26].0 == "cs_ext_tax"@ && spec_catalog_sales_row(r)[26] == CellValue::Decimal128(spec_opt(r.null_bit_map, 27u32, (r.pricing.ext_tax) as i128)),
        spec_catalog_sales_schema()[27].0 == "cs_coupon_amt"@ && spec_catalog_sales_row(r)[27] == CellValue::Decimal128(spec_opt(r.null_bit_map, 22u32, (r.pricing.coupon_amount) as i128)),
        spec_catalog_sales_schema()[28].0 == "cs_ext_ship_cost"@ && spec_catalog_sales_row(r)[28] == CellValue::Decimal128(spec_opt(r.null_bit_map, 28u32, (r.pricing.ext_ship_cost) as i128)),
        spec_catalog_sales_schema()[29].0 == "cs_net_paid"@ && spec_catalog_sales_row(r)[29] == CellValue::Decimal128(spec_opt(r.null_bit_map, 29u32, (r.pricing.net_paid) as i128)),
        spec_catalog_sales_schema()[30].0 == "cs_net_paid_inc_tax"@ && spec_catalog_sales_row(r)[30] == CellValue::Decimal128(spec_opt(r.null_bit_map, 30u32, (r.pricing.net_paid_including_tax) as i128)),
        spec_catalog_sales_schema()[31].0 == "cs_net_paid_inc_ship"@ && spec_catalog_sales_row(r)[31] == CellValue::Decimal128(spec_opt(r.null_bit_map, 31u32, (r.pricing.net_paid_including_shipping) as i128)),
        spec_catalog_sales_schema()[32].0 == "cs_net_paid_inc_ship_tax"@ && spec_catalog_sales_row(r)[32] == CellValue::Decimal128(spec_opt(r.null_bit_map, 32u32, (r.pricing.net_paid_including_shipping_and_tax) as i128)),
        spec_catalog_sales_schema()[33].0 == "cs_net_profit"@ && spec_catalog_sales_row(r)[33] == CellValue::Decimal128(spec_opt(r.null_bit_map, 33u32, (r.pricing.net_profit) as i128)),
{
}

/// The rows of a batch of generated `catalog_sales` rows come one per generated row, in the
/// same order.
pub proof fn law_catalog_sales_rows_in_order(rows: Seq<CatalogSalesRow>)
    ensures
        spec_catalog_sales_rows_of(rows).len() == rows.len(),
        forall|i: int| 0 <= i < rows.len() ==> #[trigger] spec_catalog_sales_rows_of(rows)[i] == spec_catalog_sales_row_of(rows[i]),
{
}

/// The rows of a batch of `catalog_sales` records come one per record, in the same order.
pub proof fn law_catalog_sales_record_rows_in_order(records: Seq<CatalogSalesRecord>)
    ensures
        spec_catalog_sales_rows(records).len() == records.len(),
        forall|i: int| 0 <= i < records.len() ==> #[trigger] spec_catalog_sales_rows(records)[i] == spec_catalog_sales_row(records[i]),
{
}

/// The cells of a `catalog_sales` row, in schema order.
pub fn catalog_sales_row(r: &CatalogSalesRecord) -> (row: Vec<Cell>)
    ensures
        spec_row_view(row@) == spec_catalog_sales_row(*r),
{
    let nbm = r.null_bit_map;
    let mut row: Vec<Cell> = Vec::new();
    row.push(Cell::Int32(integer_sk_opt(nbm, 0, r.sold_date_sk)));
    row.push(Cell::Int32(integer_sk_opt(nbm, 1, r.sold_time_sk)));
    row.push(Cell::Int32(integer_sk_opt(nbm, 2, r.ship_date_sk)));
    row.push(Cell::Int32(integer_sk_opt(nbm, 3, r.bill_customer_sk)));
    row.push(Cell::Int32(integer_sk_opt(nbm, 4, r.bill_cdemo_sk)));
    row.push(Cell::Int32(integer_sk_opt(nbm, 5, r.bill_hdemo_sk)));
    row.push(Cell::Int32(integer_sk_opt(nbm, 6, r.bill_addr_sk)));
    row.push(Cell::Int32(integer_sk_opt(nbm, 7, r.ship_customer_sk)));
    row.push(Cell::Int32(integer_sk_opt(nbm, 8, r.ship_cdemo_sk)));
    row.push(Cell::Int32(integer_sk_opt(nbm, 9, r.ship_hdemo_sk)));
    row.push(Cell::Int32(integer_sk_opt(nbm, 10, r.ship_addr_sk)));
    row.push(Cell::Int32(integer_sk_opt(nbm, 11, r.call_center_sk)));
    row.push(Cell::Int32(integer_sk_opt(nbm, 12, r.catalog_page_sk)));
    row.push(Cell::Int32(integer_sk_opt(nbm, 13, r.ship_mode_sk)));
    row.push(Cell::Int32(integer_sk_opt(nbm, 14, r.warehouse_sk)));
    row.push(Cell::Int32(integer_sk_opt(nbm, 15, r.sold_item_sk)));
    row.push(Cell::Int32(integer_sk_opt(nbm, 16, r.promo_sk)));
    row.push(Cell::Int64(opt(nbm, 17, r.order_number)));
    row.push(Cell::Int32(opt(nbm, 18, r.pricing.quantity)));
    row.push(Cell::Decimal128(opt(nbm, 19, r.pricing.wholesale_cost as i128)));
    row.push(Cell::Decimal128(opt(nbm, 20, r.pricing.list_price as i128)));
    row.push(Cell::Decimal128(opt(nbm, 21, r.pricing.sales_price as i128)));
    row.push(Cell::Decimal128(opt(nbm, 24, r.pricing.ext_discount_amount as i128)));
    row.push(Cell::Decimal128(opt(nbm, 23, r.pricing.ext_sales_price as i128)));
    row.push(Cell::Decimal128(opt(nbm, 25, r.pricing.ext_wholesale_cost as i128)));
    row.push(Cell::Decimal128(opt(nbm, 26, r.pricing.ext_list_price as i128)));
    row.push(Cell::Decimal128(opt(nbm, 27, r.pricing.ext_tax as i128)));
    row.push(Cell::Decimal128(opt(nbm, 22, r.pricing.coupon_amount as i128)));
    row.push(Cell::Decimal128(opt(nbm, 28, r.pricing.ext_ship_cost as i128)));
    row.push(Cell::Decimal128(opt(nbm, 29, r.pricing.net_paid as i128)));
    row.push(Cell::Decimal128(opt(nbm, 30, r.pricing.net_paid_including_tax as i128)));
    row.push(Cell::Decimal128(opt(nbm, 31, r.pricing.net_paid_including_shipping as i128)));
    row.push(Cell::Decimal128(opt(nbm, 32, r.pricing.net_paid_including_shipping_and_tax as i128)));
    row.push(Cell::Decimal128(opt(nbm, 33, r.pricing.net_profit as i128)));
    assert(spec_row_view(row@) =~= spec_catalog_sales_row(*r));
    row
}

/// The cells of `records`, one row each.
pub open spec fn spec_catalog_sales_rows(records: Seq<CatalogSalesRecord>) -> Seq<Seq<CellValue>> {
    records.map_values(|r: CatalogSalesRecord| spec_catalog_sales_row(r))
}

/// The columns of a record batch holding `records`: column `j` holds the
/// `j`-th cell of each record's row, in record order.
pub fn catalog_sales_columns(records: &Vec<CatalogSalesRecord>) -> (columns: Vec<Vec<Cell>>)
    ensures
        spec_columns_view(columns@) == spec_columns(
            spec_catalog_sales_rows(records@),
            CATALOG_SALES_COLUMNS as nat,
        ),
{
    let mut rows: Vec<Vec<Cell>> = Vec::new();
    let mut i: usize = 0;
    while i < records.len()
        invariant
            i <= records.len(),
            rows.len() == i,
            forall|k: int|
                0 <= k < i ==> spec_row_view((#[trigger] rows[k])@) == spec_catalog_sales_row(records[k]),
            forall|k: int| 0 <= k < i ==> (#[trigger] rows[k]).len() == CATALOG_SALES_COLUMNS,
        decreases records.len() - i,
    {
        let row = catalog_sales_row(&records[i]);
        proof {
            assert(spec_row_view(row@).len() == row@.len());
        }
        rows.push(row);
        i = i + 1;
    }
    let columns = rows_to_columns(&rows, CATALOG_SALES_COLUMNS);
    proof {
        let expected = spec_columns(spec_catalog_sales_rows(records@), CATALOG_SALES_COLUMNS as nat);
        assert forall|j: int| 0 <= j < CATALOG_SALES_COLUMNS implies spec_row_view(columns@[j]@)
            =~= expected[j] by {
            assert forall|k: int| 0 <= k < records.len() implies (#[trigger] spec_row_view(
                columns@[j]@,
            )[k]) == expected[j][k] by {
                assert(spec_row_view(rows[k]@)[j] == rows[k][j]@);
            }
        }
        assert(spec_columns_view(columns@) =~= expected);
    }
    columns
}

/// A `catalog_sales` row conforms to the table schema (one cell per column, each
/// of the column's type, no null in a required column) whenever its required
/// columns are not marked null and their keys are not negative.
pub proof fn law_catalog_sales_row_conforms(r: CatalogSalesRecord)
    requires
        !spec_is_null(r.null_bit_map, 15),
        r.sold_item_sk >= 0,
        !spec_is_null(r.null_bit_map, 17),
    ensures
        spec_row_conforms(spec_catalog_sales_row(r), spec_catalog_sales_schema()),
{
    let row = spec_catalog_sales_row(r);
    assert(row.len() == 34);
}

/// The null bit map that `CatalogSalesRow::null_bit_map` returns for `row`.
pub uninterp spec fn spec_catalog_sales_null_bit_map(row: CatalogSalesRow) -> i64;

/// Calls `CatalogSalesRow::null_bit_map`: a field of the row, named
/// `spec_catalog_sales_null_bit_map`.
#[verifier::external_body]
fn catalog_sales_null_bit_map(r: &CatalogSalesRow) -> (v: i64)
    ensures
        v == spec_catalog_sales_null_bit_map(*r),
{
    r.null_bit_map()
}

/// The value that `CatalogSalesRow::get_cs_sold_date_sk` returns for `row`.
pub uninterp spec fn spec_catalog_sales_sold_date_sk(row: CatalogSalesRow) -> i64;

/// Calls `CatalogSalesRow::get_cs_sold_date_sk`: a field of the row, named
/// `spec_catalog_sales_sold_date_sk`.
#[verifier::external_body]
fn catalog_sales_sold_date_sk(r: &CatalogSalesRow) -> (v: i64)
    ensures
        v == spec_catalog_sales_sold_date_sk(*r),
{
    r.get_cs_sold_date_sk()
}

/// The value that `CatalogSalesRow::get_cs_sold_time_sk` returns for `row`.
pub uninterp spec fn spec_catalog_sales_sold_time_sk(row: CatalogSalesRow) -> i64;

/// Calls `CatalogSalesRow::get_cs_sold_time_sk`: a field of the row, named
/// `spec_catalog_sales_sold_time_sk`.
#[verifier::external_body]
fn catalog_sales_sold_time_sk(r: &CatalogSalesRow) -> (v: i64)
    ensures
        v == spec_catalog_sales_sold_time_sk(*r),
{
    r.get_cs_sold_time_sk()
}

/// The value that `CatalogSalesRow::get_cs_ship_date_sk` returns for `row`.
pub uninterp spec fn spec_catalog_sales_ship_date_sk(row: CatalogSalesRow) -> i64;

/// Calls `CatalogSalesRow::get_cs_ship_date_sk`: a field of the row, named
/// `spec_catalog_sales_ship_date_sk`.
#[verifier::external_body]
fn catalog_sales_ship_date_sk(r: &CatalogSalesRow) -> (v: i64)
    ensures
        v == spec_catalog_sales_ship_date_sk(*r),
{
    r.get_cs_ship_date_sk()
}

/// The value that `CatalogSalesRow::get_cs_bill_customer_sk` returns for `row`.
pub uninterp spec fn spec_catalog_sales_bill_customer_sk(row: CatalogSalesRow) -> i64;

/// Calls `CatalogSalesRow::get_cs_bill_customer_sk`: a field of the row, named
/// `spec_catalog_sales_bill_customer_sk`.
#[verifier::external_body]
fn catalog_sales_bill_customer_sk(r: &CatalogSalesRow) -> (v: i64)
    ensures
        v == spec_catalog_sales_bill_customer_sk(*r),
{
    r.get_cs_bill_customer_sk()
}

/// The value that `CatalogSalesRow::get_cs_bill_cdemo_sk` returns for `row`.
pub uninterp spec fn spec_catalog_sales_bill_cdemo_sk(row: CatalogSalesRow) -> i64;

/// Calls `CatalogSalesRow::get_cs_bill_cdemo_sk`: a field of the row, named
/// `spec_catalog_sales_bill_cdemo_sk`.
#[verifier::external_body]
fn catalog_sales_bill_cdemo_sk(r: &CatalogSalesRow) -> (v: i64)
    ensures
        v == spec_catalog_sales_bill_cdemo_sk(*r),
{
    r.get_cs_bill_cdemo_sk()
}

/// The value that `CatalogSalesRow::get_cs_bill_hdemo_sk` returns for `row`.
pub uninterp spec fn spec_catalog_sales_bill_hdemo_sk(row: CatalogSalesRow) -> i64;

/// Calls `CatalogSalesRow::get_cs_bill_hdemo_sk`: a field of the row, named
/// `spec_catalog_sales_bill_hdemo_sk`.
#[verifier::external_body]
fn catalog_sales_bill_hdemo_sk(r: &CatalogSalesRow) -> (v: i64)
    ensures
        v == spec_catalog_sales_bill_hdemo_sk(*r),
{
    r.get_cs_bill_hdemo_sk()
}

/// The value that `CatalogSalesRow::get_cs_bill_addr_sk` returns for `row`.
pub uninterp spec fn spec_catalog_sales_bill_addr_sk(row: CatalogSalesRow) -> i64;

/// Calls `CatalogSalesRow::get_cs_bill_addr_sk`: a field of the row, named
/// `spec_catalog_sales_bill_addr_sk`.
#[verifier::external_body]
fn catalog_sales_bill_addr_sk(r: &CatalogSalesRow) -> (v: i64)
    ensures
        v == spec_catalog_sales_bill_addr_sk(*r),
{
    r.get_cs_bill_addr_sk()
}

/// The value that `CatalogSalesRow::get_cs_ship_customer_sk` returns for `row`.
pub uninterp spec fn spec_catalog_sales_ship_customer_sk(row: CatalogSalesRow) -> i64;

/// Calls `CatalogSalesRow::get_cs_ship_customer_sk`: a field of the row, named
/// `spec_catalog_sales_ship_customer_sk`.
#[verifier::external_body]
fn catalog_sales_ship_customer_sk(r: &CatalogSalesRow) -> (v: i64)
    ensures
        v == spec_catalog_sales_ship_customer_sk(*r),
{
    r.get_cs_ship_customer_sk()
}

/// The value that `CatalogSalesRow::get_cs_ship_cdemo_sk` returns for `row`.
pub uninterp spec fn spec_catalog_sales_ship_cdemo_sk(row: CatalogSalesRow) -> i64;

/// Calls `CatalogSalesRow::get_cs_ship_cdemo_sk`: a field of the row, named
/// `spec_catalog_sales_ship_cdemo_sk`.
#[verifier::external_body]
fn catalog_sales_ship_cdemo_sk(r: &CatalogSalesRow) -> (v: i64)
    ensures
        v == spec_catalog_sales_ship_cdemo_sk(*r),
{
    r.get_cs_ship_cdemo_sk()
}

/// The value that `CatalogSalesRow::get_cs_ship_hdemo_sk` returns for `row`.
pub uninterp spec fn spec_catalog_sales_ship_hdemo_sk(row: CatalogSalesRow) -> i64;

/// Calls `CatalogSalesRow::get_cs_ship_hdemo_sk`: a field of the row, named
/// `spec_catalog_sales_ship_hdemo_sk`.
#[verifier::external_body]
fn catalog_sales_ship_hdemo_sk(r: &CatalogSalesRow) -> (v: i64)
    ensures
        v == spec_catalog_sales_ship_hdemo_sk(*r),
{
    r.get_cs_ship_hdemo_sk()
}

/// The value that `CatalogSalesRow::get_cs_ship_addr_sk` returns for `row`.
pub uninterp spec fn spec_catalog_sales_ship_addr_sk(row: CatalogSalesRow) -> i64;

/// Calls `CatalogSalesRow::get_cs_ship_addr_sk`: a field of the row, named
/// `spec_catalog_sales_ship_addr_sk`.
#[verifier::external_body]
fn catalog_sales_ship_addr_sk(r: &CatalogSalesRow) -> (v: i64)
    ensures
        v == spec_catalog_sales_ship_addr_sk(*r),
{
    r.get_cs_ship_addr_sk()
}

/// The value that `CatalogSalesRow::get_cs_call_center_sk` returns for `row`.
pub uninterp spec fn spec_catalog_sales_call_center_sk(row: CatalogSalesRow) -> i64;

/// Calls `CatalogSalesRow::get_cs_call_center_sk`: a field of the row, named
/// `spec_catalog_sales_call_center_sk`.
#[verifier::external_body]
fn catalog_sales_call_center_sk(r: &CatalogSalesRow) -> (v: i64)
    ensures
        v == spec_catalog_sales_call_center_sk(*r),
{
    r.get_cs_call_center_sk()
}

/// The value that `CatalogSalesRow::get_cs_catalog_page_sk` returns for `row`.
pub uninterp spec fn spec_catalog_sales_catalog_page_sk(row: CatalogSalesRow) -> i64;

/// Calls `CatalogSalesRow::get_cs_catalog_page_sk`: a field of the row, named
/// `spec_catalog_sales_catalog_page_sk`.
#[verifier::external_body]
fn catalog_sales_catalog_page_sk(r: &CatalogSalesRow) -> (v: i64)
    ensures
        v == spec_catalog_sales_catalog_page_sk(*r),
{
    r.get_cs_catalog_page_sk()
}

/// The value that `CatalogSalesRow::get_cs_ship_mode_sk` returns for `row`.
pub uninterp spec fn spec_catalog_sales_ship_mode_sk(row: CatalogSalesRow) -> i64;

/// Calls `CatalogSalesRow::get_cs_ship_mode_sk`: a field of the row, named
/// `spec_catalog_sales_ship_mode_sk`.
#[verifier::external_body]
fn catalog_sales_ship_mode_sk(r: &CatalogSalesRow) -> (v: i64)
    ensures
        v == spec_catalog_sales_ship_mode_sk(*r),
{
    r.get_cs_ship_mode_sk()
}

/// The value that `CatalogSalesRow::get_cs_warehouse_sk` returns for `row`.
pub uninterp spec fn spec_catalog_sales_warehouse_sk(row: CatalogSalesRow) -> i64;

/// Calls `CatalogSalesRow::get_cs_warehouse_sk`: a field of the row, named
/// `spec_catalog_sales_warehouse_sk`.
#[verifier::external_body]
fn catalog_sales_warehouse_sk(r: &CatalogSalesRow) -> (v: i64)
    ensures
        v == spec_catalog_sales_warehouse_sk(*r),
{
    r.get_cs_warehouse_sk()
}

/// The value that `CatalogSalesRow::get_cs_sold_item_sk` returns for `row`.
pub uninterp spec fn spec_catalog_sales_sold_item_sk(row: CatalogSalesRow) -> i64;

/// Calls `CatalogSalesRow::get_cs_sold_item_sk`: a field of the row, named
/// `spec_catalog_sales_sold_item_sk`.
#[verifier::external_body]
fn catalog_sales_sold_item_sk(r: &CatalogSalesRow) -> (v: i64)
    ensures
        v == spec_catalog_sales_sold_item_sk(*r),
{
    r.get_cs_sold_item_sk()
}

/// The value that `CatalogSalesRow::get_cs_promo_sk` returns for `row`.
pub uninterp spec fn spec_catalog_sales_promo_sk(row: CatalogSalesRow) -> i64;

/// Calls `CatalogSalesRow::get_cs_promo_sk`: a field of the row, named
/// `spec_catalog_sales_promo_sk`.
#[verifier::external_body]
fn catalog_sales_promo_sk(r: &CatalogSalesRow) -> (v: i64)
    ensures
        v == spec_catalog_sales_promo_sk(*r),
{
    r.get_cs_promo_sk()
}

/// The value that `CatalogSalesRow::get_cs_order_number` returns for `row`.
pub uninterp spec fn spec_catalog_sales_order_number(row: CatalogSalesRow) -> i64;

/// Calls `CatalogSalesRow::get_cs_order_number`: a field of the row, named
/// `spec_catalog_sales_order_number`.
#[verifier::external_body]
fn catalog_sales_order_number(r: &CatalogSalesRow) -> (v: i64)
    ensures
        v == spec_catalog_sales_order_number(*r),
{
    r.get_cs_order_number()
}

/// The pricing that `CatalogSalesRow::get_cs_pricing` returns for `row`.
pub uninterp spec fn spec_catalog_sales_pricing(row: CatalogSalesRow) -> Pricing;

/// Calls `CatalogSalesRow::get_cs_pricing`: a field of the row, named
/// `spec_catalog_sales_pricing`.
#[verifier::external_body]
fn catalog_sales_pricing(r: &CatalogSalesRow) -> (v: &Pricing)
    ensures
        *v == spec_catalog_sales_pricing(*r),
{
    r.get_cs_pricing()
}

/// Whether `r` holds the values of the generated row `row`, field by field
/// (each decimal as its unscaled digits).
pub open spec fn spec_catalog_sales_record_matches(r: CatalogSalesRecord, row: CatalogSalesRow) -> bool {
    &&& r.null_bit_map == spec_catalog_sales_null_bit_map(row)
    &&& r.sold_date_sk == spec_catalog_sales_sold_date_sk(row)
    &&& r.sold_time_sk == spec_catalog_sales_sold_time_sk(row)
    &&& r.ship_date_sk == spec_catalog_sales_ship_date_sk(row)
    &&& r.bill_customer_sk == spec_catalog_sales_bill_customer_sk(row)
    &&& r.bill_cdemo_sk == spec_catalog_sales_bill_cdemo_sk(row)
    &&& r.bill_hdemo_sk == spec_catalog_sales_bill_hdemo_sk(row)
    &&& r.bill_addr_sk == spec_catalog_sales_bill_addr_sk(row)
    &&& r.ship_customer_sk == spec_catalog_sales_ship_customer_sk(row)
    &&& r.ship_cdemo_sk == spec_catalog_sales_ship_cdemo_sk(row)
    &&& r.ship_hdemo_sk == spec_catalog_sales_ship_hdemo_sk(row)
    &&& r.ship_addr_sk == spec_catalog_sales_ship_addr_sk(row)
    &&& r.call_center_sk == spec_catalog_sales_call_center_sk(row)
    &&& r.catalog_page_sk == spec_catalog_sales_catalog_page_sk(row)
    &&& r.ship_mode_sk == spec_catalog_sales_ship_mode_sk(row)
    &&& r.warehouse_sk == spec_catalog_sales_warehouse_sk(row)
    &&& r.sold_item_sk == spec_catalog_sales_sold_item_sk(row)
    &&& r.promo_sk == spec_catalog_sales_promo_sk(row)
    &&& r.order_number == spec_catalog_sales_order_number(row)
    &&& r.pricing == spec_pricing_record(spec_catalog_sales_pricing(row))
}

/// Whether `records` hold the values of `rows`, one record per row, in order.
pub open spec fn spec_catalog_sales_records_match(records: Seq<CatalogSalesRecord>, rows: Seq<CatalogSalesRow>) -> bool {
    &&& records.len() == rows.len()
    &&& forall|i: int|
        0 <= i < records.len() ==> #[trigger] spec_catalog_sales_record_matches(records[i], rows[i])
}

/// Read the values of a generated `catalog_sales` row.
pub fn catalog_sales_record(row: &CatalogSalesRow) -> (r: CatalogSalesRecord)
    ensures
        spec_catalog_sales_record_matches(r, *row),
{
    CatalogSalesRecord {
        null_bit_map: catalog_sales_null_bit_map(row),
        sold_date_sk: catalog_sales_sold_date_sk(row),
        sold_time_sk: catalog_sales_sold_time_sk(row),
        ship_date_sk: catalog_sales_ship_date_sk(row),
        bill_customer_sk: catalog_sales_bill_customer_sk(row),
        bill_cdemo_sk: catalog_sales_bill_cdemo_sk(row),
        bill_hdemo_sk: catalog_sales_bill_hdemo_sk(row),
        bill_addr_sk: catalog_sales_bill_addr_sk(row),
        ship_customer_sk: catalog_sales_ship_customer_sk(row),
        ship_cdemo_sk: catalog_sales_ship_cdemo_sk(row),
        ship_hdemo_sk: catalog_sales_ship_hdemo_sk(row),
        ship_addr_sk: catalog_sales_ship_addr_sk(row),
        call_center_sk: catalog_sales_call_center_sk(row),
        catalog_page_sk: catalog_sales_catalog_page_sk(row),
        ship_mode_sk: catalog_sales_ship_mode_sk(row),
        warehouse_sk: catalog_sales_warehouse_sk(row),
        sold_item_sk: catalog_sales_sold_item_sk(row),
        promo_sk: catalog_sales_promo_sk(row),
        order_number: catalog_sales_order_number(row),
        pricing: pricing_record(catalog_sales_pricing(row)),
    }
}

/// The rows that a `CatalogSalesRowGenerator` of `session` yields for source row `row_number`:
/// the line items of that order, in order. The generator fast-forwards its random number
/// streams to a source row, so what a source row yields depends on the session and the row
/// number alone.
pub uninterp spec fn spec_catalog_sales_source_row(session: Session, row_number: nat) -> Seq<CatalogSalesRow>;

/// The rows that `generator` has still to yield, in order.
pub uninterp spec fn spec_catalog_sales_pending(generator: CatalogSalesRowGenerator) -> Seq<CatalogSalesRow>;

/// The session that `generator` holds.
pub uninterp spec fn spec_catalog_sales_session(generator: CatalogSalesRowGenerator) -> Session;

/// The last source row that `generator` generates (its row count, after any clamping by a
/// range).
pub uninterp spec fn spec_catalog_sales_end(generator: CatalogSalesRowGenerator) -> u64;

/// `Some((session, row_count))` when `generator` is in the state that
/// `CatalogSalesRowGenerator::new(session, row_count)` builds (at source row 1, nothing yielded
/// yet); `None` otherwise.
pub uninterp spec fn spec_catalog_sales_fresh(generator: CatalogSalesRowGenerator) -> Option<(Session, u64)>;

/// The rows that a generator of `session` yields for source rows `start..=end`: those of each
/// source row, in row order.
pub open spec fn spec_catalog_sales_source_rows(session: Session, start: int, end: int) -> Seq<CatalogSalesRow>
    decreases end + 1 - start,
{
    if end < start {
        Seq::empty()
    } else {
        spec_catalog_sales_source_rows(session, start, end - 1) + spec_catalog_sales_source_row(session, end as nat)
    }
}

/// The row count of `CatalogSales` at the scaling of `session`: the source rows of a reader of
/// the table.
pub open spec fn spec_catalog_sales_table_rows(session: Session) -> u64 {
    spec_scaling_row_count(spec_session_scaling(session), spec_values_index(Table::CatalogSales))
}

/// Calls `CatalogSalesRowGenerator::new`: a generator of the source rows `1..=row_count` of
/// `session`, about to start source row 1. An order has 4 to 14 line items (drawn uniformly).
#[verifier::external_body]
fn catalog_sales_generator(session: Session, row_count: u64) -> (generator: CatalogSalesRowGenerator)
    ensures
        spec_catalog_sales_session(generator) == session,
        spec_catalog_sales_end(generator) == row_count,
        spec_catalog_sales_fresh(generator) == Some((session, row_count)),
        spec_catalog_sales_pending(generator) == spec_catalog_sales_source_rows(session, 1, row_count as int)
            && forall|n: nat| 1 <= n <= row_count ==> 4 <= #[trigger] spec_catalog_sales_source_row(session, n).len() <= 14,
{
    CatalogSalesRowGenerator::new(session, row_count)
}

/// Calls `CatalogSalesRowGenerator::skip_rows_until_starting_row_number`: the generator goes on
/// at source row `starting_row_number` and still ends at its last source row. The rows to come
/// are stated for a generator as `new` built it (the source keeps its sales date as generated
/// so far, which does not go back). The starting row is at least 1 (row 0 has no key) and at
/// most [`MAX_STARTING_ROW_NUMBER`] (the fast-forward multiplies it by the seeds per row in a
/// `u64`).
#[verifier::external_body]
fn catalog_sales_skip(generator: &mut CatalogSalesRowGenerator, starting_row_number: u64)
    requires
        1 <= starting_row_number <= MAX_STARTING_ROW_NUMBER,
    ensures
        spec_catalog_sales_session(*final(generator)) == spec_catalog_sales_session(*old(generator)),
        spec_catalog_sales_end(*final(generator)) == spec_catalog_sales_end(*old(generator)),
        spec_catalog_sales_fresh(*old(generator)) matches Some((session, row_count))
            ==> spec_catalog_sales_pending(*final(generator)) == spec_catalog_sales_source_rows(
            session,
            starting_row_number as int,
            spec_catalog_sales_end(*final(generator)) as int,
        ),
{
    generator.skip_rows_until_starting_row_number(starting_row_number)
}

/// Calls `CatalogSalesRowGenerator::set_source_row_range`: the generator goes on at source row
/// `starting_row_number` and ends at `ending_row_number`, clamped to its last source row. The
/// rows to come, and the bounds on the starting row, are as for `catalog_sales_skip`.
#[verifier::external_body]
fn catalog_sales_set_range(generator: &mut CatalogSalesRowGenerator, starting_row_number: u64, ending_row_number: u64)
    requires
        1 <= starting_row_number <= MAX_STARTING_ROW_NUMBER,
    ensures
        spec_catalog_sales_session(*final(generator)) == spec_catalog_sales_session(*old(generator)),
        spec_catalog_sales_end(*final(generator)) == if ending_row_number < spec_catalog_sales_end(*old(generator)) {
            ending_row_number
        } else {
            spec_catalog_sales_end(*old(generator))
        },
        spec_catalog_sales_fresh(*old(generator)) matches Some((session, row_count))
            ==> spec_catalog_sales_pending(*final(generator)) == spec_catalog_sales_source_rows(
            session,
            starting_row_number as int,
            spec_catalog_sales_end(*final(generator)) as int,
        ),
{
    generator.set_source_row_range(starting_row_number, ending_row_number)
}

/// Calls `Iterator::next` of `CatalogSalesRowGenerator`: the first of the rows still to come,
/// which it then no longer holds, or `None` when none is left. Its session and last source row
/// stay. A generator that has yielded a row, or was no longer as `new` built it, is not so
/// afterwards (it only moves forward).
#[verifier::external_body]
fn catalog_sales_next(generator: &mut CatalogSalesRowGenerator) -> (row: Option<CatalogSalesRow>)
    ensures
        spec_catalog_sales_session(*final(generator)) == spec_catalog_sales_session(*old(generator)),
        spec_catalog_sales_end(*final(generator)) == spec_catalog_sales_end(*old(generator)),
        spec_catalog_sales_pending(*old(generator)).len() == 0 ==> row is None && spec_catalog_sales_pending(
            *final(generator),
        ) == spec_catalog_sales_pending(*old(generator)),
        spec_catalog_sales_pending(*old(generator)).len() > 0 ==> row == Some(
            spec_catalog_sales_pending(*old(generator))[0],
        ) && spec_catalog_sales_pending(*final(generator)) == spec_catalog_sales_pending(
            *old(generator),
        ).drop_first(),
        row is Some ==> spec_catalog_sales_fresh(*final(generator)) is None,
        spec_catalog_sales_fresh(*old(generator)) is None ==> spec_catalog_sales_fresh(*final(generator)) is None,
{
    generator.next()
}

/// Generating source rows `start..=mid` and then `mid + 1..=end` yields the rows of generating
/// `start..=end`: none is lost or repeated at the boundary.
pub proof fn law_catalog_sales_source_rows_concatenate(session: Session, start: int, mid: int, end: int)
    requires
        start <= mid + 1,
        mid <= end,
    ensures
        spec_catalog_sales_source_rows(session, start, end) == spec_catalog_sales_source_rows(session, start, mid)
            + spec_catalog_sales_source_rows(session, mid + 1, end),
    decreases end - mid,
{
    if end == mid {
        assert(spec_catalog_sales_source_rows(session, mid + 1, end) =~= Seq::empty());
        assert(spec_catalog_sales_source_rows(session, start, mid) + Seq::empty()
            =~= spec_catalog_sales_source_rows(session, start, mid));
    } else {
        law_catalog_sales_source_rows_concatenate(session, start, mid, end - 1);
        assert(spec_catalog_sales_source_rows(session, start, end) =~= spec_catalog_sales_source_rows(
            session,
            start,
            mid,
        ) + spec_catalog_sales_source_rows(session, mid + 1, end));
    }
}

/// The rows of generating each of `ranges` in turn, in order.
pub open spec fn spec_catalog_sales_ranges_rows(session: Session, ranges: Seq<RowRange>) -> Seq<CatalogSalesRow>
    decreases ranges.len(),
{
    if ranges.len() == 0 {
        Seq::empty()
    } else {
        spec_catalog_sales_ranges_rows(session, ranges.drop_last()) + spec_catalog_sales_source_rows(
            session,
            ranges.last().start as int,
            ranges.last().end as int,
        )
    }
}

/// Non-empty ranges that follow each other without gap generate, in turn, the rows of the span
/// from the first start to the last end.
proof fn lemma_catalog_sales_chained_ranges(session: Session, ranges: Seq<RowRange>)
    requires
        ranges.len() > 0,
        forall|i: int| 0 <= i < ranges.len() ==> #[trigger] ranges[i].start <= ranges[i].end,
        forall|i: int| 0 <= i < ranges.len() - 1 ==> #[trigger] ranges[i + 1].start == ranges[i].end + 1,
    ensures
        ranges[0].start <= ranges.last().end,
        spec_catalog_sales_ranges_rows(session, ranges) == spec_catalog_sales_source_rows(
            session,
            ranges[0].start as int,
            ranges.last().end as int,
        ),
    decreases ranges.len(),
{
    let last = ranges.last();
    if ranges.len() == 1 {
        assert(ranges.drop_last().len() == 0);
        assert(spec_catalog_sales_ranges_rows(session, ranges.drop_last()) =~= Seq::empty());
        assert(spec_catalog_sales_ranges_rows(session, ranges) =~= spec_catalog_sales_source_rows(
            session,
            last.start as int,
            last.end as int,
        ));
    } else {
        let front = ranges.drop_last();
        assert forall|i: int| 0 <= i < front.len() implies #[trigger] front[i].start <= front[i].end by {
            assert(front[i] == ranges[i]);
        }
        assert forall|i: int| 0 <= i < front.len() - 1 implies #[trigger] front[i + 1].start
            == front[i].end + 1 by {
            assert(front[i] == ranges[i]);
            assert(front[i + 1] == ranges[i + 1]);
        }
        lemma_catalog_sales_chained_ranges(session, front);
        let k = ranges.len() - 2;
        assert(front.last() == ranges[k]);
        assert(front[0] == ranges[0]);
        assert(ranges[k + 1].start == ranges[k].end + 1);
        law_catalog_sales_source_rows_concatenate(
            session,
            ranges[0].start as int,
            ranges[k].end as int,
            last.end as int,
        );
    }
}

/// Ranges that cover source rows `1..=rows` (as a plan's row groups do, see
/// `law_plan_covers_source_rows`) generate, one after the other, exactly the rows of all `rows`
/// source rows: readers ranged over them, concatenated, give the rows of the unranged reader.
pub proof fn law_catalog_sales_covering_ranges_concatenate(session: Session, ranges: Seq<RowRange>, rows: nat)
    requires
        spec_covers(ranges, rows),
    ensures
        spec_catalog_sales_ranges_rows(session, ranges) == spec_catalog_sales_source_rows(session, 1, rows as int),
{
    lemma_catalog_sales_chained_ranges(session, ranges);
}

/// Generation is deterministic: readers of equal sessions over the same source rows, at the
/// same batch size, hand out the same batches.
pub proof fn law_catalog_sales_equal_sessions_equal_batches(
    first: Session,
    second: Session,
    start: int,
    end: int,
    batch_size: nat,
)
    requires
        first == second,
    ensures
        spec_batches(spec_catalog_sales_source_rows(first, start, end), batch_size) == spec_batches(
            spec_catalog_sales_source_rows(second, start, end),
            batch_size,
        ),
{
}

/// Skipping to source row `start` leaves the rows that a range `start..=ending_row_number`
/// leaves, for any ending row number at or past the last source row `end`.
pub proof fn law_catalog_sales_skip_is_range_to_the_end(session: Session, start: int, end: u64, ending_row_number: u64)
    requires
        end <= ending_row_number,
    ensures
        spec_catalog_sales_source_rows(session, start, end as int) == spec_catalog_sales_source_rows(
            session,
            start,
            (if ending_row_number < end {
                ending_row_number
            } else {
                end
            }) as int,
        ),
{
}

/// Generates the `catalog_sales` table as record batches of at most `batch_size` rows, each
/// batch as its columns of cells.
pub struct CatalogSalesArrow {
    generator: CatalogSalesRowGenerator,
    batch_size: usize,
}

impl CatalogSalesArrow {
    /// The number of rows per batch.
    pub closed spec fn spec_batch_size(&self) -> usize {
        self.batch_size
    }

    /// The rows the reader's generator has still to yield, in order.
    pub closed spec fn spec_pending(&self) -> Seq<CatalogSalesRow> {
        spec_catalog_sales_pending(self.generator)
    }

    /// The session the reader generates from.
    pub closed spec fn spec_session(&self) -> Session {
        spec_catalog_sales_session(self.generator)
    }

    /// The last source row the reader generates.
    pub closed spec fn spec_end(&self) -> u64 {
        spec_catalog_sales_end(self.generator)
    }

    /// Whether a skip or a range on the reader yields exactly the source rows asked for: while
    /// the reader is as `new` built it.
    pub closed spec fn spec_at_row_start(&self) -> bool {
        spec_catalog_sales_fresh(self.generator) == Some((spec_catalog_sales_session(self.generator), spec_catalog_sales_end(self.generator)))
    }

    /// A reader of all the table's rows at the scale of `session`, in batches of
    /// [`DEFAULT_BATCH_SIZE`] rows: its generator yields the rows of source rows `1..=n`, where
    /// `n` is the row count of `CatalogSales` at the session's scaling.
    pub fn new(session: Session) -> (reader: Self)
        ensures
            reader.spec_batch_size() == DEFAULT_BATCH_SIZE,
            reader.spec_session() == session,
            reader.spec_end() == spec_catalog_sales_table_rows(session),
            reader.spec_at_row_start(),
            reader.spec_pending() == spec_catalog_sales_source_rows(
                session,
                1,
                spec_catalog_sales_table_rows(session) as int,
            ),
            forall|n: nat| 1 <= n <= spec_catalog_sales_table_rows(session) ==> 4 <= #[trigger] spec_catalog_sales_source_row(session, n).len() <= 14,
    {
        let row_count = scaling_row_count(session_scaling(&session), Table::CatalogSales.values_index());
        CatalogSalesArrow { generator: catalog_sales_generator(session, row_count), batch_size: DEFAULT_BATCH_SIZE }
    }

    /// Start generating at source row `starting_row_number` (1-based); the generator still ends
    /// at its last source row. When a skip yields exactly the rows asked for (see
    /// `spec_at_row_start`), the rows to come are those of source rows
    /// `starting_row_number..=end`.
    pub fn skip_rows_until_starting_row_number(&mut self, starting_row_number: u64)
        requires
            1 <= starting_row_number <= MAX_STARTING_ROW_NUMBER,
        ensures
            final(self).spec_batch_size() == old(self).spec_batch_size(),
            final(self).spec_session() == old(self).spec_session(),
            final(self).spec_end() == old(self).spec_end(),
            old(self).spec_at_row_start() ==> final(self).spec_pending() == spec_catalog_sales_source_rows(
                old(self).spec_session(),
                starting_row_number as int,
                old(self).spec_end() as int,
            ),
    {
        catalog_sales_skip(&mut self.generator, starting_row_number);
    }

    /// Generate only source rows `starting_row_number..=ending_row_number` (1-based,
    /// inclusive). The ending row number is clamped to the table's row count.
    pub fn with_source_row_range(self, starting_row_number: u64, ending_row_number: u64) -> (reader: Self)
        requires
            1 <= starting_row_number <= MAX_STARTING_ROW_NUMBER,
        ensures
            reader.spec_batch_size() == self.spec_batch_size(),
            reader.spec_session() == self.spec_session(),
            reader.spec_end() == if ending_row_number < self.spec_end() {
                ending_row_number
            } else {
                self.spec_end()
            },
            self.spec_at_row_start() ==> reader.spec_pending() == spec_catalog_sales_source_rows(
                self.spec_session(),
                starting_row_number as int,
                reader.spec_end() as int,
            ),
    {
        let mut reader = self;
        catalog_sales_set_range(&mut reader.generator, starting_row_number, ending_row_number);
        reader
    }

    /// Use batches of `batch_size` rows.
    pub fn with_batch_size(self, batch_size: usize) -> (reader: Self)
        ensures
            reader.spec_batch_size() == batch_size,
            reader.spec_pending() == self.spec_pending(),
            reader.spec_session() == self.spec_session(),
            reader.spec_end() == self.spec_end(),
            reader.spec_at_row_start() == self.spec_at_row_start(),
    {
        let mut reader = self;
        reader.batch_size = batch_size;
        reader
    }

    /// The number of rows per batch.
    pub fn batch_size(&self) -> (n: usize)
        ensures
            n == self.spec_batch_size(),
    {
        self.batch_size
    }

    /// The schema of the batches.
    pub fn schema(&self) -> (schema: Vec<ColumnSpec>)
        ensures
            spec_schema_view(schema@) == spec_catalog_sales_schema(),
    {
        catalog_sales_schema()
    }

    /// The number of rows the next batch takes: the batch size, or all the rows still to come
    /// when fewer are left.
    pub open spec fn spec_next_count(&self) -> int {
        spec_batch_take(self.spec_pending().len(), self.spec_batch_size() as nat) as int
    }

    /// The next rows of the generator: a full batch of them, or all that are left once fewer
    /// remain. They are no longer to come afterwards.
    pub fn next_records(&mut self) -> (records: Vec<CatalogSalesRecord>)
        ensures
            spec_catalog_sales_records_match(
                records@,
                old(self).spec_pending().take(old(self).spec_next_count()),
            ),
            final(self).spec_pending() == old(self).spec_pending().skip(
                old(self).spec_next_count(),
            ),
            final(self).spec_batch_size() == old(self).spec_batch_size(),
            final(self).spec_session() == old(self).spec_session(),
            final(self).spec_end() == old(self).spec_end(),
            old(self).spec_batch_size() == 0 ==> final(self).spec_at_row_start() == old(self).spec_at_row_start(),
    {
        let batch_size = self.batch_size;
        let ghost pending = self.spec_pending();
        let ghost session = self.spec_session();
        let ghost end = self.spec_end();
        let ghost at_start = self.spec_at_row_start();
        let mut records: Vec<CatalogSalesRecord> = Vec::new();
        while records.len() < batch_size
            invariant_except_break
                self.batch_size == batch_size,
                records.len() <= batch_size,
                records.len() <= pending.len(),
                self.spec_pending() == pending.skip(records.len() as int),
                spec_catalog_sales_records_match(records@, pending.take(records.len() as int)),
                self.spec_session() == session,
                self.spec_end() == end,
                records.len() == 0 ==> self.spec_at_row_start() == at_start,
            ensures
                self.batch_size == batch_size,
                records.len() == (if batch_size <= pending.len() {
                    batch_size as int
                } else {
                    pending.len() as int
                }),
                self.spec_pending() == pending.skip(records.len() as int),
                spec_catalog_sales_records_match(records@, pending.take(records.len() as int)),
                self.spec_session() == session,
                self.spec_end() == end,
                batch_size == 0 ==> self.spec_at_row_start() == at_start,
            decreases batch_size - records.len(),
        {
            let ghost done = records.len() as int;
            match catalog_sales_next(&mut self.generator) {
                Some(row) => {
                    let record = catalog_sales_record(&row);
                    records.push(record);
                    proof {
                        assert(pending.skip(done)[0] == pending[done]);
                        assert(pending.skip(done).drop_first() =~= pending.skip(done + 1));
                        assert forall|i: int| 0 <= i < records.len() implies #[trigger]
                            spec_catalog_sales_record_matches(records@[i], pending.take(done + 1)[i]) by {
                            if i < done {
                                assert(pending.take(done)[i] == pending.take(done + 1)[i]);
                            }
                        }
                    }
                },
                None => {
                    break;
                },
            }
        }
        records
    }

    /// The next record batch, as its columns: the next rows of the generator, a full batch of
    /// them or all that are left once fewer remain; `None` when no row is left (or batches hold
    /// no rows). Called until it gives `None`, a reader hands out, in order, the batches
    /// `spec_batches` cuts its rows into (see `law_batches_concatenate` and
    /// `law_batch_count_and_sizes`).
    pub fn next_batch(&mut self) -> (batch: Option<Vec<Vec<Cell>>>)
        ensures
            batch is None <==> old(self).spec_next_count() == 0,
            batch matches Some(columns) ==> spec_columns_view(columns@) == spec_columns(
                spec_catalog_sales_rows_of(old(self).spec_pending().take(old(self).spec_next_count())),
                CATALOG_SALES_COLUMNS as nat,
            ),
            batch is Some ==> spec_batches(old(self).spec_pending(), old(self).spec_batch_size() as nat)
                == seq![old(self).spec_pending().take(old(self).spec_next_count())] + spec_batches(
                final(self).spec_pending(),
                old(self).spec_batch_size() as nat,
            ),
            final(self).spec_pending() == old(self).spec_pending().skip(
                old(self).spec_next_count(),
            ),
            final(self).spec_batch_size() == old(self).spec_batch_size(),
            final(self).spec_session() == old(self).spec_session(),
            final(self).spec_end() == old(self).spec_end(),
            old(self).spec_batch_size() == 0 ==> final(self).spec_at_row_start() == old(self).spec_at_row_start(),
    {
        let ghost pending = self.spec_pending();
        let ghost rows = self.spec_pending().take(self.spec_next_count());
        let records = self.next_records();
        if records.len() == 0 {
            return None;
        }
        proof {
            lemma_catalog_sales_matching_records_cells(records@, rows);
            lemma_batches_unfold(pending, self.batch_size as nat);
        }
        Some(catalog_sales_columns(&records))
    }
}

} // verus!
