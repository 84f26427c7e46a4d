use std::collections::BTreeSet;
use tpcdsgen::config::{Session, Table as TpcdsTable};
use tpcdsgen::csv::csv_header;
use tpcdsgen_arrow::column::{ColumnSpec, ColumnType};
use tpcdsgen_arrow::tables::call_center::CallCenterArrow;
use tpcdsgen_arrow::tables::catalog_sales::CatalogSalesArrow;
use tpcdsgen_arrow::tables::item::ItemArrow;
use tpcdsgen_arrow::tables::store_sales::StoreSalesArrow;
use tpcdsgen_arrow::tables::web_returns::WebReturnsArrow;
use tpcdsgen_arrow::tables::web_site::WebSiteArrow;

fn schema_fingerprint(schema: &[ColumnSpec]) -> u64 {
    let descriptor = schema
        .iter()
        .map(|field| {
            let data_type = match field.data_type {
                ColumnType::Int32 | ColumnType::Int64 => "integer".to_string(),
                ColumnType::Utf8View => "string".to_string(),
                ColumnType::Date32 => "date".to_string(),
                ColumnType::Decimal128 { precision, scale } => {
                    format!("decimal({precision},{scale})")
                }
            };
            let nullability = if field.nullable { "nullable" } else { "required" };
            format!("{}:{data_type}:{nullability}", field.name)
        })
        .collect::<Vec<_>>()
        .join(",");

    descriptor.bytes().fold(0xcbf29ce484222325, |hash, byte| {
        (hash ^ u64::from(byte)).wrapping_mul(0x100000001b3)
    })
}

fn table_schemas(session: &Session) -> Vec<(TpcdsTable, Vec<ColumnSpec>)> {
    vec![
        (TpcdsTable::Item, ItemArrow::new(session.clone()).schema()),
        (TpcdsTable::CallCenter, CallCenterArrow::new(session.clone()).schema()),
        (TpcdsTable::WebSite, WebSiteArrow::new(session.clone()).schema()),
        (TpcdsTable::WebReturns, WebReturnsArrow::new(session.clone()).schema()),
        (TpcdsTable::CatalogSales, CatalogSalesArrow::new(session.clone()).schema()),
        (TpcdsTable::StoreSales, StoreSalesArrow::new(session.clone()).schema()),
    ]
}

#[test]
fn arrow_schemas_match_canonical_columns_and_decimals() {
    let expected = [
        ("item", 22, 0x402b6fe0f746f141),
        ("call_center", 31, 0x5382dbc7050ac76f),
        ("web_site", 26, 0xa13f4fe04fc201c8),
        ("web_returns", 24, 0x660a2030b37af161),
        ("catalog_sales", 34, 0x31169f631b8f1e43),
        ("store_sales", 23, 0x9d46b5a676f193ba),
    ];
    let session = Session::default();
    let mut visited = BTreeSet::new();
    let mut mismatches = Vec::new();

    for (table, schema) in table_schemas(&session) {
        let table_name = table.get_name();
        assert!(visited.insert(table_name), "duplicate schema for {table_name}");
        let (_, expected_columns, expected_fingerprint) = expected
            .iter()
            .find(|(name, _, _)| *name == table_name)
            .expect("canonical C-kit table");
        let arrow_header = schema
            .iter()
            .map(|field| field.name.as_str())
            .collect::<Vec<_>>()
            .join(",");

        assert_eq!(schema.len(), *expected_columns, "{table_name}");
        let actual_fingerprint = schema_fingerprint(&schema);
        if actual_fingerprint != *expected_fingerprint {
            mismatches.push((table_name, actual_fingerprint, *expected_fingerprint));
        }
        assert_eq!(csv_header(table, ','), arrow_header, "{table_name}");
    }

    let expected_tables = expected.iter().map(|(name, _, _)| *name).collect::<BTreeSet<_>>();
    assert_eq!(visited, expected_tables);
    assert!(mismatches.is_empty(), "{mismatches:#x?}");
}

#[test]
fn arrow_integer_widths_match_lakebench_v4() {
    let session = Session::default();
    let mut integer_fields = 0;
    let mut bigint_fields = Vec::new();

    for (table, schema) in table_schemas(&session) {
        for field in &schema {
            match field.data_type {
                ColumnType::Int32 => integer_fields += 1,
                ColumnType::Int64 => {
                    bigint_fields.push(format!("{}.{}", table.get_name(), field.name))
                }
                _ => {}
            }
        }
    }

    bigint_fields.sort_unstable();
    // item 6, call_center 8, web_site 5, web_returns 14, catalog_sales 18, store_sales 10
    assert_eq!(integer_fields, 61);
    assert_eq!(
        bigint_fields,
        [
            "catalog_sales.cs_order_number",
            "store_sales.ss_ticket_number",
            "web_returns.wr_order_number",
        ]
    );
}

fn assert_decimal_fields(schema: Vec<ColumnSpec>, expected: &[(&str, u8)]) {
    let actual: Vec<_> = schema
        .iter()
        .filter_map(|field| match field.data_type {
            ColumnType::Decimal128 { precision, scale } => {
                Some((field.name.clone(), precision, scale))
            }
            _ => None,
        })
        .collect();
    let expected: Vec<_> = expected
        .iter()
        .map(|(name, precision)| (name.to_string(), *precision, 2))
        .collect();

    assert_eq!(actual, expected);
}

#[test]
fn arrow_decimal_schemas_match_canonical_c_kit() {
    let session = Session::default();

    assert_decimal_fields(
        CallCenterArrow::new(session.clone()).schema(),
        &[("cc_gmt_offset", 5), ("cc_tax_percentage", 5)],
    );
    assert_decimal_fields(
        CatalogSalesArrow::new(session.clone()).schema(),
        &[
            ("cs_wholesale_cost", 7),
            ("cs_list_price", 7),
            ("cs_sales_price", 7),
            ("cs_ext_discount_amt", 7),
            ("cs_ext_sales_price", 7),
            ("cs_ext_wholesale_cost", 7),
            ("cs_ext_list_price", 7),
            ("cs_ext_tax", 7),
            ("cs_coupon_amt", 7),
            ("cs_ext_ship_cost", 7),
            ("cs_net_paid", 7),
            ("cs_net_paid_inc_tax", 7),
            ("cs_net_paid_inc_ship", 7),
            ("cs_net_paid_inc_ship_tax", 7),
            ("cs_net_profit", 7),
        ],
    );
    assert_decimal_fields(
        ItemArrow::new(session.clone()).schema(),
        &[("i_current_price", 7), ("i_wholesale_cost", 7)],
    );
    assert_decimal_fields(
        StoreSalesArrow::new(session.clone()).schema(),
        &[
            ("ss_wholesale_cost", 7),
            ("ss_list_price", 7),
            ("ss_sales_price", 7),
            ("ss_ext_discount_amt", 7),
            ("ss_ext_sales_price", 7),
            ("ss_ext_wholesale_cost", 7),
            ("ss_ext_list_price", 7),
            ("ss_ext_tax", 7),
            ("ss_coupon_amt", 7),
            ("ss_net_paid", 7),
            ("ss_net_paid_inc_tax", 7),
            ("ss_net_profit", 7),
        ],
    );
    assert_decimal_fields(
        WebReturnsArrow::new(session.clone()).schema(),
        &[
            ("wr_return_amt", 7),
            ("wr_return_tax", 7),
            ("wr_return_amt_inc_tax", 7),
            ("wr_fee", 7),
            ("wr_return_ship_cost", 7),
            ("wr_refunded_cash", 7),
            ("wr_reversed_charge", 7),
            ("wr_account_credit", 7),
            ("wr_net_loss", 7),
        ],
    );
    assert_decimal_fields(
        WebSiteArrow::new(session).schema(),
        &[("web_gmt_offset", 5), ("web_tax_percentage", 5)],
    );
}
