use tpcdsgen::config::{Session, Table as TpcdsTable};
use tpcdsgen::row::{CallCenterRowGenerator, ItemRowGenerator, StoreSalesRowGenerator, WebReturnsRowGenerator};
use tpcdsgen_arrow::column::{Cell, ColumnSpec, DEFAULT_BATCH_SIZE};
use tpcdsgen_arrow::tables::call_center::CallCenterArrow;
use tpcdsgen_arrow::tables::catalog_sales::CatalogSalesArrow;
use tpcdsgen_arrow::tables::item::ItemArrow;
use tpcdsgen_arrow::tables::store_sales::StoreSalesArrow;
use tpcdsgen_arrow::tables::web_returns::WebReturnsArrow;
use tpcdsgen_arrow::tables::web_site::WebSiteArrow;

/// `YYYY-MM-DD` of a day count since 1970-01-01.
fn civil_date(days: i32) -> String {
    let z = days as i64 + 719468;
    let era = z.div_euclid(146097);
    let doe = z.rem_euclid(146097);
    let yoe = (doe - doe / 1460 + doe / 36524 - doe / 146096) / 365;
    let doy = doe - (365 * yoe + yoe / 4 - yoe / 100);
    let mp = (5 * doy + 2) / 153;
    let d = doy - (153 * mp + 2) / 5 + 1;
    let m = if mp < 10 { mp + 3 } else { mp - 9 };
    let y = yoe + era * 400 + if m <= 2 { 1 } else { 0 };
    format!("{y:04}-{m:02}-{d:02}")
}

fn decimal_text(v: i128) -> String {
    let sign = if v < 0 { "-" } else { "" };
    format!("{sign}{}.{:02}", v.abs() / 100, v.abs() % 100)
}

/// The text of a cell, `None` for null.
fn text(cell: &Cell) -> Option<String> {
    match cell {
        Cell::Int32(v) => v.map(|v| v.to_string()),
        Cell::Int64(v) => v.map(|v| v.to_string()),
        Cell::Utf8(v) => v.clone(),
        Cell::Date32(v) => v.map(civil_date),
        Cell::Decimal128(v) => v.map(decimal_text),
    }
}

fn is_null(cell: &Cell) -> bool {
    text(cell).is_none()
}

/// Every column has `rows` cells and required columns hold no null.
fn assert_batch_shape(schema: &[ColumnSpec], columns: &[Vec<Cell>], rows: usize) {
    assert_eq!(columns.len(), schema.len());
    for (spec, column) in schema.iter().zip(columns) {
        assert_eq!(column.len(), rows, "{}", spec.name);
        if !spec.nullable {
            assert!(column.iter().all(|c| !is_null(c)), "null in {}", spec.name);
        }
    }
}

fn dat_values(line: &str) -> Vec<String> {
    line.strip_suffix('|').unwrap().split('|').map(str::to_string).collect()
}

#[test]
fn call_center_batch_matches_generated_rows() {
    let session = Session::default();
    let row_count = session.get_scaling().get_row_count(TpcdsTable::CallCenter);
    let mut reader = CallCenterArrow::new(session.clone());
    assert_eq!(reader.batch_size(), DEFAULT_BATCH_SIZE);
    let schema = reader.schema();
    let columns = reader.next_batch().expect("one batch");
    assert_batch_shape(&schema, &columns, row_count as usize);
    assert!(reader.next_batch().is_none());

    let generator = CallCenterRowGenerator::new(session, row_count);
    for (i, row) in generator.enumerate() {
        let dat = dat_values(&row.to_string());
        for j in [0, 1, 6, 7, 8, 20, 21, 28, 30] {
            let actual = text(&columns[j][i]).unwrap_or("NULL".to_string());
            assert_eq!(actual, dat[j], "row {i} column {}", schema[j].name);
        }
        assert_eq!(text(&columns[27][i]).unwrap_or_default(), dat[27], "row {i} zip");
        let start = text(&columns[2][i]).unwrap_or_default();
        assert_eq!(start, dat[2], "row {i} rec_start_date");
        let gmt = text(&columns[29][i]).unwrap_or("NULL".to_string());
        if gmt != "NULL" {
            assert_eq!(gmt, format!("{}.00", dat[29]), "row {i} gmt offset");
        }
    }
}

#[test]
fn item_batch_matches_generated_rows() {
    let session = Session::default();
    let row_count = session.get_scaling().get_row_count(TpcdsTable::Item);
    let mut reader = ItemArrow::new(session.clone()).with_batch_size(100);
    let schema = reader.schema();
    let columns = reader.next_batch().expect("a batch");
    assert_batch_shape(&schema, &columns, 100);

    let generator = ItemRowGenerator::new(session, row_count);
    for (i, row) in generator.take(100).enumerate() {
        let dat = dat_values(&row.to_string());
        for j in [0, 1, 4, 5, 6, 8, 21] {
            let actual = text(&columns[j][i]).unwrap_or_default();
            assert_eq!(actual, dat[j], "row {i} column {}", schema[j].name);
        }
    }
}

#[test]
fn web_site_batches_cover_all_rows() {
    let session = Session::default();
    let row_count = session.get_scaling().get_row_count(TpcdsTable::WebSite);
    let mut reader = WebSiteArrow::new(session).with_batch_size(5);
    let schema = reader.schema();
    let mut total = 0;
    while let Some(columns) = reader.next_batch() {
        let rows = columns[0].len();
        assert!(rows >= 1 && rows <= 5);
        assert_batch_shape(&schema, &columns, rows);
        total += rows;
    }
    assert_eq!(total as u64, row_count);
}

#[test]
fn store_sales_source_row_range_matches_generator() {
    let session = Session::default();
    let row_count = session.get_scaling().get_row_count(TpcdsTable::StoreSales);
    let mut reader = StoreSalesArrow::new(session.clone())
        .with_source_row_range(11, 20)
        .with_batch_size(7);
    let schema = reader.schema();
    let mut total = 0;
    let mut tickets = Vec::new();
    while let Some(columns) = reader.next_batch() {
        let rows = columns[0].len();
        assert!(rows <= 7);
        assert_batch_shape(&schema, &columns, rows);
        tickets.extend(columns[9].iter().map(|c| text(c).unwrap()));
        total += rows;
    }
    let mut generator = StoreSalesRowGenerator::new(session, row_count);
    generator.set_source_row_range(11, 20);
    let expected: Vec<String> = generator.map(|row| dat_values(&row.to_string())[9].clone()).collect();
    assert_eq!(total, expected.len());
    assert_eq!(tickets, expected);
    // one ticket per source row: tickets 11 to 20
    assert_eq!(tickets.first().map(String::as_str), Some("11"));
    assert_eq!(tickets.last().map(String::as_str), Some("20"));
}

#[test]
fn store_sales_coupon_fills_discount_column() {
    let mut reader = StoreSalesArrow::new(Session::default()).with_batch_size(50);
    let columns = reader.next_batch().unwrap();
    // ss_ext_discount_amt (14) and ss_coupon_amt (19) both hold the coupon amount
    for i in 0..50 {
        assert_eq!(text(&columns[14][i]), text(&columns[19][i]));
    }
}

#[test]
fn web_returns_follow_web_sales_source_rows() {
    let session = Session::default();
    let sales_rows = session.get_scaling().get_row_count(TpcdsTable::WebSales);
    let mut reader = WebReturnsArrow::new(session.clone()).with_source_row_range(1, 50);
    let schema = reader.schema();
    let columns = reader.next_batch().expect("some returns");
    let mut generator = WebReturnsRowGenerator::new(session, sales_rows);
    generator.set_source_row_range(1, 50);
    let expected: Vec<Vec<String>> = generator.map(|row| dat_values(&row.to_string())).collect();
    assert_batch_shape(&schema, &columns, expected.len());
    for (i, dat) in expected.iter().enumerate() {
        // order number and item key
        assert_eq!(text(&columns[13][i]).unwrap(), dat[13]);
        assert_eq!(text(&columns[2][i]).unwrap(), dat[2]);
    }
}

#[test]
fn catalog_sales_skip_starts_later() {
    let session = Session::default();
    let mut all = CatalogSalesArrow::new(session.clone()).with_batch_size(2000);
    let first = all.next_batch().unwrap();
    let mut skipped = CatalogSalesArrow::new(session).with_batch_size(1);
    skipped.skip_rows_until_starting_row_number(2);
    let batch = skipped.next_batch().unwrap();
    assert_eq!(batch.len(), 34);
    // the first line item of the second order
    let second_order = first[17].iter().position(|c| text(c).as_deref() == Some("2")).unwrap();
    for j in 0..34 {
        assert_eq!(text(&batch[j][0]), text(&first[j][second_order]));
    }
}

#[test]
fn zero_batch_size_yields_nothing() {
    let mut reader = CallCenterArrow::new(Session::default()).with_batch_size(0);
    assert_eq!(reader.batch_size(), 0);
    assert!(reader.next_records().is_empty());
    assert!(reader.next_batch().is_none());
}

/// All rows of the batches that `next` hands out until it says `None`, each
/// row as the text of its cells.
fn drain_rows(mut next: impl FnMut() -> Option<Vec<Vec<Cell>>>) -> Vec<Vec<Option<String>>> {
    let mut rows = Vec::new();
    while let Some(columns) = next() {
        for i in 0..columns[0].len() {
            rows.push(columns.iter().map(|c| text(&c[i])).collect());
        }
    }
    rows
}

#[test]
fn store_sales_ranges_concatenate_to_the_whole() {
    let session = Session::default();
    let mut whole = StoreSalesArrow::new(session.clone()).with_source_row_range(1, 30);
    let mut first = StoreSalesArrow::new(session.clone()).with_source_row_range(1, 12);
    let mut second = StoreSalesArrow::new(session).with_source_row_range(13, 30);
    let whole_rows = drain_rows(|| whole.next_batch());
    let mut split_rows = drain_rows(|| first.next_batch());
    split_rows.extend(drain_rows(|| second.next_batch()));
    assert!(!whole_rows.is_empty());
    assert_eq!(whole_rows, split_rows);
}

#[test]
fn item_batch_size_does_not_change_the_rows() {
    let session = Session::default();
    let mut small = ItemArrow::new(session.clone()).with_source_row_range(1, 40).with_batch_size(3);
    let mut large = ItemArrow::new(session).with_source_row_range(1, 40).with_batch_size(1000);
    let small_rows = drain_rows(|| small.next_batch());
    let large_rows = drain_rows(|| large.next_batch());
    assert_eq!(small_rows.len(), 40);
    assert_eq!(small_rows, large_rows);
}

#[test]
fn readers_built_alike_give_equal_batches() {
    let mut a = CallCenterArrow::new(Session::default()).with_batch_size(2);
    let mut b = CallCenterArrow::new(Session::default()).with_batch_size(2);
    assert_eq!(drain_rows(|| a.next_batch()), drain_rows(|| b.next_batch()));
}

#[test]
fn catalog_sales_first_batch_is_full() {
    let mut reader = CatalogSalesArrow::new(Session::default()).with_batch_size(1000);
    let columns = reader.next_batch().expect("a batch");
    assert_eq!(columns.len(), 34);
    assert_eq!(columns[0].len(), 1000);
}

#[test]
fn range_past_the_end_yields_nothing() {
    let mut reader = WebSiteArrow::new(Session::default()).with_source_row_range(1000, 2000);
    assert!(reader.next_batch().is_none());
}


#[test]
fn web_site_batch_count_and_sizes() {
    let mut reader = WebSiteArrow::new(Session::default()).with_batch_size(7);
    let mut sizes = Vec::new();
    while let Some(columns) = reader.next_batch() {
        sizes.push(columns[0].len());
    }
    // 30 rows at scale factor 1: ceil(30 / 7) = 5 batches
    assert_eq!(sizes, vec![7, 7, 7, 7, 2]);
}

#[test]
fn call_center_ranged_reader_row_total() {
    let mut reader = CallCenterArrow::new(Session::default()).with_source_row_range(2, 4);
    assert_eq!(drain_rows(|| reader.next_batch()).len(), 3);
}

#[test]
fn call_center_range_after_reading() {
    let session = Session::default();
    let mut read = CallCenterArrow::new(session.clone()).with_batch_size(4);
    assert!(read.next_batch().is_some());
    let mut ranged = read.with_source_row_range(1, 3);
    let mut fresh = CallCenterArrow::new(session).with_source_row_range(1, 3);
    assert_eq!(drain_rows(|| ranged.next_batch()), drain_rows(|| fresh.next_batch()));
}

#[test]
fn store_sales_range_after_reading_everything() {
    let session = Session::default();
    let mut read = StoreSalesArrow::new(session.clone()).with_source_row_range(1, 3);
    assert!(!drain_rows(|| read.next_batch()).is_empty());
    // a range never reaches past the last source row already set (3 here)
    let mut clamped = read.with_source_row_range(2, 6);
    let mut fresh = StoreSalesArrow::new(session).with_source_row_range(2, 3);
    let rows = drain_rows(|| clamped.next_batch());
    assert!(!rows.is_empty());
    assert_eq!(rows, drain_rows(|| fresh.next_batch()));
}

#[test]
fn item_skip_is_range_to_the_end() {
    let session = Session::default();
    let mut skipped = ItemArrow::new(session.clone());
    skipped.skip_rows_until_starting_row_number(17_990);
    let mut ranged = ItemArrow::new(session).with_source_row_range(17_990, u64::MAX);
    let rows = drain_rows(|| skipped.next_batch());
    assert_eq!(rows.len(), 11);
    assert_eq!(rows, drain_rows(|| ranged.next_batch()));
}
