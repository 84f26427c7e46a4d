use tpcdsgen::config::{Session, SessionBuilder};
use tpcdsgen_arrow::plan::RowRange;
use tpcdsgen_arrow::progress::{
    chunk_returns_row_count, range_len, register_table, table_progress, ProgressTotal,
    TableProgress,
};
use tpcdsgen_arrow::table::Table;

#[test]
fn range_len_counts_inclusive_rows() {
    assert_eq!(range_len(&RowRange { start: 1, end: 35 }), 35);
    assert_eq!(range_len(&RowRange { start: 7, end: 7 }), 1);
    // an empty range (a chunk that got no rows) has no rows
    assert_eq!(range_len(&RowRange { start: 1, end: 0 }), 0);
    assert_eq!(range_len(&RowRange { start: 10, end: 3 }), 0);
}

#[test]
fn chunk_returns_scale_with_the_chunk() {
    // a quarter of the source rows gets a quarter of the returns
    assert_eq!(chunk_returns_row_count(1000, 100, 250), 25);
    // rounded down
    assert_eq!(chunk_returns_row_count(3, 10, 1), 3);
    // the whole table gets all the returns
    assert_eq!(chunk_returns_row_count(240_000, 23_990, 240_000), 23_990);
    // a table without source rows registers no returns
    assert_eq!(chunk_returns_row_count(0, 100, 0), 0);
    // no overflow on huge tables
    assert_eq!(chunk_returns_row_count(u64::MAX, u64::MAX, u64::MAX), u64::MAX);
    assert_eq!(chunk_returns_row_count(1, u64::MAX, 2), u64::MAX);
}

#[test]
fn returns_tables_register_nothing() {
    let chunk = RowRange { start: 1, end: 100 };
    for table in [Table::StoreReturns, Table::CatalogReturns, Table::WebReturns] {
        assert_eq!(table_progress(table, chunk, 100, 10), TableProgress::Nothing);
    }
}

#[test]
fn sales_tables_register_pairs() {
    let chunk = RowRange { start: 51, end: 100 };
    assert_eq!(
        table_progress(Table::CatalogSales, chunk, 200, 40),
        TableProgress::Paired {
            sales: ProgressTotal { table: Table::CatalogSales, rows: 50 },
            paired_returns: ProgressTotal { table: Table::CatalogReturns, rows: 10 },
        }
    );
    assert_eq!(
        table_progress(Table::WebSales, chunk, 200, 40),
        TableProgress::Paired {
            sales: ProgressTotal { table: Table::WebSales, rows: 50 },
            paired_returns: ProgressTotal { table: Table::WebReturns, rows: 10 },
        }
    );
}

#[test]
fn other_tables_register_their_chunk() {
    let chunk = RowRange { start: 1, end: 0 };
    assert_eq!(
        table_progress(Table::Item, chunk, 0, 0),
        TableProgress::Single(ProgressTotal { table: Table::Item, rows: 0 })
    );
}

#[test]
fn register_table_whole_session() {
    let session = Session::default();
    let scaling = session.get_scaling();
    let sales = scaling.get_row_count(tpcdsgen::config::Table::StoreSales);
    let returns = scaling.get_row_count(tpcdsgen::config::Table::StoreReturns);
    assert_eq!(
        register_table(Table::StoreSales, &session),
        TableProgress::Paired {
            sales: ProgressTotal { table: Table::StoreSales, rows: sales },
            paired_returns: ProgressTotal { table: Table::StoreReturns, rows: returns },
        }
    );
    assert_eq!(register_table(Table::StoreReturns, &session), TableProgress::Nothing);
    let items = scaling.get_row_count(tpcdsgen::config::Table::Item);
    assert_eq!(
        register_table(Table::Item, &session),
        TableProgress::Single(ProgressTotal { table: Table::Item, rows: items })
    );
}

#[test]
fn register_table_counts_only_this_chunk() {
    let session = SessionBuilder::new()
        .with_scale_factor(10.0)
        .with_chunk_number(2)
        .with_total_chunks(4)
        .build()
        .unwrap();
    let scaling = session.get_scaling();
    let full_sales = scaling.get_row_count(tpcdsgen::config::Table::StoreSales);
    let full_returns = scaling.get_row_count(tpcdsgen::config::Table::StoreReturns);
    let range = session.get_source_row_range(tpcdsgen::config::Table::StoreSales);
    let chunk = range.end() - range.start() + 1;
    assert!(chunk < full_sales);
    assert_eq!(
        register_table(Table::StoreSales, &session),
        TableProgress::Paired {
            sales: ProgressTotal { table: Table::StoreSales, rows: chunk },
            paired_returns: ProgressTotal {
                table: Table::StoreReturns,
                rows: full_returns * chunk / full_sales,
            },
        }
    );
    // small tables are generated entirely by the first chunk
    assert_eq!(
        register_table(Table::Reason, &session),
        TableProgress::Single(ProgressTotal { table: Table::Reason, rows: 0 })
    );
}

#[test]
fn chunk_returns_never_add_up_past_the_table() {
    let (full_source, full_returns) = (240_000u64, 23_997u64);
    for parts in [1u64, 3, 4, 7, 1000] {
        let base = full_source / parts;
        let extra = full_source % parts;
        let total: u64 = (0..parts)
            .map(|i| base + u64::from(i < extra))
            .map(|chunk| chunk_returns_row_count(full_source, full_returns, chunk))
            .sum();
        assert!(total <= full_returns, "{parts} parts");
        assert!(total + parts >= full_returns, "{parts} parts");
    }
}
