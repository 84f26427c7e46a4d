use tpcdsgen::config::{CompatMode, Scaling};
use tpcdsgen_arrow::plan::{
    estimated_bytes_per_source_row, RowRange, TpcdsGenerationPlan, MAX_ROW_GROUPS,
};
use tpcdsgen_arrow::table::Table;

const DEFAULT_ROW_GROUP_BYTES: usize = 7 * 1024 * 1024;

/// The expected values below were measured with the Trino-compatible row
/// counts (35 `reason` rows at scale factor 1), so the plans are computed
/// at those row counts.
fn scaling(scale_factor: f64) -> Scaling {
    Scaling::new_with_compat(scale_factor, CompatMode::Trino)
}

fn plan(table: Table, scale_factor: f64, row_group_bytes: usize) -> TpcdsGenerationPlan {
    TpcdsGenerationPlan::new(table, &scaling(scale_factor), row_group_bytes)
}

/// Assert the ranges cover `1..=expected_source_rows` contiguously
fn assert_covers(plan: &TpcdsGenerationPlan, expected_source_rows: u64) {
    let mut next_row = 1;
    for range in plan.ranges() {
        assert_eq!(range.start, next_row);
        assert!(range.end >= range.start);
        next_row = range.end + 1;
    }
    assert_eq!(next_row, expected_source_rows + 1);
}

#[test]
fn small_table_single_row_group() {
    let plan = plan(Table::Reason, 1.0, DEFAULT_ROW_GROUP_BYTES);
    assert_eq!(plan.ranges(), &vec![RowRange { start: 1, end: 35 }]);
}

#[test]
fn store_sales_sf1_default() {
    let plan = plan(Table::StoreSales, 1.0, DEFAULT_ROW_GROUP_BYTES);
    // ~144 MiB estimated output in 7 MiB row groups over 240k source rows
    assert_eq!(plan.row_group_count(), 21);
    assert_covers(&plan, 240_000);
}

#[test]
fn store_returns_ranges_use_sales_source_rows() {
    let plan = plan(Table::StoreReturns, 1.0, DEFAULT_ROW_GROUP_BYTES);
    // store_returns is generated from the 240k store_sales source rows
    assert_eq!(plan.row_group_count(), 3);
    assert_covers(&plan, 240_000);
}

#[test]
fn smaller_row_groups_make_more_row_groups() {
    let default = plan(Table::StoreSales, 1.0, DEFAULT_ROW_GROUP_BYTES);
    let small = plan(Table::StoreSales, 1.0, 1024 * 1024);
    assert!(small.row_group_count() > default.row_group_count());
    assert_covers(&small, 240_000);
}

#[test]
fn row_group_count_is_capped() {
    let plan = plan(Table::StoreSales, 3000.0, 1024);
    // ceiling division can leave the count just under the cap
    assert!(plan.row_group_count() <= MAX_ROW_GROUPS as usize);
    assert!(plan.row_group_count() > (MAX_ROW_GROUPS - 2) as usize);
    let source_rows = scaling(3000.0).get_row_count(tpcdsgen::config::Table::StoreSales);
    assert_covers(&plan, source_rows);
}

#[test]
fn row_groups_never_exceed_source_rows() {
    // 35 source rows in 1 byte row groups still yields at most 35 groups
    let plan = plan(Table::Reason, 1.0, 1);
    assert_eq!(plan.row_group_count(), 35);
    assert_covers(&plan, 35);
}

#[test]
fn empty_table_gets_one_empty_range() {
    let plan = plan(Table::Reason, 0.0, DEFAULT_ROW_GROUP_BYTES);
    assert_eq!(plan.row_group_count(), 1);
    let range = plan.ranges()[0];
    assert!(range.end < range.start);
}

#[test]
fn plan_from_source_rows_exact_layout() {
    // 10 rows, 100 bytes per group: the estimate (10 * 406 bytes) asks for
    // 41 groups, capped at the 10 source rows, one row each
    let plan = TpcdsGenerationPlan::from_source_rows(Table::CallCenter, 10, 100);
    assert_eq!(plan.row_group_count(), 10);
    for (i, range) in plan.ranges().iter().enumerate() {
        assert_eq!(*range, RowRange { start: i as u64 + 1, end: i as u64 + 1 });
    }
    // 7 rows asked in 3 groups: 3 rows per group, the last one short
    let plan = TpcdsGenerationPlan::from_source_rows(Table::Reason, 7, 150);
    assert_eq!(
        plan.into_ranges(),
        vec![
            RowRange { start: 1, end: 3 },
            RowRange { start: 4, end: 6 },
            RowRange { start: 7, end: 7 },
        ]
    );
}

#[test]
fn plan_zero_row_group_bytes_counts_as_one() {
    let zero = TpcdsGenerationPlan::from_source_rows(Table::Item, 1000, 0);
    let one = TpcdsGenerationPlan::from_source_rows(Table::Item, 1000, 1);
    assert_eq!(zero.ranges(), one.ranges());
    assert_eq!(zero.row_group_count(), 1000);
}

#[test]
fn plan_estimate_saturates_on_huge_tables() {
    let plan = TpcdsGenerationPlan::from_source_rows(Table::WebSales, u64::MAX, 1);
    assert!(plan.row_group_count() <= MAX_ROW_GROUPS as usize);
    assert!(plan.row_group_count() > (MAX_ROW_GROUPS - 2) as usize);
    let ranges = plan.ranges();
    assert_eq!(ranges[0].start, 1);
    assert_eq!(ranges[ranges.len() - 1].end, u64::MAX);
}

#[test]
fn estimated_bytes_per_source_row_values() {
    assert_eq!(estimated_bytes_per_source_row(Table::CallCenter), 406);
    assert_eq!(estimated_bytes_per_source_row(Table::StoreSales), 631);
    assert_eq!(estimated_bytes_per_source_row(Table::WebSales), 963);
    assert_eq!(estimated_bytes_per_source_row(Table::Inventory), 3);
}

#[test]
fn source_table_pairs_returns_with_sales() {
    assert_eq!(Table::StoreReturns.source_table(), Table::StoreSales);
    assert_eq!(Table::CatalogReturns.source_table(), Table::CatalogSales);
    assert_eq!(Table::WebReturns.source_table(), Table::WebSales);
    assert_eq!(Table::Item.source_table(), Table::Item);
}

#[test]
fn values_index_matches_tpcdsgen_order() {
    let all = [
        Table::CallCenter, Table::CatalogPage, Table::CatalogReturns, Table::CatalogSales,
        Table::Warehouse, Table::ShipMode, Table::Reason, Table::IncomeBand,
        Table::HouseholdDemographics, Table::CustomerDemographics, Table::CustomerAddress,
        Table::Customer, Table::DateDim, Table::TimeDim, Table::Item, Table::Promotion,
        Table::Store, Table::StoreReturns, Table::StoreSales, Table::WebPage, Table::WebReturns,
        Table::WebSales, Table::WebSite, Table::DbgenVersion, Table::Inventory,
    ];
    for table in all {
        let tpcds = tpcdsgen::config::Table::values()[table.values_index()];
        assert_eq!(tpcds.get_name(), format!("{table:?}").chars().fold(String::new(), |mut s, c| {
            if c.is_uppercase() && !s.is_empty() {
                s.push('_');
            }
            s.push(c.to_ascii_lowercase());
            s
        }));
    }
}

#[test]
fn only_the_last_row_group_comes_up_short() {
    for (table, rows, bytes) in [
        (Table::StoreSales, 240_000u64, DEFAULT_ROW_GROUP_BYTES),
        (Table::Item, 18_000, 100_000),
        (Table::Customer, 100_001, 1024 * 1024),
    ] {
        let plan = TpcdsGenerationPlan::from_source_rows(table, rows, bytes);
        let ranges = plan.ranges();
        let first = ranges[0].end - ranges[0].start + 1;
        for r in &ranges[..ranges.len() - 1] {
            assert_eq!(r.end - r.start + 1, first);
        }
        let last = ranges[ranges.len() - 1];
        assert!(last.end - last.start + 1 <= first);
        assert!(plan.row_group_count() as u64 <= rows);
    }
}

#[test]
fn row_group_count_within_estimate() {
    // 240,000 rows at 631 bytes over 7 MiB groups: 151,440,000 / 7,340,032 + 1 = 21
    let plan = plan(Table::StoreSales, 1.0, DEFAULT_ROW_GROUP_BYTES);
    assert!(plan.row_group_count() <= 240_000 * 631 / DEFAULT_ROW_GROUP_BYTES + 1);
    assert_eq!(plan.row_group_count(), 21);
}
