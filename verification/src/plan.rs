//! Row group layout for TPC-DS Parquet files.
//!
//! A [`TpcdsGenerationPlan`] splits a table's source rows into contiguous,
//! 1-based, inclusive ranges, one per Parquet row group. The number of row
//! groups is computed from the source row count, an estimated number of
//! Parquet bytes per source row and the target row group size, capped at
//! Parquet's row group limit. Each range can then be generated (and encoded)
//! independently.
//!
//! The ranges are over *source* rows: the returns tables are generated from
//! their paired sales generator, so their ranges are over the sales table's
//! source rows.
use crate::table::{spec_source_table, spec_values_index, Table};
use crate::tpcds::{scaling_row_count, spec_scaling_row_count};
use tpcdsgen::config::Scaling;
use vstd::prelude::*;

verus! {

/// Parquet files can have at most 32767 row groups.
pub const MAX_ROW_GROUPS: u64 = 32767;

/// The largest source row a row generator can be started at (2 to the 56th).
/// Starting at row `n` fast-forwards each random number stream by `n - 1`
/// rows times the stream's seeds per row, counted in a `u64`; `tpcdsgen`'s
/// columns draw at most 200 seeds per row (the item description), and
/// 2 to the 56th times 200 stays below 2 to the 64th.
pub const MAX_STARTING_ROW_NUMBER: u64 = 0x0100_0000_0000_0000;

/// An inclusive range `start..=end` of 1-based source row numbers; it is
/// empty when `end < start`.
#[derive(Clone, Copy, Debug, PartialEq, Eq, Structural)]
pub struct RowRange {
    pub start: u64,
    pub end: u64,
}

/// Estimated (uncompressed) Parquet bytes written per *source* row of each
/// table, measured from files generated at scale factor 1.
pub open spec fn spec_estimated_bytes_per_source_row(table: Table) -> nat {
    match table {
        Table::CallCenter => 406,
        Table::CatalogPage => 108,
        Table::CatalogReturns => 79,
        Table::CatalogSales => 786,
        Table::Customer => 86,
        Table::CustomerAddress => 42,
        Table::CustomerDemographics => 5,
        Table::DateDim => 53,
        Table::DbgenVersion => 407,
        Table::HouseholdDemographics => 6,
        Table::IncomeBand => 20,
        Table::Inventory => 3,
        Table::Item => 165,
        Table::Promotion => 90,
        Table::Reason => 50,
        Table::ShipMode => 72,
        Table::Store => 248,
        Table::StoreReturns => 78,
        Table::StoreSales => 631,
        Table::TimeDim => 34,
        Table::Warehouse => 202,
        Table::WebPage => 42,
        Table::WebReturns => 104,
        Table::WebSales => 963,
        Table::WebSite => 198,
    }
}

/// `ceil(a / b)` for `b > 0`.
pub open spec fn spec_ceil_div(a: nat, b: nat) -> nat
    recommends
        b > 0,
{
    ((a + b - 1) as nat) / b
}

pub open spec fn spec_min(a: nat, b: nat) -> nat {
    if a <= b {
        a
    } else {
        b
    }
}

pub open spec fn spec_max(a: nat, b: nat) -> nat {
    if a >= b {
        a
    } else {
        b
    }
}

/// The number of row groups aimed for: the estimated size (the saturating
/// product of source rows and bytes per source row) divided by the row group
/// size (at least 1), plus one, capped at [`MAX_ROW_GROUPS`] and at the
/// number of source rows, and at least 1.
pub open spec fn spec_num_row_groups(source_rows: nat, bytes_per_row: nat, row_group_bytes: nat) -> nat {
    let estimated = spec_min(source_rows * bytes_per_row, u64::MAX as nat);
    let per_group = spec_max(row_group_bytes, 1);
    spec_max(
        spec_min(spec_min(estimated / per_group + 1, MAX_ROW_GROUPS as nat), source_rows),
        1,
    )
}

/// Source rows per row group: the ceiling of the source rows over the number
/// of row groups, and at least 1, so that only the last group comes up short.
pub open spec fn spec_rows_per_group(source_rows: nat, num_groups: nat) -> nat {
    spec_max(spec_ceil_div(source_rows, num_groups), 1)
}

/// The `i`-th range when `source_rows` are cut into groups of
/// `rows_per_group` rows.
pub open spec fn spec_row_range(i: nat, rows_per_group: nat, source_rows: nat) -> RowRange {
    RowRange {
        start: (i * rows_per_group + 1) as u64,
        end: spec_min((i + 1) * rows_per_group, source_rows) as u64,
    }
}

/// The ranges of `source_rows` cut into groups of `rows_per_group`; a table
/// without rows gets the single empty range `1..=0`, so that a valid file
/// holding the table schema can still be written.
pub open spec fn spec_ranges(source_rows: nat, rows_per_group: nat) -> Seq<RowRange> {
    if source_rows == 0 {
        seq![RowRange { start: 1, end: 0 }]
    } else {
        Seq::new(
            spec_ceil_div(source_rows, rows_per_group),
            |i: int| spec_row_range(i as nat, rows_per_group, source_rows),
        )
    }
}

/// The plan of `table` when it has `source_rows` source rows and row groups
/// should hold about `row_group_bytes` bytes.
pub open spec fn spec_plan_ranges(table: Table, source_rows: nat, row_group_bytes: nat) -> Seq<RowRange> {
    let n = spec_num_row_groups(
        source_rows,
        spec_estimated_bytes_per_source_row(table),
        row_group_bytes,
    );
    spec_ranges(source_rows, spec_rows_per_group(source_rows, n))
}

/// How to generate a TPC-DS table as a Parquet file: a list of contiguous
/// source row ranges, each of which is generated as one row group.
#[derive(Clone, Debug)]
pub struct TpcdsGenerationPlan {
    /// Inclusive 1-based source row ranges, one per row group.
    ranges: Vec<RowRange>,
}

impl View for TpcdsGenerationPlan {
    type V = Seq<RowRange>;

    closed spec fn view(&self) -> Seq<RowRange> {
        self.ranges@
    }
}

/// Estimated (uncompressed) Parquet bytes written per *source* row of
/// `table` (see [`TpcdsGenerationPlan`] for what a source row is).
pub fn estimated_bytes_per_source_row(table: Table) -> (b: u64)
    ensures
        b == spec_estimated_bytes_per_source_row(table),
{
    match table {
        Table::CallCenter => 406,
        Table::CatalogPage => 108,
        Table::CatalogReturns => 79,
        Table::CatalogSales => 786,
        Table::Customer => 86,
        Table::CustomerAddress => 42,
        Table::CustomerDemographics => 5,
        Table::DateDim => 53,
        // Not performance critical: a one row table whose size depends on
        // the command line arguments.
        Table::DbgenVersion => 407,
        Table::HouseholdDemographics => 6,
        Table::IncomeBand => 20,
        Table::Inventory => 3,
        Table::Item => 165,
        Table::Promotion => 90,
        Table::Reason => 50,
        Table::ShipMode => 72,
        Table::Store => 248,
        Table::StoreReturns => 78,
        Table::StoreSales => 631,
        Table::TimeDim => 34,
        Table::Warehouse => 202,
        Table::WebPage => 42,
        Table::WebReturns => 104,
        Table::WebSales => 963,
        Table::WebSite => 198,
    }
}

/// For `s > 0` and `n > 0`, `ceil(s / n) == (s - 1) / n + 1`.
proof fn lemma_ceil_div_pos(s: nat, n: nat)
    requires
        s > 0,
        n > 0,
    ensures
        spec_ceil_div(s, n) == ((s - 1) as nat) / n + 1,
        spec_ceil_div(s, n) >= 1,
{
    assert(((s - 1 + n) as nat) / n == ((s - 1) as nat) / n + 1) by (nonlinear_arith)
        requires
            s > 0,
            n > 0,
    {
        vstd::arithmetic::div_mod::lemma_div_plus_one((s - 1) as int, n as int);
    }
}

/// `k` groups of `r` rows cover exactly `s` rows when `(k - 1) * r < s <= k * r`.
proof fn lemma_ceil_div_unique(s: nat, r: nat, k: nat)
    requires
        r > 0,
        k > 0,
        (k - 1) * r < s,
        s <= k * r,
    ensures
        spec_ceil_div(s, r) == k,
{
    assert(((s + r - 1) as nat) / r == k) by (nonlinear_arith)
        requires
            r > 0,
            k > 0,
            (k - 1) * r < s,
            s <= k * r,
    {
        vstd::arithmetic::div_mod::lemma_fundamental_div_mod((s + r - 1) as int, r as int);
    }
}


/// The number of rows in `r`, 0 when it is empty.
pub open spec fn spec_range_rows(r: RowRange) -> nat {
    if r.end >= r.start {
        (r.end - r.start + 1) as nat
    } else {
        0
    }
}

/// `ranges` cover `1..=source_rows` contiguously: the first starts at 1, each
/// next one starts right after the previous one ends, none is empty, and the
/// last ends at `source_rows`.
pub open spec fn spec_covers(ranges: Seq<RowRange>, source_rows: nat) -> bool {
    &&& ranges.len() > 0
    &&& ranges[0].start == 1
    &&& ranges.last().end == source_rows
    &&& forall|i: int| 0 <= i < ranges.len() ==> #[trigger] ranges[i].start <= ranges[i].end
    &&& forall|i: int|
        0 <= i < ranges.len() - 1 ==> #[trigger] ranges[i + 1].start == ranges[i].end + 1
}

/// For `s, r > 0`, `k = ceil(s / r)` is the number of `r`-row groups that
/// `s` rows fill: `(k - 1) * r < s <= k * r`.
proof fn lemma_ceil_div_bounds(s: nat, r: nat)
    requires
        s > 0,
        r > 0,
    ensures
        spec_ceil_div(s, r) >= 1,
        (spec_ceil_div(s, r) - 1) * r < s,
        s <= spec_ceil_div(s, r) * r,
{
    lemma_ceil_div_pos(s, r);
    let q = ((s - 1) as nat) / r;
    assert(q * r < s && s <= (q + 1) * r) by (nonlinear_arith)
        requires
            s > 0,
            r > 0,
            q == ((s - 1) as nat) / r,
    {
        vstd::arithmetic::div_mod::lemma_fundamental_div_mod((s - 1) as int, r as int);
        vstd::arithmetic::div_mod::lemma_mod_pos_bound((s - 1) as int, r as int);
    }
}

/// Cutting `s` rows into `ceil(s / n)`-row groups makes at most `n` groups.
proof fn lemma_group_count_at_most(s: nat, n: nat)
    requires
        s > 0,
        n > 0,
    ensures
        spec_ceil_div(s, spec_rows_per_group(s, n)) <= n,
{
    let r = spec_rows_per_group(s, n);
    lemma_ceil_div_bounds(s, n);
    lemma_ceil_div_pos(s, n);
    assert(r == spec_ceil_div(s, n));
    lemma_ceil_div_pos(s, r);
    // s <= r * n, so (s - 1) / r < n
    assert(((s - 1) as nat) / r < n) by (nonlinear_arith)
        requires
            s > 0,
            r > 0,
            n > 0,
            s <= r * n,
    {
        vstd::arithmetic::div_mod::lemma_fundamental_div_mod((s - 1) as int, r as int);
        vstd::arithmetic::div_mod::lemma_mod_pos_bound((s - 1) as int, r as int);
    }
}

/// `ceil(s / n)` grows with `s` and shrinks as `n` grows.
proof fn lemma_ceil_div_monotonic(s: nat, n1: nat, n2: nat)
    requires
        s > 0,
        0 < n1 <= n2,
    ensures
        spec_ceil_div(s, n2) <= spec_ceil_div(s, n1),
{
    lemma_ceil_div_pos(s, n1);
    lemma_ceil_div_pos(s, n2);
    vstd::arithmetic::div_mod::lemma_div_is_ordered_by_denominator(
        (s - 1) as int,
        n1 as int,
        n2 as int,
    );
}

/// The facts about [`spec_ranges`] that the plan laws are made of.
proof fn lemma_ranges_shape(s: nat, rpg: nat)
    requires
        0 < s <= u64::MAX,
        rpg > 0,
    ensures
        spec_ranges(s, rpg).len() == spec_ceil_div(s, rpg),
        spec_covers(spec_ranges(s, rpg), s),
        forall|i: int|
            0 <= i < spec_ranges(s, rpg).len() - 1 ==> spec_range_rows(
                #[trigger] spec_ranges(s, rpg)[i],
            ) == rpg,
        spec_range_rows(spec_ranges(s, rpg).last()) <= rpg,
{
    let k = spec_ceil_div(s, rpg);
    lemma_ceil_div_bounds(s, rpg);
    let ranges = spec_ranges(s, rpg);
    assert forall|i: int| 0 <= i < k implies {
        &&& (#[trigger] ranges[i]).start == i * rpg + 1
        &&& ranges[i].start <= ranges[i].end
        &&& i < k - 1 ==> ranges[i].end == (i + 1) * rpg
        &&& i < k - 1 ==> spec_range_rows(ranges[i]) == rpg
        &&& spec_range_rows(ranges[i]) <= rpg
    } by {
        assert(ranges[i] == spec_row_range(i as nat, rpg, s));
        assert(i * rpg <= (k - 1) * rpg) by (nonlinear_arith)
            requires
                0 <= i < k,
                rpg > 0,
        ;
        assert((i + 1) * rpg == i * rpg + rpg) by (nonlinear_arith);
        if i < k - 1 {
            assert((i + 1) * rpg <= (k - 1) * rpg) by (nonlinear_arith)
                requires
                    0 <= i < k - 1,
                    rpg > 0,
            ;
        }
    }
    assert forall|i: int| 0 <= i < ranges.len() - 1 implies #[trigger] ranges[i + 1].start
        == ranges[i].end + 1 by {
        assert(ranges[i + 1].start == (i + 1) * rpg + 1);
        assert(ranges[i].end == (i + 1) * rpg);
    }
    assert(ranges[0].start == 1) by {
        assert(0 * rpg == 0) by (nonlinear_arith);
    }
    assert(ranges.last().end == s) by {
        assert(ranges.last() == spec_row_range((k - 1) as nat, rpg, s));
        assert((k - 1 + 1) * rpg == k * rpg);
    }
}


/// Every plan covers its source rows: when there are source rows, the ranges
/// start at row 1, none is empty, each starts right after the previous one
/// ends, and the last ends at the last source row; a table without source
/// rows gets the single empty range `1..=0`.
pub proof fn law_plan_covers_source_rows(table: Table, source_rows: u64, row_group_bytes: usize)
    ensures
        source_rows > 0 ==> spec_covers(
            spec_plan_ranges(table, source_rows as nat, row_group_bytes as nat),
            source_rows as nat,
        ),
        source_rows == 0 ==> spec_plan_ranges(table, source_rows as nat, row_group_bytes as nat)
            == seq![RowRange { start: 1, end: 0 }],
{
    if source_rows > 0 {
        let n = spec_num_row_groups(
            source_rows as nat,
            spec_estimated_bytes_per_source_row(table),
            row_group_bytes as nat,
        );
        lemma_ranges_shape(source_rows as nat, spec_rows_per_group(source_rows as nat, n));
    }
}

/// A plan has at least one row group, at most [`MAX_ROW_GROUPS`] of them,
/// and never more row groups than source rows (when there are any).
pub proof fn law_row_group_count_bounds(table: Table, source_rows: u64, row_group_bytes: usize)
    ensures
        1 <= spec_plan_ranges(table, source_rows as nat, row_group_bytes as nat).len()
            <= MAX_ROW_GROUPS,
        source_rows > 0 ==> spec_plan_ranges(table, source_rows as nat, row_group_bytes as nat).len()
            <= source_rows,
{
    if source_rows > 0 {
        let s = source_rows as nat;
        let n = spec_num_row_groups(s, spec_estimated_bytes_per_source_row(table), row_group_bytes as nat);
        let rpg = spec_rows_per_group(s, n);
        lemma_ceil_div_pos(s, n);
        lemma_ranges_shape(s, rpg);
        lemma_group_count_at_most(s, n);
    }
}

/// A plan never has more row groups than its estimated size over the row
/// group size (taken as at least 1), plus one; and a row group size of 0
/// plans as a size of 1.
pub proof fn law_row_group_count_within_estimate(
    table: Table,
    source_rows: u64,
    row_group_bytes: usize,
)
    ensures
        spec_plan_ranges(table, source_rows as nat, row_group_bytes as nat).len() <= spec_min(
            source_rows as nat * spec_estimated_bytes_per_source_row(table),
            u64::MAX as nat,
        ) / spec_max(row_group_bytes as nat, 1) + 1,
        spec_plan_ranges(table, source_rows as nat, 0) == spec_plan_ranges(
            table,
            source_rows as nat,
            1,
        ),
{
    if source_rows > 0 {
        let s = source_rows as nat;
        let n = spec_num_row_groups(s, spec_estimated_bytes_per_source_row(table), row_group_bytes as nat);
        let rpg = spec_rows_per_group(s, n);
        lemma_ceil_div_pos(s, n);
        lemma_ranges_shape(s, rpg);
        lemma_group_count_at_most(s, n);
    }
}

/// Only the last row group comes up short: every range but the last holds
/// the same number of rows, and the last holds no more than the first.
pub proof fn law_row_groups_balanced(table: Table, source_rows: u64, row_group_bytes: usize)
    ensures
        ({
            let ranges = spec_plan_ranges(table, source_rows as nat, row_group_bytes as nat);
            &&& forall|i: int|
                0 <= i < ranges.len() - 1 ==> spec_range_rows(#[trigger] ranges[i])
                    == spec_range_rows(ranges[0])
            &&& spec_range_rows(ranges.last()) <= spec_range_rows(ranges[0])
        }),
{
    if source_rows > 0 {
        let s = source_rows as nat;
        let n = spec_num_row_groups(s, spec_estimated_bytes_per_source_row(table), row_group_bytes as nat);
        let rpg = spec_rows_per_group(s, n);
        lemma_ranges_shape(s, rpg);
        let ranges = spec_ranges(s, rpg);
        if ranges.len() > 1 {
            assert(spec_range_rows(ranges[0]) == rpg);
        } else {
            assert(ranges.last() == ranges[0]);
        }
    }
}

/// Smaller target row groups never make fewer row groups.
pub proof fn law_smaller_row_groups_make_no_fewer(
    table: Table,
    source_rows: u64,
    small: usize,
    large: usize,
)
    requires
        small <= large,
    ensures
        spec_plan_ranges(table, source_rows as nat, small as nat).len() >= spec_plan_ranges(
            table,
            source_rows as nat,
            large as nat,
        ).len(),
{
    if source_rows > 0 {
        let s = source_rows as nat;
        let bpr = spec_estimated_bytes_per_source_row(table);
        let estimated = spec_min(s * bpr, u64::MAX as nat);
        let per_small = spec_max(small as nat, 1);
        let per_large = spec_max(large as nat, 1);
        vstd::arithmetic::div_mod::lemma_div_is_ordered_by_denominator(
            estimated as int,
            per_small as int,
            per_large as int,
        );
        let n_small = spec_num_row_groups(s, bpr, small as nat);
        let n_large = spec_num_row_groups(s, bpr, large as nat);
        assert(n_large <= n_small);
        lemma_ceil_div_pos(s, n_small);
        lemma_ceil_div_pos(s, n_large);
        lemma_ceil_div_monotonic(s, n_large, n_small);
        let rpg_small = spec_rows_per_group(s, n_small);
        let rpg_large = spec_rows_per_group(s, n_large);
        assert(rpg_small <= rpg_large);
        lemma_ceil_div_monotonic(s, rpg_small, rpg_large);
        lemma_ranges_shape(s, rpg_small);
        lemma_ranges_shape(s, rpg_large);
    }
}

impl TpcdsGenerationPlan {
    /// Compute the row group layout of `table` when it has `source_rows`
    /// source rows, for the target `row_group_bytes`.
    pub fn from_source_rows(table: Table, source_rows: u64, row_group_bytes: usize) -> (plan: Self)
        ensures
            plan@ == spec_plan_ranges(table, source_rows as nat, row_group_bytes as nat),
    {
        let bytes_per_row = estimated_bytes_per_source_row(table);
        let estimated: u64 = match source_rows.checked_mul(bytes_per_row) {
            Some(product) => product,
            None => u64::MAX,
        };
        let per_group: u64 = if row_group_bytes == 0 {
            1
        } else {
            row_group_bytes as u64
        };
        let by_size: u64 = estimated / per_group;
        let capped: u64 = if by_size < MAX_ROW_GROUPS {
            by_size + 1
        } else {
            MAX_ROW_GROUPS
        };
        let limited: u64 = if capped <= source_rows {
            capped
        } else {
            source_rows
        };
        let num_row_groups: u64 = if limited >= 1 {
            limited
        } else {
            1
        };
        assert(num_row_groups == spec_num_row_groups(
            source_rows as nat,
            spec_estimated_bytes_per_source_row(table),
            row_group_bytes as nat,
        ));
        // ceiling division, so that the last row group is the one that comes up short
        let rows_per_group: u64 = if source_rows == 0 {
            1
        } else {
            (source_rows - 1) / num_row_groups + 1
        };
        proof {
            if source_rows > 0 {
                lemma_ceil_div_pos(source_rows as nat, num_row_groups as nat);
            } else {
                assert(spec_ceil_div(0, num_row_groups as nat) == 0) by (nonlinear_arith)
                    requires
                        num_row_groups >= 1,
                ;
            }
        }
        assert(rows_per_group == spec_rows_per_group(source_rows as nat, num_row_groups as nat));
        let ranges = Self::cut_ranges(source_rows, rows_per_group);
        TpcdsGenerationPlan { ranges }
    }

    /// Cut `1..=source_rows` into consecutive ranges of `rows_per_group` rows
    /// (the last may be shorter).
    fn cut_ranges(source_rows: u64, rows_per_group: u64) -> (ranges: Vec<RowRange>)
        requires
            rows_per_group >= 1,
        ensures
            ranges@ == spec_ranges(source_rows as nat, rows_per_group as nat),
    {
        let mut ranges: Vec<RowRange> = Vec::new();
        let mut done: u64 = 0;
        while done < source_rows
            invariant
                rows_per_group >= 1,
                done <= source_rows,
                ranges@ =~= Seq::new(
                    ranges.len() as nat,
                    |i: int| spec_row_range(i as nat, rows_per_group as nat, source_rows as nat),
                ),
                done <= ranges.len() * rows_per_group,
                done < source_rows ==> done == ranges.len() * rows_per_group,
                ranges.len() > 0 ==> (ranges.len() - 1) * rows_per_group < done,
            decreases source_rows - done,
        {
            let ghost k = ranges.len() as nat;
            let remaining = source_rows - done;
            let take: u64 = if rows_per_group <= remaining {
                rows_per_group
            } else {
                remaining
            };
            let range = RowRange { start: done + 1, end: done + take };
            proof {
                assert((k + 1) * rows_per_group == k * rows_per_group + rows_per_group)
                    by (nonlinear_arith);
                assert(range == spec_row_range(k, rows_per_group as nat, source_rows as nat));
            }
            ranges.push(range);
            done = done + take;
            proof {
                assert(((k + 1) - 1) * rows_per_group == k * rows_per_group) by (nonlinear_arith);
                assert((k + 1) * rows_per_group == k * rows_per_group + rows_per_group)
                    by (nonlinear_arith);
            }
        }
        if ranges.len() == 0 {
            // An empty table still needs one (empty) range, so that a valid
            // Parquet file containing the table schema is written.
            ranges.push(RowRange { start: 1, end: 0 });
        } else {
            proof {
                lemma_ceil_div_unique(
                    source_rows as nat,
                    rows_per_group as nat,
                    ranges.len() as nat,
                );
            }
        }
        ranges
    }

    /// Compute the row group layout for `table` at the row counts of
    /// `scaling`, given the target `row_group_bytes`.
    ///
    /// The source row count is that of the table's source table (the sales
    /// table for a returns table), read from `scaling`.
    pub fn new(table: Table, scaling: &Scaling, row_group_bytes: usize) -> (plan: Self)
        ensures
            plan@ == spec_plan_ranges(
                table,
                spec_scaling_row_count(*scaling, spec_values_index(spec_source_table(table)))
                    as nat,
                row_group_bytes as nat,
            ),
    {
        let source_rows = scaling_row_count(scaling, table.source_table().values_index());
        Self::from_source_rows(table, source_rows, row_group_bytes)
    }

    /// Return the number of row groups this plan will generate.
    pub fn row_group_count(&self) -> (n: usize)
        ensures
            n == self@.len(),
    {
        self.ranges.len()
    }

    /// The source row ranges, one per row group, in order.
    pub fn ranges(&self) -> (r: &Vec<RowRange>)
        ensures
            r@ == self@,
    {
        &self.ranges
    }

    /// Converts the plan into its inclusive source row ranges.
    pub fn into_ranges(self) -> (r: Vec<RowRange>)
        ensures
            r@ == self@,
    {
        self.ranges
    }
}

} // verus!
