//! Progress totals for the TPC-DS row-generator outputs.
//!
//! Sales tables are generated together with their returns table, so they
//! register two totals; the returns tables themselves register none. Totals
//! reflect the session's chunk: a table split into parts only registers the
//! rows its chunk will actually generate.
use crate::plan::{spec_range_rows, RowRange};
use crate::table::{spec_is_returns, spec_is_sales, spec_returns_table, spec_values_index, Table};
use crate::tpcds::{
    scaling_row_count, session_scaling, session_source_row_range, spec_scaling_row_count,
    spec_session_scaling, spec_session_source_range,
};
use tpcdsgen::config::Session;
use vstd::prelude::*;

verus! {

/// A progress total to register: `rows` rows of `table`.
#[derive(Clone, Copy, Debug, PartialEq, Eq, Structural)]
pub struct ProgressTotal {
    pub table: Table,
    pub rows: u64,
}

/// The progress totals to register for one requested table.
#[derive(Clone, Copy, Debug, PartialEq, Eq, Structural)]
pub enum TableProgress {
    /// Nothing to register (a returns table, generated with its sales table).
    Nothing,
    /// One total, for the table itself.
    Single(ProgressTotal),
    /// A sales table and its returns table, generated together.
    Paired { sales: ProgressTotal, paired_returns: ProgressTotal },
}

/// The estimated returns rows of a chunk: the table's full returns count
/// scaled by the fraction of the sales source rows the chunk covers (rounded
/// down), 0 for a table without source rows, and capped at `u64::MAX`.
pub open spec fn spec_chunk_returns_rows(full_source: nat, full_returns: nat, chunk_source: nat) -> nat {
    if full_source == 0 {
        0
    } else {
        let scaled = (full_returns * chunk_source) / full_source;
        if scaled <= u64::MAX {
            scaled
        } else {
            u64::MAX as nat
        }
    }
}

/// The totals registered for `table`, whose chunk covers the source rows
/// `chunk`, whose full row count is `full_rows`, and whose paired returns
/// table (for a sales table) has `full_returns` rows.
pub open spec fn spec_table_progress(
    table: Table,
    chunk: RowRange,
    full_rows: nat,
    full_returns: nat,
) -> TableProgress {
    if spec_is_returns(table) {
        TableProgress::Nothing
    } else if spec_is_sales(table) {
        TableProgress::Paired {
            sales: ProgressTotal { table, rows: spec_range_rows(chunk) as u64 },
            paired_returns: ProgressTotal {
                table: spec_returns_table(table),
                rows: spec_chunk_returns_rows(full_rows, full_returns, spec_range_rows(chunk)) as u64,
            },
        }
    } else {
        TableProgress::Single(ProgressTotal { table, rows: spec_range_rows(chunk) as u64 })
    }
}

/// Number of rows in an inclusive row range, 0 for an empty range (one with
/// `end < start`, e.g. from a chunk that got no rows under the small-table
/// rule).
pub fn range_len(range: &RowRange) -> (n: u64)
    requires
        range.end - range.start < u64::MAX,
    ensures
        n == spec_range_rows(*range),
{
    if range.end >= range.start {
        range.end - range.start + 1
    } else {
        0
    }
}

/// The estimated returns rows of a chunk with `chunk_source` of the
/// `full_source` sales source rows, when the whole table has `full_returns`
/// returns rows.
///
/// The returns count is only an approximate upper bound for progress
/// (actual returns are data-driven per source row), so the full-table
/// estimate is scaled down by the fraction of source rows the chunk covers.
pub fn chunk_returns_row_count(full_source: u64, full_returns: u64, chunk_source: u64) -> (n: u64)
    ensures
        n == spec_chunk_returns_rows(full_source as nat, full_returns as nat, chunk_source as nat),
{
    if full_source == 0 {
        return 0;
    }
    proof {
        assert(full_returns * chunk_source <= u64::MAX * u64::MAX) by (nonlinear_arith)
            requires
                full_returns <= u64::MAX,
                chunk_source <= u64::MAX,
        ;
    }
    let product: u128 = (full_returns as u128) * (chunk_source as u128);
    let scaled: u128 = product / (full_source as u128);
    if scaled <= u64::MAX as u128 {
        scaled as u64
    } else {
        u64::MAX
    }
}

/// The totals to register for `table`, given its chunk's source rows, its
/// full row count and (for a sales table) its returns table's full row count.
pub fn table_progress(table: Table, chunk: RowRange, full_rows: u64, full_returns: u64) -> (p: TableProgress)
    requires
        chunk.end - chunk.start < u64::MAX,
    ensures
        p == spec_table_progress(table, chunk, full_rows as nat, full_returns as nat),
{
    match table {
        Table::StoreReturns | Table::CatalogReturns | Table::WebReturns => TableProgress::Nothing,
        Table::StoreSales | Table::CatalogSales | Table::WebSales => {
            let returns_table = match table {
                Table::StoreSales => Table::StoreReturns,
                Table::CatalogSales => Table::CatalogReturns,
                _ => Table::WebReturns,
            };
            let chunk_rows = range_len(&chunk);
            TableProgress::Paired {
                sales: ProgressTotal { table, rows: chunk_rows },
                paired_returns: ProgressTotal {
                    table: returns_table,
                    rows: chunk_returns_row_count(full_rows, full_returns, chunk_rows),
                },
            }
        },
        _ => TableProgress::Single(ProgressTotal { table, rows: range_len(&chunk) }),
    }
}

/// What `register_table` registers for `table` in `session`: the totals of
/// `spec_table_progress` over the session's source row range for the table
/// and, for a sales table, the full row counts of the table and of its
/// returns table at the session's scaling.
pub open spec fn spec_register_table(table: Table, session: Session) -> TableProgress {
    let idx = spec_values_index(table);
    let scaling = spec_session_scaling(session);
    let chunk = spec_session_source_range(session, idx);
    if spec_is_sales(table) {
        spec_table_progress(
            table,
            chunk,
            spec_scaling_row_count(scaling, idx) as nat,
            spec_scaling_row_count(scaling, spec_values_index(spec_returns_table(table))) as nat,
        )
    } else {
        spec_table_progress(table, chunk, 0, 0)
    }
}

/// The progress totals to register for one requested table of `session`.
///
/// Totals reflect this session's chunk: a table split into parts only
/// registers the rows this chunk will actually generate; a sales table also
/// registers its returns table, with the returns estimate scaled to the
/// chunk.
pub fn register_table(table: Table, session: &Session) -> (p: TableProgress)
    ensures
        p == spec_register_table(table, *session),
{
    let chunk = session_source_row_range(session, table.values_index());
    let (full_rows, full_returns) = match table {
        Table::StoreSales | Table::CatalogSales | Table::WebSales => {
            let returns_table = match table {
                Table::StoreSales => Table::StoreReturns,
                Table::CatalogSales => Table::CatalogReturns,
                _ => Table::WebReturns,
            };
            let scaling = session_scaling(session);
            (
                scaling_row_count(scaling, table.values_index()),
                scaling_row_count(scaling, returns_table.values_index()),
            )
        },
        _ => (0, 0),
    };
    table_progress(table, chunk, full_rows, full_returns)
}

/// A sales table registers the rows of its own chunk and, paired with it,
/// its own returns table (store_returns for store_sales, catalog_returns for
/// catalog_sales, web_returns for web_sales), whose total is that returns
/// table's full row count scaled by the chunk's share of the sales table's
/// source rows. (The numbers are the tables' places in
/// `tpcdsgen::config::Table::values()`.)
pub proof fn law_register_sales_with_own_returns(session: Session)
    ensures
        ({
            let scaling = spec_session_scaling(session);
            let chunk_rows = spec_range_rows(spec_session_source_range(session, 17));
            spec_register_table(Table::StoreSales, session) == TableProgress::Paired {
                sales: ProgressTotal { table: Table::StoreSales, rows: chunk_rows as u64 },
                paired_returns: ProgressTotal {
                    table: Table::StoreReturns,
                    rows: spec_chunk_returns_rows(
                        spec_scaling_row_count(scaling, 17) as nat,
                        spec_scaling_row_count(scaling, 16) as nat,
                        chunk_rows,
                    ) as u64,
                },
            }
        }),
        ({
            let scaling = spec_session_scaling(session);
            let chunk_rows = spec_range_rows(spec_session_source_range(session, 3));
            spec_register_table(Table::CatalogSales, session) == TableProgress::Paired {
                sales: ProgressTotal { table: Table::CatalogSales, rows: chunk_rows as u64 },
                paired_returns: ProgressTotal {
                    table: Table::CatalogReturns,
                    rows: spec_chunk_returns_rows(
                        spec_scaling_row_count(scaling, 3) as nat,
                        spec_scaling_row_count(scaling, 2) as nat,
                        chunk_rows,
                    ) as u64,
                },
            }
        }),
        ({
            let scaling = spec_session_scaling(session);
            let chunk_rows = spec_range_rows(spec_session_source_range(session, 22));
            spec_register_table(Table::WebSales, session) == TableProgress::Paired {
                sales: ProgressTotal { table: Table::WebSales, rows: chunk_rows as u64 },
                paired_returns: ProgressTotal {
                    table: Table::WebReturns,
                    rows: spec_chunk_returns_rows(
                        spec_scaling_row_count(scaling, 22) as nat,
                        spec_scaling_row_count(scaling, 21) as nat,
                        chunk_rows,
                    ) as u64,
                },
            }
        }),
{
}

/// Any sales table's paired total reads the row count of the table it names:
/// the returns total is the full count of `paired_returns.table` scaled by
/// the chunk's share of the sales table's source rows; the sales total is
/// the chunk's rows.
pub proof fn law_register_paired_total_reads_named_table(table: Table, session: Session)
    requires
        spec_is_sales(table),
    ensures
        spec_register_table(table, session) matches TableProgress::Paired { sales, paired_returns }
            && sales.table == table && sales.rows == spec_range_rows(
            spec_session_source_range(session, spec_values_index(table)),
        ) as u64 && paired_returns.table != table && spec_is_returns(paired_returns.table)
            && paired_returns.rows == spec_chunk_returns_rows(
            spec_scaling_row_count(spec_session_scaling(session), spec_values_index(table)) as nat,
            spec_scaling_row_count(
                spec_session_scaling(session),
                spec_values_index(paired_returns.table),
            ) as nat,
            spec_range_rows(spec_session_source_range(session, spec_values_index(table))),
        ) as u64,
{
}

/// A returns table registers nothing (its sales table registers it), and any
/// other table that is not a sales table registers one total: itself, with
/// the rows of its own chunk.
pub proof fn law_register_single_and_returns_tables(table: Table, session: Session)
    requires
        !spec_is_sales(table),
    ensures
        spec_is_returns(table) ==> spec_register_table(table, session) == TableProgress::Nothing,
        !spec_is_returns(table) ==> spec_register_table(table, session) == TableProgress::Single(
            ProgressTotal {
                table,
                rows: spec_range_rows(spec_session_source_range(session, spec_values_index(table)))
                    as u64,
            },
        ),
{
}

/// A chunk within the table never gets a larger returns estimate than the
/// whole table, and a chunk covering all source rows gets exactly the whole
/// table's returns count.
pub proof fn law_chunk_returns_within_full(full_source: u64, full_returns: u64, chunk_source: u64)
    requires
        chunk_source <= full_source,
    ensures
        spec_chunk_returns_rows(full_source as nat, full_returns as nat, chunk_source as nat)
            <= full_returns,
        full_source > 0 && chunk_source == full_source ==> spec_chunk_returns_rows(
            full_source as nat,
            full_returns as nat,
            chunk_source as nat,
        ) == full_returns,
{
    if full_source > 0 {
        let fs = full_source as nat;
        let fr = full_returns as nat;
        let cs = chunk_source as nat;
        assert(fr * cs <= fr * fs) by (nonlinear_arith)
            requires
                cs <= fs,
        ;
        vstd::arithmetic::div_mod::lemma_div_is_ordered((fr * cs) as int, (fr * fs) as int, fs as int);
        vstd::arithmetic::div_mod::lemma_div_multiples_vanish(fr as int, fs as int);
        assert(fr * fs == fs * fr) by (nonlinear_arith);
    }
}

/// The sum of a sequence of row counts.
pub open spec fn spec_sum(counts: Seq<nat>) -> nat
    decreases counts.len(),
{
    if counts.len() == 0 {
        0
    } else {
        spec_sum(counts.drop_last()) + counts.last()
    }
}

/// The returns estimates of chunks with `chunks[i]` source rows each, summed.
pub open spec fn spec_chunk_returns_total(full_source: nat, full_returns: nat, chunks: Seq<nat>) -> nat
    decreases chunks.len(),
{
    if chunks.len() == 0 {
        0
    } else {
        spec_chunk_returns_total(full_source, full_returns, chunks.drop_last())
            + spec_chunk_returns_rows(full_source, full_returns, chunks.last())
    }
}

/// `floor(a / d) + floor(b / d) <= floor((a + b) / d)`.
proof fn lemma_div_sum_at_most(a: nat, b: nat, d: nat)
    requires
        d > 0,
    ensures
        a / d + b / d <= (a + b) / d,
{
    vstd::arithmetic::div_mod::lemma_fundamental_div_mod(a as int, d as int);
    vstd::arithmetic::div_mod::lemma_fundamental_div_mod(b as int, d as int);
    vstd::arithmetic::div_mod::lemma_mod_pos_bound(a as int, d as int);
    vstd::arithmetic::div_mod::lemma_mod_pos_bound(b as int, d as int);
    let q = a / d + b / d;
    assert(q * d <= a + b) by (nonlinear_arith)
        requires
            a == d * (a / d) + a % d,
            b == d * (b / d) + b % d,
            a % d >= 0,
            b % d >= 0,
            q == a / d + b / d,
    ;
    vstd::arithmetic::div_mod::lemma_div_is_ordered((q * d) as int, (a + b) as int, d as int);
    vstd::arithmetic::div_mod::lemma_div_multiples_vanish(q as int, d as int);
    assert(q * d == d * q) by (nonlinear_arith);
}

/// The returns estimates of chunks that together cover no more than the
/// source rows sum to at most the scaled full count.
proof fn lemma_chunk_returns_total(full_source: nat, full_returns: nat, chunks: Seq<nat>)
    requires
        full_source > 0,
        full_returns <= u64::MAX,
        spec_sum(chunks) <= full_source,
    ensures
        spec_chunk_returns_total(full_source, full_returns, chunks) <= (full_returns * spec_sum(
            chunks,
        )) / full_source,
    decreases chunks.len(),
{
    if chunks.len() > 0 {
        let rest = chunks.drop_last();
        let c = chunks.last();
        lemma_chunk_returns_total(full_source, full_returns, rest);
        let fs = full_source;
        let fr = full_returns;
        // no estimate is capped: c <= fs, so fr * c / fs <= fr
        assert(fr * c <= fr * fs) by (nonlinear_arith)
            requires
                c <= fs,
        ;
        vstd::arithmetic::div_mod::lemma_div_is_ordered((fr * c) as int, (fr * fs) as int, fs as int);
        vstd::arithmetic::div_mod::lemma_div_multiples_vanish(fr as int, fs as int);
        assert(fr * fs == fs * fr) by (nonlinear_arith);
        lemma_div_sum_at_most(fr * spec_sum(rest), fr * c, fs);
        assert(fr * spec_sum(rest) + fr * c == fr * spec_sum(chunks)) by (nonlinear_arith)
            requires
                spec_sum(chunks) == spec_sum(rest) + c,
        ;
    }
}

/// When a table's source rows are split into chunks, the chunks' returns
/// estimates together never exceed the whole table's returns count.
pub proof fn law_chunk_returns_sum_within_full(full_source: u64, full_returns: u64, chunks: Seq<nat>)
    requires
        spec_sum(chunks) == full_source,
    ensures
        spec_chunk_returns_total(full_source as nat, full_returns as nat, chunks) <= full_returns,
{
    if full_source > 0 {
        lemma_chunk_returns_total(full_source as nat, full_returns as nat, chunks);
        let fs = full_source as nat;
        let fr = full_returns as nat;
        vstd::arithmetic::div_mod::lemma_div_multiples_vanish(fr as int, fs as int);
        assert(fr * fs == fs * fr) by (nonlinear_arith);
    } else {
        lemma_zero_source_total(full_returns as nat, chunks);
    }
}

/// A table without source rows gets no returns estimate in any chunk.
proof fn lemma_zero_source_total(full_returns: nat, chunks: Seq<nat>)
    ensures
        spec_chunk_returns_total(0, full_returns, chunks) == 0,
    decreases chunks.len(),
{
    if chunks.len() > 0 {
        lemma_zero_source_total(full_returns, chunks.drop_last());
    }
}

} // verus!
