//! The parts of the `tpcdsgen` crate that the library calls: its
//! configuration types and the row counts they hold.
use crate::plan::RowRange;
use tpcdsgen::config::{Scaling, Session};
use vstd::prelude::*;

verus! {

#[verifier::external_type_specification]
#[verifier::external_body]
pub struct ExScaling(Scaling);

#[verifier::external_type_specification]
#[verifier::external_body]
pub struct ExSession(Session);

/// The row count that `Scaling::get_row_count` reads for the table at
/// `table_index` in `tpcdsgen::config::Table::values()`.
pub uninterp spec fn spec_scaling_row_count(scaling: Scaling, table_index: nat) -> u64;

/// The scaling that `Session::get_scaling` hands out for `session`.
pub uninterp spec fn spec_session_scaling(session: Session) -> Scaling;

/// The source row range that `Session::get_source_row_range` gives for the
/// table at `table_index` in `tpcdsgen::config::Table::values()`.
pub uninterp spec fn spec_session_source_range(session: Session, table_index: nat) -> RowRange;

/// Calls `Scaling::get_row_count` on the table at `table_index` in
/// `tpcdsgen::config::Table::values()`: the row count of that table at the
/// scale factor of `scaling`. The source reads it from a table that
/// `Scaling::new` filled, so it depends on `scaling` and the table alone; the
/// claim is that the result is `spec_scaling_row_count` of those two. Its
/// value is computed from a float scale factor and is not stated.
#[verifier::external_body]
pub(crate) fn scaling_row_count(scaling: &Scaling, table_index: usize) -> (rows: u64)
    requires
        table_index < 25,
    ensures
        rows == spec_scaling_row_count(*scaling, table_index as nat),
{
    scaling.get_row_count(tpcdsgen::config::Table::values()[table_index])
}

/// Calls `Session::get_scaling`: the row count settings of the session, a
/// field of it, named `spec_session_scaling` of the session.
#[verifier::external_body]
pub(crate) fn session_scaling(session: &Session) -> (scaling: &Scaling)
    ensures
        *scaling == spec_session_scaling(*session),
{
    session.get_scaling()
}

/// Calls `Session::get_source_row_range` on the table at `table_index` in
/// `tpcdsgen::config::Table::values()`: the 1-based inclusive range of that
/// table's source rows that this session's chunk generates. The source
/// builds it as `first..=first + count - 1` with `first >= 1`, so the range
/// starts at 1 or later and is empty exactly when `count` is 0. It is a
/// function of the session and the table, named `spec_session_source_range`;
/// which rows it holds depends on the session's scale factor and chunk and is
/// not stated.
#[verifier::external_body]
pub(crate) fn session_source_row_range(session: &Session, table_index: usize) -> (r: RowRange)
    requires
        table_index < 25,
    ensures
        r == spec_session_source_range(*session, table_index as nat),
        r.start >= 1,
        r.end + 1 >= r.start,
{
    let range = session.get_source_row_range(tpcdsgen::config::Table::values()[table_index]);
    RowRange { start: *range.start(), end: *range.end() }
}

} // verus!
