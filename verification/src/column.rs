//! The column model of generated record batches: column types, schemas,
//! cells, and the transposition of rows of cells into columns.
use vstd::prelude::*;

verus! {

/// The number of rows per generated record batch unless set otherwise.
pub const DEFAULT_BATCH_SIZE: usize = 8000;

/// The Arrow type of a column.
#[derive(Clone, Copy, Debug, PartialEq, Eq, Structural)]
pub enum ColumnType {
    Int32,
    Int64,
    Utf8View,
    Date32,
    Decimal128 { precision: u8, scale: i8 },
}

/// One column of a table schema.
#[derive(Clone, Debug)]
pub struct ColumnSpec {
    pub name: String,
    pub data_type: ColumnType,
    pub nullable: bool,
}

impl View for ColumnSpec {
    type V = (Seq<char>, ColumnType, bool);

    open spec fn view(&self) -> (Seq<char>, ColumnType, bool) {
        (self.name@, self.data_type, self.nullable)
    }
}

/// The views of the columns of a schema.
pub open spec fn spec_schema_view(schema: Seq<ColumnSpec>) -> Seq<(Seq<char>, ColumnType, bool)> {
    schema.map_values(|c: ColumnSpec| c@)
}

/// Build a column of a schema.
pub fn column(name: &str, data_type: ColumnType, nullable: bool) -> (c: ColumnSpec)
    ensures
        c@ == (name@, data_type, nullable),
{
    ColumnSpec { name: name.to_string(), data_type, nullable }
}

/// One value of a record batch, tagged with its Arrow type; `None` is null.
/// Decimals are unscaled (a `Decimal128(p, 2)` value of 1.25 is 125), dates
/// are days since 1970-01-01.
#[derive(Debug)]
pub enum Cell {
    Int32(Option<i32>),
    Int64(Option<i64>),
    Utf8(Option<String>),
    Date32(Option<i32>),
    Decimal128(Option<i128>),
}

/// The mathematical value of a [`Cell`]: strings are taken by their
/// characters.
pub enum CellValue {
    Int32(Option<i32>),
    Int64(Option<i64>),
    Utf8(Option<Seq<char>>),
    Date32(Option<i32>),
    Decimal128(Option<i128>),
}

impl View for Cell {
    type V = CellValue;

    open spec fn view(&self) -> CellValue {
        match self {
            Cell::Int32(v) => CellValue::Int32(*v),
            Cell::Int64(v) => CellValue::Int64(*v),
            Cell::Utf8(v) => CellValue::Utf8(
                match v {
                    Some(s) => Some(s@),
                    None => None,
                },
            ),
            Cell::Date32(v) => CellValue::Date32(*v),
            Cell::Decimal128(v) => CellValue::Decimal128(*v),
        }
    }
}

/// True when a cell's value is null.
pub open spec fn spec_is_null_value(c: CellValue) -> bool {
    match c {
        CellValue::Int32(v) => v is None,
        CellValue::Int64(v) => v is None,
        CellValue::Utf8(v) => v is None,
        CellValue::Date32(v) => v is None,
        CellValue::Decimal128(v) => v is None,
    }
}

/// True when a cell's value can stand in a column of type `t`.
pub open spec fn spec_has_type(c: CellValue, t: ColumnType) -> bool {
    match c {
        CellValue::Int32(_) => t == ColumnType::Int32,
        CellValue::Int64(_) => t == ColumnType::Int64,
        CellValue::Utf8(_) => t == ColumnType::Utf8View,
        CellValue::Date32(_) => t == ColumnType::Date32,
        CellValue::Decimal128(_) => t is Decimal128,
    }
}

/// A row of cells conforms to a schema: one cell per column, each of the
/// column's type, and no null in a column that is not nullable.
pub open spec fn spec_row_conforms(
    row: Seq<CellValue>,
    schema: Seq<(Seq<char>, ColumnType, bool)>,
) -> bool {
    &&& row.len() == schema.len()
    &&& forall|j: int|
        0 <= j < row.len() ==> {
            &&& spec_has_type(#[trigger] row[j], schema[j].1)
            &&& !schema[j].2 ==> !spec_is_null_value(row[j])
        }
}

/// Copy a cell.
pub fn copy_cell(c: &Cell) -> (r: Cell)
    ensures
        r@ == c@,
{
    match c {
        Cell::Int32(v) => Cell::Int32(*v),
        Cell::Int64(v) => Cell::Int64(*v),
        Cell::Utf8(v) => Cell::Utf8(
            match v {
                Some(s) => Some(s.clone()),
                None => None,
            },
        ),
        Cell::Date32(v) => Cell::Date32(*v),
        Cell::Decimal128(v) => Cell::Decimal128(*v),
    }
}

/// The views of a row of cells.
pub open spec fn spec_row_view(row: Seq<Cell>) -> Seq<CellValue> {
    row.map_values(|c: Cell| c@)
}

/// The columns of `rows` (each of `width` cells): column `j` holds the
/// `j`-th cell of every row, in row order.
pub open spec fn spec_columns(rows: Seq<Seq<CellValue>>, width: nat) -> Seq<Seq<CellValue>> {
    Seq::new(width, |j: int| Seq::new(rows.len(), |i: int| rows[i][j]))
}

/// The views of a sequence of columns.
pub open spec fn spec_columns_view(columns: Seq<Vec<Cell>>) -> Seq<Seq<CellValue>> {
    columns.map_values(|c: Vec<Cell>| spec_row_view(c@))
}

/// A batch's columns hold its rows' cells transposed: there are `width`
/// columns, each with one cell per row, and cell `i` of column `j` is cell
/// `j` of row `i`.
pub proof fn law_columns_transpose_rows(rows: Seq<Seq<CellValue>>, width: nat)
    ensures
        spec_columns(rows, width).len() == width,
        forall|j: int| 0 <= j < width ==> (#[trigger] spec_columns(rows, width)[j]).len() == rows.len(),
        forall|j: int, i: int|
            0 <= j < width && 0 <= i < rows.len() ==> #[trigger] spec_columns(rows, width)[j][i]
                == rows[i][j],
{
}

/// When every row conforms to a schema, so does every column of their
/// batch: column `j` holds only cells of the `j`-th column's type, one per
/// row, and no null when that column is required.
pub proof fn law_columns_conform(
    rows: Seq<Seq<CellValue>>,
    schema: Seq<(Seq<char>, ColumnType, bool)>,
)
    requires
        forall|i: int| 0 <= i < rows.len() ==> spec_row_conforms(#[trigger] rows[i], schema),
    ensures
        ({
            let columns = spec_columns(rows, schema.len());
            &&& columns.len() == schema.len()
            &&& forall|j: int| 0 <= j < schema.len() ==> (#[trigger] columns[j]).len() == rows.len()
            &&& forall|j: int, i: int|
                0 <= j < schema.len() && 0 <= i < rows.len() ==> {
                    &&& spec_has_type(#[trigger] columns[j][i], schema[j].1)
                    &&& !schema[j].2 ==> !spec_is_null_value(columns[j][i])
                }
        }),
{
    let columns = spec_columns(rows, schema.len());
    assert forall|j: int, i: int| 0 <= j < schema.len() && 0 <= i < rows.len() implies {
        &&& spec_has_type(#[trigger] columns[j][i], schema[j].1)
        &&& !schema[j].2 ==> !spec_is_null_value(columns[j][i])
    } by {
        assert(spec_row_conforms(rows[i], schema));
        assert(columns[j][i] == rows[i][j]);
    }
}

/// Turn `rows` (each of `width` cells) into `width` columns: column `j`
/// holds the `j`-th cell of every row, in row order.
pub fn rows_to_columns(rows: &Vec<Vec<Cell>>, width: usize) -> (columns: Vec<Vec<Cell>>)
    requires
        forall|i: int| 0 <= i < rows.len() ==> (#[trigger] rows[i]).len() == width,
    ensures
        columns.len() == width,
        forall|j: int| 0 <= j < width ==> (#[trigger] columns[j]).len() == rows.len(),
        forall|i: int, j: int|
            0 <= i < rows.len() && 0 <= j < width ==> (#[trigger] columns[j][i])@ == rows[i][j]@,
{
    let mut columns: Vec<Vec<Cell>> = Vec::new();
    let mut j: usize = 0;
    while j < width
        invariant
            j <= width,
            columns.len() == j,
            forall|i: int| 0 <= i < rows.len() ==> (#[trigger] rows[i]).len() == width,
            forall|k: int| 0 <= k < j ==> (#[trigger] columns[k]).len() == rows.len(),
            forall|i: int, k: int|
                0 <= i < rows.len() && 0 <= k < j ==> (#[trigger] columns[k][i])@ == rows[i][k]@,
        decreases width - j,
    {
        let mut column: Vec<Cell> = Vec::new();
        let mut i: usize = 0;
        while i < rows.len()
            invariant
                j < width,
                i <= rows.len(),
                column.len() == i,
                forall|r: int| 0 <= r < rows.len() ==> (#[trigger] rows[r]).len() == width,
                forall|r: int| 0 <= r < i ==> (#[trigger] column[r])@ == rows[r][j as int]@,
            decreases rows.len() - i,
        {
            column.push(copy_cell(&rows[i][j]));
            i = i + 1;
        }
        columns.push(column);
        j = j + 1;
    }
    columns
}

} // verus!
