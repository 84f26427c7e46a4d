//! The `item` table: its rows as plain records, the cells of each row,
//! the table schema, and the batch reader over the row generator.
use crate::column::{
    column, rows_to_columns, spec_columns, spec_columns_view, spec_row_conforms, spec_row_view,
    spec_schema_view, Cell, CellValue, ColumnSpec, ColumnType, DEFAULT_BATCH_SIZE,
};
use crate::conversions::{
    date_opt, integer_opt, integer_sk_opt, julian_to_date32, opt, spec_date_opt,
    spec_integer_opt, spec_integer_sk_opt, spec_is_null, spec_julian_to_date32, spec_opt,
};
use crate::pricing::{decimal_number, spec_decimal_number};
use crate::batching::{lemma_batches_unfold, spec_batch_take, spec_batches};
use crate::plan::{spec_covers, RowRange, MAX_STARTING_ROW_NUMBER};
use crate::table::{spec_values_index, Table};
use crate::tpcds::{scaling_row_count, session_scaling, spec_scaling_row_count, spec_session_scaling};
use tpcdsgen::config::Session;
use tpcdsgen::row::{ItemRowGenerator, ItemRow};
use tpcdsgen::types::Decimal;
use vstd::prelude::*;

verus! {

#[verifier::external_type_specification]
#[verifier::external_body]
pub struct ExItemRow(ItemRow);

#[verifier::external_type_specification]
#[verifier::external_body]
pub struct ExItemRowGenerator(ItemRowGenerator);

/// The number of columns of the `item` table.
pub const ITEM_COLUMNS: usize = 22;

/// The values of one generated `item` row.
#[derive(Clone, Debug)]
pub struct ItemRecord {
    /// Bit `i` set: column `i` is null.
    pub null_bit_map: i64,
    pub item_sk: i64,
    pub item_id: String,
    pub rec_start_date_id: i64,
    pub rec_end_date_id: i64,
    pub item_desc: String,
    pub current_price: i64,
    pub wholesale_cost: i64,
    pub brand_id: i64,
    pub brand: String,
    pub class_id: i64,
    pub class: String,
    pub category_id: i64,
    pub category: String,
    pub manufact_id: i64,
    pub manufact: String,
    pub size: String,
    pub formulation: String,
    pub color: String,
    pub units: String,
    pub container: String,
    pub manager_id: i64,
    pub product_name: String,
}

/// The schema of the `item` table: column names, types and nullability.
pub open spec fn spec_item_schema() -> Seq<(Seq<char>, ColumnType, bool)> {
    seq![
        ("i_item_sk"@, ColumnType::Int32, false),
        ("i_item_id"@, ColumnType::Utf8View, false),
        ("i_rec_start_date"@, ColumnType::Date32, true),
        ("i_rec_end_date"@, ColumnType::Date32, true),
        ("i_item_desc"@, ColumnType::Utf8View, true),
        ("i_current_price"@, ColumnType::Decimal128 { precision: 7, scale: 2 }, true),
        ("i_wholesale_cost"@, ColumnType::Decimal128 { precision: 7, scale: 2 }, true),
        ("i_brand_id"@, ColumnType::Int32, true),
        ("i_brand"@, ColumnType::Utf8View, true),
        ("i_class_id"@, ColumnType::Int32, true),
        ("i_class"@, ColumnType::Utf8View, true),
        ("i_category_id"@, ColumnType::Int32, true),
        ("i_category"@, ColumnType::Utf8View, true),
        ("i_manufact_id"@, ColumnType::Int32, true),
        ("i_manufact"@, ColumnType::Utf8View, true),
        ("i_size"@, ColumnType::Utf8View, true),
        ("i_formulation"@, ColumnType::Utf8View, true),
        ("i_color"@, ColumnType::Utf8View, true),
        ("i_units"@, ColumnType::Utf8View, true),
        ("i_container"@, ColumnType::Utf8View, true),
        ("i_manager_id"@, ColumnType::Int32, true),
        ("i_product_name"@, ColumnType::Utf8View, true),
    ]
}

/// The schema of the `item` table.
pub fn item_schema() -> (schema: Vec<ColumnSpec>)
    ensures
        spec_schema_view(schema@) == spec_item_schema(),
{
    let mut schema: Vec<ColumnSpec> = Vec::new();
    schema.push(column("i_item_sk", ColumnType::Int32, false));
    schema.push(column("i_item_id", ColumnType::Utf8View, false));
    schema.push(column("i_rec_start_date", ColumnType::Date32, true));
    schema.push(column("i_rec_end_date", ColumnType::Date32, true));
    schema.push(column("i_item_desc", ColumnType::Utf8View, true));
    schema.push(column("i_current_price", ColumnType::Decimal128 { precision: 7, scale: 2 }, true));
    schema.push(column("i_wholesale_cost", ColumnType::Decimal128 { precision: 7, scale: 2 }, true));
    schema.push(column("i_brand_id", ColumnType::Int32, true));
    schema.push(column("i_brand", ColumnType::Utf8View, true));
    schema.push(column("i_class_id", ColumnType::Int32, true));
    schema.push(column("i_class", ColumnType::Utf8View, true));
    schema.push(column("i_category_id", ColumnType::Int32, true));
    schema.push(column("i_category", ColumnType::Utf8View, true));
    schema.push(column("i_manufact_id", ColumnType::Int32, true));
    schema.push(column("i_manufact", ColumnType::Utf8View, true));
    schema.push(column("i_size", ColumnType::Utf8View, true));
    schema.push(column("i_formulation", ColumnType::Utf8View, true));
    schema.push(column("i_color", ColumnType::Utf8View, true));
    schema.push(column("i_units", ColumnType::Utf8View, true));
    schema.push(column("i_container", ColumnType::Utf8View, true));
    schema.push(column("i_manager_id", ColumnType::Int32, true));
    schema.push(column("i_product_name", ColumnType::Utf8View, true));
    assert(spec_schema_view(schema@) =~= spec_item_schema());
    schema
}

/// The cells of a `item` row, in schema order.
pub open spec fn spec_item_row(r: ItemRecord) -> Seq<CellValue> {
    let nbm = r.null_bit_map;
    seq![
        CellValue::Int32(spec_integer_sk_opt(nbm, 0, r.item_sk)),
        CellValue::Utf8(spec_opt(nbm, 1, r.item_id@)),
        CellValue::Date32(spec_date_opt(nbm, 2, r.rec_start_date_id)),
        CellValue::Date32(spec_julian_to_date32(r.rec_end_date_id)),
        CellValue::Utf8(spec_opt(nbm, 4, r.item_desc@)),
        CellValue::Decimal128(spec_opt(nbm, 5, r.current_price as i128)),
        CellValue::Decimal128(spec_opt(nbm, 6, r.wholesale_cost as i128)),
        CellValue::Int32(spec_integer_opt(nbm, 7, r.brand_id)),
        CellValue::Utf8(spec_opt(nbm, 8, r.brand@)),
        CellValue::Int32(spec_integer_opt(nbm, 9, r.class_id)),
        CellValue::Utf8(spec_opt(nbm, 10, r.class@)),
        CellValue::Int32(spec_integer_opt(nbm, 11, r.category_id)),
        CellValue::Utf8(spec_opt(nbm, 12, r.category@)),
        CellValue::Int32(spec_integer_opt(nbm, 13, r.manufact_id)),
        CellValue::Utf8(spec_opt(nbm, 14, r.manufact@)),
        CellValue::Utf8(spec_opt(nbm, 15, r.size@)),
        CellValue::Utf8(spec_opt(nbm, 16, r.formulation@)),
        CellValue::Utf8(spec_opt(nbm, 17, r.color@)),
        CellValue::Utf8(spec_opt(nbm, 18, r.units@)),
        CellValue::Utf8(spec_opt(nbm, 19, r.container@)),
        CellValue::Int32(spec_integer_opt(nbm, 20, r.manager_id)),
        CellValue::Utf8(spec_opt(nbm, 21, r.product_name@)),
    ]
}

/// The cells of the generated `item` row `row`, in schema order.
pub open spec fn spec_item_row_of(row: ItemRow) -> Seq<CellValue> {
    let nbm = spec_item_null_bit_map(row);
    seq![
        CellValue::Int32(spec_integer_sk_opt(nbm, 0, spec_item_item_sk(row))),
        CellValue::Utf8(spec_opt(nbm, 1, spec_item_item_id(row))),
        CellValue::Date32(spec_date_opt(nbm, 2, spec_item_rec_start_date_id(row))),
        CellValue::Date32(spec_julian_to_date32(spec_item_rec_end_date_id(row))),
        CellValue::Utf8(spec_opt(nbm, 4, spec_item_item_desc(row))),
        CellValue::Decimal128(spec_opt(nbm, 5, spec_decimal_number(spec_item_current_price(row)) as i128)),
        CellValue::Decimal128(spec_opt(nbm, 6, spec_decimal_number(spec_item_wholesale_cost(row)) as i128)),
        CellValue::Int32(spec_integer_opt(nbm, 7, spec_item_brand_id(row))),
        CellValue::Utf8(spec_opt(nbm, 8, spec_item_brand(row))),
        CellValue::Int32(spec_integer_opt(nbm, 9, spec_item_class_id(row))),
        CellValue::Utf8(spec_opt(nbm, 10, spec_item_class(row))),
        CellValue::Int32(spec_integer_opt(nbm, 11, spec_item_category_id(row))),
        CellValue::Utf8(spec_opt(nbm, 12, spec_item_category(row))),
        CellValue::Int32(spec_integer_opt(nbm, 13, spec_item_manufact_id(row))),
        CellValue::Utf8(spec_opt(nbm, 14, spec_item_manufact(row))),
        CellValue::Utf8(spec_opt(nbm, 15, spec_item_size(row))),
        CellValue::Utf8(spec_opt(nbm, 16, spec_item_formulation(row))),
        CellValue::Utf8(spec_opt(nbm, 17, spec_item_color(row))),
        CellValue::Utf8(spec_opt(nbm, 18, spec_item_units(row))),
        CellValue::Utf8(spec_opt(nbm, 19, spec_item_container(row))),
        CellValue::Int32(spec_integer_opt(nbm, 20, spec_item_manager_id(row))),
        CellValue::Utf8(spec_opt(nbm, 21, spec_item_product_name(row))),
    ]
}

/// The cells of the generated rows `rows`, one row each.
pub open spec fn spec_item_rows_of(rows: Seq<ItemRow>) -> Seq<Seq<CellValue>> {{
    rows.map_values(|row: ItemRow| spec_item_row_of(row))
}}

/// Records that hold the values of generated rows have the cells of those
/// rows.
pub proof fn lemma_item_matching_records_cells(records: Seq<ItemRecord>, rows: Seq<ItemRow>)
    requires
        spec_item_records_match(records, rows),
    ensures
        spec_item_rows(records) == spec_item_rows_of(rows),
{{
    assert forall|i: int| 0 <= i < records.len() implies spec_item_row(records[i])
        =~= spec_item_row_of(rows[i]) by {{
        assert(spec_item_record_matches(records[i], rows[i]));
    }}
    assert(spec_item_rows(records) =~= spec_item_rows_of(rows));
}}

/// Each column of a generated `item` row holds what the generator's accessor for that column
/// gives: column `j` is the one the schema names, filled from the row's own value for it (null
/// where the row's null bit map marks it), through the conversion its type calls for.
pub proof fn law_item_columns_hold_their_values(row: ItemRow)
    ensures
        spec_item_row_of(row).len() == 22,
        spec_item_schema()[0].0 == "i_item_sk"@ && spec_item_row_of(row)[0] == CellValue::Int32(spec_integer_sk_opt(spec_item_null_bit_map(row), 0u32, spec_item_item_sk(row))),
        spec_item_schema()[1].0 == "i_item_id"@ && spec_item_row_of(row)[1] == CellValue::Utf8(spec_opt(spec_item_null_bit_map(row), 1u32, spec_item_item_id(row))),
        spec_item_schema()[2].0 == "i_rec_start_date"@ && spec_item_row_of(row)[2] == CellValue::Date32(spec_date_opt(spec_item_null_bit_map(row), 2u32, spec_item_rec_start_date_id(row))),
        spec_item_schema()[3].0 == "i_rec_end_date"@ && spec_item_row_of(row)[3] == CellValue::Date32(spec_julian_to_date32(spec_item_rec_end_date_id(row))),
        spec_item_schema()[4].0 == "i_item_desc"@ && spec_item_row_of(row)[4] == CellValue::Utf8(spec_opt(spec_item_null_bit_map(row), 4u32, spec_item_item_desc(row))),
        spec_item_schema()[5].0 == "i_current_price"@ && spec_item_row_of(row)[5] == CellValue::Decimal128(spec_opt(spec_item_null_bit_map(row), 5u32, (crate::pricing::spec_decimal_number(spec_item_current_price(row))) as i128)),
        spec_item_schema()[6].0 == "i_wholesale_cost"@ && spec_item_row_of(row)[6] == CellValue::Decimal128(spec_opt(spec_item_null_bit_map(row), 6u32, (crate::pricing::spec_decimal_number(spec_item_wholesale_cost(row))) as i128)),
        spec_item_schema()[7].0 == "i_brand_id"@ && spec_item_row_of(row)[7] == CellValue::Int32(spec_integer_opt(spec_item_null_bit_map(row), 7u32, spec_item_brand_id(row))),
        spec_item_schema()[8].0 == "i_brand"@ && spec_item_row_of(row)[8] == CellValue::Utf8(spec_opt(spec_item_null_bit_map(row), 8u32, spec_item_brand(row))),
        spec_item_schema()[9].0 == "i_class_id"@ && spec_item_row_of(row)[9] == CellValue::Int32(spec_integer_opt(spec_item_null_bit_map(row), 9u32, spec_item_class_id(row))),
        spec_item_schema()[10].0 == "i_class"@ && spec_item_row_of(row)[10] == CellValue::Utf8(spec_opt(spec_item_null_bit_map(row), 10u32, spec_item_class(row))),
        spec_item_schema()[11].0 == "i_category_id"@ && spec_item_row_of(row)[11] == CellValue::Int32(spec_integer_opt(spec_item_null_bit_map(row), 11u32, spec_item_category_id(row))),
        spec_item_schema()[12].0 == "i_category"@ && spec_item_row_of(row)[12] == CellValue::Utf8(spec_opt(spec_item_null_bit_map(row), 12u32, spec_item_category(row))),
        spec_item_schema()[13].0 == "i_manufact_id"@ && spec_item_row_of(row)[13] == CellValue::Int32(spec_integer_opt(spec_item_null_bit_map(row), 13u32, spec_item_manufact_id(row))),
        spec_item_schema()[14].0 == "i_manufact"@ && spec_item_row_of(row)[14] == CellValue::Utf8(spec_opt(spec_item_null_bit_map(row), 14u32, spec_item_manufact(row))),
        spec_item_schema()[15].0 == "i_size"@ && spec_item_row_of(row)[15] == CellValue::Utf8(spec_opt(spec_item_null_bit_map(row), 15u32, spec_item_size(row))),
        spec_item_schema()[16].0 == "i_formulation"@ && spec_item_row_of(row)[16] == CellValue::Utf8(spec_opt(spec_item_null_bit_map(row), 16u32, spec_item_formulation(row))),
        spec_item_schema()[17].0 == "i_color"@ && spec_item_row_of(row)[17] == CellValue::Utf8(spec_opt(spec_item_null_bit_map(row), 17u32, spec_item_color(row))),
        spec_item_schema()[18].0 == "i_units"@ && spec_item_row_of(row)[18] == CellValue::Utf8(spec_opt(spec_item_null_bit_map(row), 18u32, spec_item_units(row))),
        spec_item_schema()[19].0 == "i_container"@ && spec_item_row_of(row)[19] == CellValue::Utf8(spec_opt(spec_item_null_bit_map(row), 19u32, spec_item_container(row))),
        spec_item_schema()[20].0 == "i_manager_id"@ && spec_item_row_of(row)[20] == CellValue::Int32(spec_integer_opt(spec_item_null_bit_map(row), 20u32, spec_item_manager_id(row))),
        spec_item_schema()[21].0 == "i_product_name"@ && spec_item_row_of(row)[21] == CellValue::Utf8(spec_opt(spec_item_null_bit_map(row), 21u32, spec_item_product_name(row))),
{
}

/// Each column of a `item` record's row holds the record's value for the column the schema
/// names, null where the record's null bit map marks it.
pub proof fn law_item_record_columns_hold_their_values(r: ItemRecord)
    ensures
        spec_item_row(r).len() == 22,
        spec_item_schema()[0].0 == "i_item_sk"@ && spec_item_row(r)[0] == CellValue::Int32(spec_integer_sk_opt(r.null_bit_map, 0u32, r.item_sk)),
        spec_item_schema()[1].0 == "i_item_id"@ && spec_item_row(r)[1] == CellValue::Utf8(spec_opt(r.null_bit_map, 1u32, r.item_id@)),
        spec_item_schema()[2].0 == "i_rec_start_date"@ && spec_item_row(r)[2] == CellValue::Date32(spec_date_opt(r.null_bit_map, 2u32, r.rec_start_date_id)),
        spec_item_schema()[3].0 == "i_rec_end_date"@ && spec_item_row(r)[3] == CellValue::Date32(spec_julian_to_date32(r.rec_end_date_id)),
        spec_item_schema()[4].0 == "i_item_desc"@ && spec_item_row(r)[4] == CellValue::Utf8(spec_opt(r.null_bit_map, 4u32, r.item_desc@)),
        spec_item_schema()[5].0 == "i_current_price"@ && spec_item_row(r)[5] == CellValue::Decimal128(spec_opt(r.null_bit_map, 5u32, (r.current_price) as i128)),
        spec_item_schema()[6].0 == "i_wholesale_cost"@ && spec_item_row(r)[6] == CellValue::Decimal128(spec_opt(r.null_bit_map, 6u32, (r.wholesale_cost) as i128)),
        spec_item_schema()[7].0 == "i_brand_id"@ && spec_item_row(r)[7] == CellValue::Int32(spec_integer_opt(r.null_bit_map, 7u32, r.brand_id)),
        spec_item_schema()[8].0 == "i_brand"@ && spec_item_row(r)[8] == CellValue::Utf8(spec_opt(r.null_bit_map, 8u32, r.brand@)),
        spec_item_schema()[9].0 == "i_class_id"@ && spec_item_row(r)[9] == CellValue::Int32(spec_integer_opt(r.null_bit_map, 9u32, r.class_id)),
        spec_item_schema()[10].0 == "i_class"@ && spec_item_row(r)[10] == CellValue::Utf8(spec_opt(r.null_bit_map, 10u32, r.class@)),
        spec_item_schema()[11].0 == "i_category_id"@ && spec_item_row(r)[11] == CellValue::Int32(spec_integer_opt(r.null_bit_map, 11u32, r.category_id)),
        spec_item_schema()[12].0 == "i_category"@ && spec_item_row(r)[12] == CellValue::Utf8(spec_opt(r.null_bit_map, 12u32, r.category@)),
        spec_item_schema()[13].0 == "i_manufact_id"@ && spec_item_row(r)[13] == CellValue::Int32(spec_integer_opt(r.null_bit_map, 13u32, r.manufact_id)),
        spec_item_schema()[14].0 == "i_manufact"@ && spec_item_row(r)[14] == CellValue::Utf8(spec_opt(r.null_bit_map, 14u32, r.manufact@)),
        spec_item_schema()[15].0 == "i_size"@ && spec_item_row(r)[15] == CellValue::Utf8(spec_opt(r.null_bit_map, 15u32, r.size@)),
        spec_item_schema()[16].0 == "i_formulation"@ && spec_item_row(r)[16] == CellValue::Utf8(spec_opt(r.null_bit_map, 16u32, r.formulation@)),
        spec_item_schema()[17].0 == "i_color"@ && spec_item_row(r)[17] == CellValue::Utf8(spec_opt(r.null_bit_map, 17u32, r.color@)),
        spec_item_schema()[18].0 == "i_units"@ && spec_item_row(r)[18] == CellValue::Utf8(spec_opt(r.null_bit_map, 18u32, r.units@)),
        spec_item_schema()[19].0 == "i_container"@ && spec_item_row(r)[19] == CellValue::Utf8(spec_opt(r.null_bit_map, 19u32, r.container@)),
        spec_item_schema()[20].0 == "i_manager_id"@ && spec_item_row(r)[20] == CellValue::Int32(spec_integer_opt(r.null_bit_map, 20u32, r.manager_id)),
        spec_item_schema()[21].0 == "i_product_name"@ && spec_item_row(r)[21] == CellValue::Utf8(spec_opt(r.null_bit_map, 21u32, r.product_name@)),
{
}

/// The rows of a batch of generated `item` rows come one per generated row, in the same order.
pub proof fn law_item_rows_in_order(rows: Seq<ItemRow>)
    ensures
        spec_item_rows_of(rows).len() == rows.len(),
        forall|i: int| 0 <= i < rows.len() ==> #[trigger] spec_item_rows_of(rows)[i] == spec_item_row_of(rows[i]),
{
}

/// The rows of a batch of `item` records come one per record, in the same order.
pub proof fn law_item_record_rows_in_order(records: Seq<ItemRecord>)
    ensures
        spec_item_rows(records).len() == records.len(),
        forall|i: int| 0 <= i < records.len() ==> #[trigger] spec_item_rows(records)[i] == spec_item_row(records[i]),
{
}

/// The cells of a `item` row, in schema order.
pub fn item_row(r: &ItemRecord) -> (row: Vec<Cell>)
    ensures
        spec_row_view(row@) == spec_item_row(*r),
{
    let nbm = r.null_bit_map;
    let mut row: Vec<Cell> = Vec::new();
    row.push(Cell::Int32(integer_sk_opt(nbm, 0, r.item_sk)));
    row.push(Cell::Utf8(opt(nbm, 1, r.item_id.clone())));
    row.push(Cell::Date32(date_opt(nbm, 2, r.rec_start_date_id)));
    row.push(Cell::Date32(julian_to_date32(r.rec_end_date_id)));
    row.push(Cell::Utf8(opt(nbm, 4, r.item_desc.clone())));
    row.push(Cell::Decimal128(opt(nbm, 5, r.current_price as i128)));
    row.push(Cell::Decimal128(opt(nbm, 6, r.wholesale_cost as i128)));
    row.push(Cell::Int32(integer_opt(nbm, 7, r.brand_id)));
    row.push(Cell::Utf8(opt(nbm, 8, r.brand.clone())));
    row.push(Cell::Int32(integer_opt(nbm, 9, r.class_id)));
    row.push(Cell::Utf8(opt(nbm, 10, r.class.clone())));
    row.push(Cell::Int32(integer_opt(nbm, 11, r.category_id)));
    row.push(Cell::Utf8(opt(nbm, 12, r.category.clone())));
    row.push(Cell::Int32(integer_opt(nbm, 13, r.manufact_id)));
    row.push(Cell::Utf8(opt(nbm, 14, r.manufact.clone())));
    row.push(Cell::Utf8(opt(nbm, 15, r.size.clone())));
    row.push(Cell::Utf8(opt(nbm, 16, r.formulation.clone())));
    row.push(Cell::Utf8(opt(nbm, 17, r.color.clone())));
    row.push(Cell::Utf8(opt(nbm, 18, r.units.clone())));
    row.push(Cell::Utf8(opt(nbm, 19, r.container.clone())));
    row.push(Cell::Int32(integer_opt(nbm, 20, r.manager_id)));
    row.push(Cell::Utf8(opt(nbm, 21, r.product_name.clone())));
    assert(spec_row_view(row@) =~= spec_item_row(*r));
    row
}

/// The cells of `records`, one row each.
pub open spec fn spec_item_rows(records: Seq<ItemRecord>) -> Seq<Seq<CellValue>> {
    records.map_values(|r: ItemRecord| spec_item_row(r))
}

/// The columns of a record batch holding `records`: column `j` holds the
/// `j`-th cell of each record's row, in record order.
pub fn item_columns(records: &Vec<ItemRecord>) -> (columns: Vec<Vec<Cell>>)
    ensures
        spec_columns_view(columns@) == spec_columns(
            spec_item_rows(records@),
            ITEM_COLUMNS as nat,
        ),
{
    let mut rows: Vec<Vec<Cell>> = Vec::new();
    let mut i: usize = 0;
    while i < records.len()
        invariant
            i <= records.len(),
            rows.len() == i,
            forall|k: int|
                0 <= k < i ==> spec_row_view((#[trigger] rows[k])@) == spec_item_row(records[k]),
            forall|k: int| 0 <= k < i ==> (#[trigger] rows[k]).len() == ITEM_COLUMNS,
        decreases records.len() - i,
    {
        let row = item_row(&records[i]);
        proof {
            assert(spec_row_view(row@).len() == row@.len());
        }
        rows.push(row);
        i = i + 1;
    }
    let columns = rows_to_columns(&rows, ITEM_COLUMNS);
    proof {
        let expected = spec_columns(spec_item_rows(records@), ITEM_COLUMNS as nat);
        assert forall|j: int| 0 <= j < ITEM_COLUMNS implies spec_row_view(columns@[j]@)
            =~= expected[j] by {
            assert forall|k: int| 0 <= k < records.len() implies (#[trigger] spec_row_view(
                columns@[j]@,
            )[k]) == expected[j][k] by {
                assert(spec_row_view(rows[k]@)[j] == rows[k][j]@);
            }
        }
        assert(spec_columns_view(columns@) =~= expected);
    }
    columns
}

/// A `item` row conforms to the table schema (one cell per column, each
/// of the column's type, no null in a required column) whenever its required
/// columns are not marked null and their keys are not negative.
pub proof fn law_item_row_conforms(r: ItemRecord)
    requires
        !spec_is_null(r.null_bit_map, 0),
        r.item_sk >= 0,
        !spec_is_null(r.null_bit_map, 1),
    ensures
        spec_row_conforms(spec_item_row(r), spec_item_schema()),
{
    let row = spec_item_row(r);
    assert(row.len() == 22);
}

/// The null bit map that `ItemRow::null_bit_map` returns for `row`.
pub uninterp spec fn spec_item_null_bit_map(row: ItemRow) -> i64;

/// Calls `ItemRow::null_bit_map`: a field of the row, named
/// `spec_item_null_bit_map`.
#[verifier::external_body]
fn item_null_bit_map(r: &ItemRow) -> (v: i64)
    ensures
        v == spec_item_null_bit_map(*r),
{
    r.null_bit_map()
}

/// The value that `ItemRow::get_i_item_sk` returns for `row`.
pub uninterp spec fn spec_item_item_sk(row: ItemRow) -> i64;

/// Calls `ItemRow::get_i_item_sk`: a field of the row, named `spec_item_item_sk`.
#[verifier::external_body]
fn item_item_sk(r: &ItemRow) -> (v: i64)
    ensures
        v == spec_item_item_sk(*r),
{
    r.get_i_item_sk()
}

/// The text that `ItemRow::get_i_item_id` returns for `row`.
pub uninterp spec fn spec_item_item_id(row: ItemRow) -> Seq<char>;

/// Calls `ItemRow::get_i_item_id`, copied into a `String`: a field of the row, named
/// `spec_item_item_id`.
#[verifier::external_body]
fn item_item_id(r: &ItemRow) -> (v: String)
    ensures
        v@ == spec_item_item_id(*r),
{
    r.get_i_item_id().to_owned()
}

/// The value that `ItemRow::get_i_rec_start_date_id` returns for `row`.
pub uninterp spec fn spec_item_rec_start_date_id(row: ItemRow) -> i64;

/// Calls `ItemRow::get_i_rec_start_date_id`: a field of the row, named
/// `spec_item_rec_start_date_id`.
#[verifier::external_body]
fn item_rec_start_date_id(r: &ItemRow) -> (v: i64)
    ensures
        v == spec_item_rec_start_date_id(*r),
{
    r.get_i_rec_start_date_id()
}

/// The value that `ItemRow::get_i_rec_end_date_id` returns for `row`.
pub uninterp spec fn spec_item_rec_end_date_id(row: ItemRow) -> i64;

/// Calls `ItemRow::get_i_rec_end_date_id`: a field of the row, named
/// `spec_item_rec_end_date_id`.
#[verifier::external_body]
fn item_rec_end_date_id(r: &ItemRow) -> (v: i64)
    ensures
        v == spec_item_rec_end_date_id(*r),
{
    r.get_i_rec_end_date_id()
}

/// The text that `ItemRow::get_i_item_desc` returns for `row`.
pub uninterp spec fn spec_item_item_desc(row: ItemRow) -> Seq<char>;

/// Calls `ItemRow::get_i_item_desc`, copied into a `String`: a field of the row, named
/// `spec_item_item_desc`.
#[verifier::external_body]
fn item_item_desc(r: &ItemRow) -> (v: String)
    ensures
        v@ == spec_item_item_desc(*r),
{
    r.get_i_item_desc().to_owned()
}

/// The decimal that `ItemRow::get_i_current_price` returns for `row`.
pub uninterp spec fn spec_item_current_price(row: ItemRow) -> Decimal;

/// Calls `ItemRow::get_i_current_price`: a field of the row, named `spec_item_current_price`.
#[verifier::external_body]
fn item_current_price(r: &ItemRow) -> (v: Decimal)
    ensures
        v == spec_item_current_price(*r),
{
    r.get_i_current_price()
}

/// The decimal that `ItemRow::get_i_wholesale_cost` returns for `row`.
pub uninterp spec fn spec_item_wholesale_cost(row: ItemRow) -> Decimal;

/// Calls `ItemRow::get_i_wholesale_cost`: a field of the row, named `spec_item_wholesale_cost`.
#[verifier::external_body]
fn item_wholesale_cost(r: &ItemRow) -> (v: Decimal)
    ensures
        v == spec_item_wholesale_cost(*r),
{
    r.get_i_wholesale_cost()
}

/// The value that `ItemRow::get_i_brand_id` returns for `row`.
pub uninterp spec fn spec_item_brand_id(row: ItemRow) -> i64;

/// Calls `ItemRow::get_i_brand_id`: a field of the row, named `spec_item_brand_id`.
#[verifier::external_body]
fn item_brand_id(r: &ItemRow) -> (v: i64)
    ensures
        v == spec_item_brand_id(*r),
{
    r.get_i_brand_id()
}

/// The text that `ItemRow::get_i_brand` returns for `row`.
pub uninterp spec fn spec_item_brand(row: ItemRow) -> Seq<char>;

/// Calls `ItemRow::get_i_brand`, copied into a `String`: a field of the row, named
/// `spec_item_brand`.
#[verifier::external_body]
fn item_brand(r: &ItemRow) -> (v: String)
    ensures
        v@ == spec_item_brand(*r),
{
    r.get_i_brand().to_owned()
}

/// The value that `ItemRow::get_i_class_id` returns for `row`.
pub uninterp spec fn spec_item_class_id(row: ItemRow) -> i64;

/// Calls `ItemRow::get_i_class_id`: a field of the row, named `spec_item_class_id`.
#[verifier::external_body]
fn item_class_id(r: &ItemRow) -> (v: i64)
    ensures
        v == spec_item_class_id(*r),
{
    r.get_i_class_id()
}

/// The text that `ItemRow::get_i_class` returns for `row`.
pub uninterp spec fn spec_item_class(row: ItemRow) -> Seq<char>;

/// Calls `ItemRow::get_i_class`, copied into a `String`: a field of the row, named
/// `spec_item_class`.
#[verifier::external_body]
fn item_class(r: &ItemRow) -> (v: String)
    ensures
        v@ == spec_item_class(*r),
{
    r.get_i_class().to_owned()
}

/// The value that `ItemRow::get_i_category_id` returns for `row`.
pub uninterp spec fn spec_item_category_id(row: ItemRow) -> i64;

/// Calls `ItemRow::get_i_category_id`: a field of the row, named `spec_item_category_id`.
#[verifier::external_body]
fn item_category_id(r: &ItemRow) -> (v: i64)
    ensures
        v == spec_item_category_id(*r),
{
    r.get_i_category_id()
}

/// The text that `ItemRow::get_i_category` returns for `row`.
pub uninterp spec fn spec_item_category(row: ItemRow) -> Seq<char>;

/// Calls `ItemRow::get_i_category`, copied into a `String`: a field of the row, named
/// `spec_item_category`.
#[verifier::external_body]
fn item_category(r: &ItemRow) -> (v: String)
    ensures
        v@ == spec_item_category(*r),
{
    r.get_i_category().to_owned()
}

/// The value that `ItemRow::get_i_manufact_id` returns for `row`.
pub uninterp spec fn spec_item_manufact_id(row: ItemRow) -> i64;

/// Calls `ItemRow::get_i_manufact_id`: a field of the row, named `spec_item_manufact_id`.
#[verifier::external_body]
fn item_manufact_id(r: &ItemRow) -> (v: i64)
    ensures
        v == spec_item_manufact_id(*r),
{
    r.get_i_manufact_id()
}

/// The text that `ItemRow::get_i_manufact` returns for `row`.
pub uninterp spec fn spec_item_manufact(row: ItemRow) -> Seq<char>;

/// Calls `ItemRow::get_i_manufact`, copied into a `String`: a field of the row, named
/// `spec_item_manufact`.
#[verifier::external_body]
fn item_manufact(r: &ItemRow) -> (v: String)
    ensures
        v@ == spec_item_manufact(*r),
{
    r.get_i_manufact().to_owned()
}

/// The text that `ItemRow::get_i_size` returns for `row`.
pub uninterp spec fn spec_item_size(row: ItemRow) -> Seq<char>;

/// Calls `ItemRow::get_i_size`, copied into a `String`: a field of the row, named
/// `spec_item_size`.
#[verifier::external_body]
fn item_size(r: &ItemRow) -> (v: String)
    ensures
        v@ == spec_item_size(*r),
{
    r.get_i_size().to_owned()
}

/// The text that `ItemRow::get_i_formulation` returns for `row`.
pub uninterp spec fn spec_item_formulation(row: ItemRow) -> Seq<char>;

/// Calls `ItemRow::get_i_formulation`, copied into a `String`: a field of the row, named
/// `spec_item_formulation`.
#[verifier::external_body]
fn item_formulation(r: &ItemRow) -> (v: String)
    ensures
        v@ == spec_item_formulation(*r),
{
    r.get_i_formulation().to_owned()
}

/// The text that `ItemRow::get_i_color` returns for `row`.
pub uninterp spec fn spec_item_color(row: ItemRow) -> Seq<char>;

/// Calls `ItemRow::get_i_color`, copied into a `String`: a field of the row, named
/// `spec_item_color`.
#[verifier::external_body]
fn item_color(r: &ItemRow) -> (v: String)
    ensures
        v@ == spec_item_color(*r),
{
    r.get_i_color().to_owned()
}

/// The text that `ItemRow::get_i_units` returns for `row`.
pub uninterp spec fn spec_item_units(row: ItemRow) -> Seq<char>;

/// Calls `ItemRow::get_i_units`, copied into a `String`: a field of the row, named
/// `spec_item_units`.
#[verifier::external_body]
fn item_units(r: &ItemRow) -> (v: String)
    ensures
        v@ == spec_item_units(*r),
{
    r.get_i_units().to_owned()
}

/// The text that `ItemRow::get_i_container` returns for `row`.
pub uninterp spec fn spec_item_container(row: ItemRow) -> Seq<char>;

/// Calls `ItemRow::get_i_container`, copied into a `String`: a field of the row, named
/// `spec_item_container`.
#[verifier::external_body]
fn item_container(r: &ItemRow) -> (v: String)
    ensures
        v@ == spec_item_container(*r),
{
    r.get_i_container().to_owned()
}

/// The value that `ItemRow::get_i_manager_id` returns for `row`.
pub uninterp spec fn spec_item_manager_id(row: ItemRow) -> i64;

/// Calls `ItemRow::get_i_manager_id`: a field of the row, named `spec_item_manager_id`.
#[verifier::external_body]
fn item_manager_id(r: &ItemRow) -> (v: i64)
    ensures
        v == spec_item_manager_id(*r),
{
    r.get_i_manager_id()
}

/// The text that `ItemRow::get_i_product_name` returns for `row`.
pub uninterp spec fn spec_item_product_name(row: ItemRow) -> Seq<char>;

/// Calls `ItemRow::get_i_product_name`, copied into a `String`: a field of the row, named
/// `spec_item_product_name`.
#[verifier::external_body]
fn item_product_name(r: &ItemRow) -> (v: String)
    ensures
        v@ == spec_item_product_name(*r),
{
    r.get_i_product_name().to_owned()
}

/// Whether `r` holds the values of the generated row `row`, field by field
/// (each decimal as its unscaled digits).
pub open spec fn spec_item_record_matches(r: ItemRecord, row: ItemRow) -> bool {
    &&& r.null_bit_map == spec_item_null_bit_map(row)
    &&& r.item_sk == spec_item_item_sk(row)
    &&& r.item_id@ == spec_item_item_id(row)
    &&& r.rec_start_date_id == spec_item_rec_start_date_id(row)
    &&& r.rec_end_date_id == spec_item_rec_end_date_id(row)
    &&& r.item_desc@ == spec_item_item_desc(row)
    &&& r.current_price == spec_decimal_number(spec_item_current_price(row))
    &&& r.wholesale_cost == spec_decimal_number(spec_item_wholesale_cost(row))
    &&& r.brand_id == spec_item_brand_id(row)
    &&& r.brand@ == spec_item_brand(row)
    &&& r.class_id == spec_item_class_id(row)
    &&& r.class@ == spec_item_class(row)
    &&& r.category_id == spec_item_category_id(row)
    &&& r.category@ == spec_item_category(row)
    &&& r.manufact_id == spec_item_manufact_id(row)
    &&& r.manufact@ == spec_item_manufact(row)
    &&& r.size@ == spec_item_size(row)
    &&& r.formulation@ == spec_item_formulation(row)
    &&& r.color@ == spec_item_color(row)
    &&& r.units@ == spec_item_units(row)
    &&& r.container@ == spec_item_container(row)
    &&& r.manager_id == spec_item_manager_id(row)
    &&& r.product_name@ == spec_item_product_name(row)
}

/// Whether `records` hold the values of `rows`, one record per row, in order.
pub open spec fn spec_item_records_match(records: Seq<ItemRecord>, rows: Seq<ItemRow>) -> bool {
    &&& records.len() == rows.len()
    &&& forall|i: int|
        0 <= i < records.len() ==> #[trigger] spec_item_record_matches(records[i], rows[i])
}

/// Read the values of a generated `item` row.
pub fn item_record(row: &ItemRow) -> (r: ItemRecord)
    ensures
        spec_item_record_matches(r, *row),
{
    ItemRecord {
        null_bit_map: item_null_bit_map(row),
        item_sk: item_item_sk(row),
        item_id: item_item_id(row),
        rec_start_date_id: item_rec_start_date_id(row),
        rec_end_date_id: item_rec_end_date_id(row),
        item_desc: item_item_desc(row),
        current_price: decimal_number(&item_current_price(row)),
        wholesale_cost: decimal_number(&item_wholesale_cost(row)),
        brand_id: item_brand_id(row),
        brand: item_brand(row),
        class_id: item_class_id(row),
        class: item_class(row),
        category_id: item_category_id(row),
        category: item_category(row),
        manufact_id: item_manufact_id(row),
        manufact: item_manufact(row),
        size: item_size(row),
        formulation: item_formulation(row),
        color: item_color(row),
        units: item_units(row),
        container: item_container(row),
        manager_id: item_manager_id(row),
        product_name: item_product_name(row),
    }
}

/// The rows that a `ItemRowGenerator` of `session` yields for source row `row_number`: the one
/// `item` row of that source row. The generator fast-forwards its random number streams to a
/// source row, so what a source row yields depends on the session and the row number alone.
pub uninterp spec fn spec_item_source_row(session: Session, row_number: nat) -> Seq<ItemRow>;

/// The rows that `generator` has still to yield, in order.
pub uninterp spec fn spec_item_pending(generator: ItemRowGenerator) -> Seq<ItemRow>;

/// The session that `generator` holds.
pub uninterp spec fn spec_item_session(generator: ItemRowGenerator) -> Session;

/// The last source row that `generator` generates (its row count, after any clamping by a
/// range).
pub uninterp spec fn spec_item_end(generator: ItemRowGenerator) -> u64;

/// The rows that a generator of `session` yields for source rows `start..=end`: those of each
/// source row, in row order.
pub open spec fn spec_item_source_rows(session: Session, start: int, end: int) -> Seq<ItemRow>
    decreases end + 1 - start,
{
    if end < start {
        Seq::empty()
    } else {
        spec_item_source_rows(session, start, end - 1) + spec_item_source_row(session, end as nat)
    }
}

/// The row count of `Item` at the scaling of `session`: the source rows of a reader of the
/// table.
pub open spec fn spec_item_table_rows(session: Session) -> u64 {
    spec_scaling_row_count(spec_session_scaling(session), spec_values_index(Table::Item))
}

/// Calls `ItemRowGenerator::new`: a generator of the source rows `1..=row_count` of `session`,
/// about to start source row 1. Each source row yields one row.
#[verifier::external_body]
fn item_generator(session: Session, row_count: u64) -> (generator: ItemRowGenerator)
    ensures
        spec_item_session(generator) == session,
        spec_item_end(generator) == row_count,
        spec_item_pending(generator) == spec_item_source_rows(session, 1, row_count as int)
            && forall|n: nat| 1 <= n <= row_count ==> #[trigger] spec_item_source_row(session, n).len() == 1,
{
    ItemRowGenerator::new(session, row_count)
}

/// Calls `ItemRowGenerator::skip_rows_until_starting_row_number`: the generator goes on at
/// source row `starting_row_number` and still ends at its last source row. The rows to come are
/// stated from any state (the generator drops its previous row and replays the history of a
/// slowly changing row from that row's first version). The starting row is at least 1 (row 0
/// has no key) and at most [`MAX_STARTING_ROW_NUMBER`] (the fast-forward multiplies it by the
/// seeds per row in a `u64`).
#[verifier::external_body]
fn item_skip(generator: &mut ItemRowGenerator, starting_row_number: u64)
    requires
        1 <= starting_row_number <= MAX_STARTING_ROW_NUMBER,
    ensures
        spec_item_session(*final(generator)) == spec_item_session(*old(generator)),
        spec_item_end(*final(generator)) == spec_item_end(*old(generator)),
        spec_item_pending(*final(generator)) == spec_item_source_rows(
            spec_item_session(*old(generator)),
            starting_row_number as int,
            spec_item_end(*final(generator)) as int,
        ),
{
    generator.skip_rows_until_starting_row_number(starting_row_number)
}

/// Calls `ItemRowGenerator::set_source_row_range`: the generator goes on at source row
/// `starting_row_number` and ends at `ending_row_number`, clamped to its last source row. The
/// rows to come, and the bounds on the starting row, are as for `item_skip`.
#[verifier::external_body]
fn item_set_range(generator: &mut ItemRowGenerator, starting_row_number: u64, ending_row_number: u64)
    requires
        1 <= starting_row_number <= MAX_STARTING_ROW_NUMBER,
    ensures
        spec_item_session(*final(generator)) == spec_item_session(*old(generator)),
        spec_item_end(*final(generator)) == if ending_row_number < spec_item_end(*old(generator)) {
            ending_row_number
        } else {
            spec_item_end(*old(generator))
        },
        spec_item_pending(*final(generator)) == spec_item_source_rows(
            spec_item_session(*old(generator)),
            starting_row_number as int,
            spec_item_end(*final(generator)) as int,
        ),
{
    generator.set_source_row_range(starting_row_number, ending_row_number)
}

/// Calls `Iterator::next` of `ItemRowGenerator`: the first of the rows still to come, which it
/// then no longer holds, or `None` when none is left. Its session and last source row stay.
#[verifier::external_body]
fn item_next(generator: &mut ItemRowGenerator) -> (row: Option<ItemRow>)
    ensures
        spec_item_session(*final(generator)) == spec_item_session(*old(generator)),
        spec_item_end(*final(generator)) == spec_item_end(*old(generator)),
        spec_item_pending(*old(generator)).len() == 0 ==> row is None && spec_item_pending(
            *final(generator),
        ) == spec_item_pending(*old(generator)),
        spec_item_pending(*old(generator)).len() > 0 ==> row == Some(
            spec_item_pending(*old(generator))[0],
        ) && spec_item_pending(*final(generator)) == spec_item_pending(
            *old(generator),
        ).drop_first(),
{
    generator.next()
}

/// Generating source rows `start..=mid` and then `mid + 1..=end` yields the rows of generating
/// `start..=end`: none is lost or repeated at the boundary.
pub proof fn law_item_source_rows_concatenate(session: Session, start: int, mid: int, end: int)
    requires
        start <= mid + 1,
        mid <= end,
    ensures
        spec_item_source_rows(session, start, end) == spec_item_source_rows(session, start, mid)
            + spec_item_source_rows(session, mid + 1, end),
    decreases end - mid,
{
    if end == mid {
        assert(spec_item_source_rows(session, mid + 1, end) =~= Seq::empty());
        assert(spec_item_source_rows(session, start, mid) + Seq::empty()
            =~= spec_item_source_rows(session, start, mid));
    } else {
        law_item_source_rows_concatenate(session, start, mid, end - 1);
        assert(spec_item_source_rows(session, start, end) =~= spec_item_source_rows(
            session,
            start,
            mid,
        ) + spec_item_source_rows(session, mid + 1, end));
    }
}

/// The rows of generating each of `ranges` in turn, in order.
pub open spec fn spec_item_ranges_rows(session: Session, ranges: Seq<RowRange>) -> Seq<ItemRow>
    decreases ranges.len(),
{
    if ranges.len() == 0 {
        Seq::empty()
    } else {
        spec_item_ranges_rows(session, ranges.drop_last()) + spec_item_source_rows(
            session,
            ranges.last().start as int,
            ranges.last().end as int,
        )
    }
}

/// Non-empty ranges that follow each other without gap generate, in turn, the rows of the span
/// from the first start to the last end.
proof fn lemma_item_chained_ranges(session: Session, ranges: Seq<RowRange>)
    requires
        ranges.len() > 0,
        forall|i: int| 0 <= i < ranges.len() ==> #[trigger] ranges[i].start <= ranges[i].end,
        forall|i: int| 0 <= i < ranges.len() - 1 ==> #[trigger] ranges[i + 1].start == ranges[i].end + 1,
    ensures
        ranges[0].start <= ranges.last().end,
        spec_item_ranges_rows(session, ranges) == spec_item_source_rows(
            session,
            ranges[0].start as int,
            ranges.last().end as int,
        ),
    decreases ranges.len(),
{
    let last = ranges.last();
    if ranges.len() == 1 {
        assert(ranges.drop_last().len() == 0);
        assert(spec_item_ranges_rows(session, ranges.drop_last()) =~= Seq::empty());
        assert(spec_item_ranges_rows(session, ranges) =~= spec_item_source_rows(
            session,
            last.start as int,
            last.end as int,
        ));
    } else {
        let front = ranges.drop_last();
        assert forall|i: int| 0 <= i < front.len() implies #[trigger] front[i].start <= front[i].end by {
            assert(front[i] == ranges[i]);
        }
        assert forall|i: int| 0 <= i < front.len() - 1 implies #[trigger] front[i + 1].start
            == front[i].end + 1 by {
            assert(front[i] == ranges[i]);
            assert(front[i + 1] == ranges[i + 1]);
        }
        lemma_item_chained_ranges(session, front);
        let k = ranges.len() - 2;
        assert(front.last() == ranges[k]);
        assert(front[0] == ranges[0]);
        assert(ranges[k + 1].start == ranges[k].end + 1);
        law_item_source_rows_concatenate(
            session,
            ranges[0].start as int,
            ranges[k].end as int,
            last.end as int,
        );
    }
}

/// Ranges that cover source rows `1..=rows` (as a plan's row groups do, see
/// `law_plan_covers_source_rows`) generate, one after the other, exactly the rows of all `rows`
/// source rows: readers ranged over them, concatenated, give the rows of the unranged reader.
pub proof fn law_item_covering_ranges_concatenate(session: Session, ranges: Seq<RowRange>, rows: nat)
    requires
        spec_covers(ranges, rows),
    ensures
        spec_item_ranges_rows(session, ranges) == spec_item_source_rows(session, 1, rows as int),
{
    lemma_item_chained_ranges(session, ranges);
}

/// Generation is deterministic: readers of equal sessions over the same source rows, at the
/// same batch size, hand out the same batches.
pub proof fn law_item_equal_sessions_equal_batches(
    first: Session,
    second: Session,
    start: int,
    end: int,
    batch_size: nat,
)
    requires
        first == second,
    ensures
        spec_batches(spec_item_source_rows(first, start, end), batch_size) == spec_batches(
            spec_item_source_rows(second, start, end),
            batch_size,
        ),
{
}

/// Skipping to source row `start` leaves the rows that a range `start..=ending_row_number`
/// leaves, for any ending row number at or past the last source row `end`.
pub proof fn law_item_skip_is_range_to_the_end(session: Session, start: int, end: u64, ending_row_number: u64)
    requires
        end <= ending_row_number,
    ensures
        spec_item_source_rows(session, start, end as int) == spec_item_source_rows(
            session,
            start,
            (if ending_row_number < end {
                ending_row_number
            } else {
                end
            }) as int,
        ),
{
}

/// Where each source row yields one row (as it does for the rows `1..=rows` of a reader, see
/// `new`), source rows `start..=end` yield `end - start + 1` rows, none when `end < start`.
pub proof fn law_item_one_row_per_source_row(session: Session, start: int, end: int, rows: nat)
    requires
        1 <= start,
        end <= rows,
        forall|n: nat| 1 <= n <= rows ==> #[trigger] spec_item_source_row(session, n).len() == 1,
    ensures
        spec_item_source_rows(session, start, end).len() == if end < start {
            0
        } else {
            end - start + 1
        },
    decreases end + 1 - start,
{
    if end >= start {
        law_item_one_row_per_source_row(session, start, end - 1, rows);
        assert(spec_item_source_row(session, end as nat).len() == 1);
    }
}

/// Generates the `item` table as record batches of at most `batch_size` rows, each batch as its
/// columns of cells.
pub struct ItemArrow {
    generator: ItemRowGenerator,
    batch_size: usize,
}

impl ItemArrow {
    /// The number of rows per batch.
    pub closed spec fn spec_batch_size(&self) -> usize {
        self.batch_size
    }

    /// The rows the reader's generator has still to yield, in order.
    pub closed spec fn spec_pending(&self) -> Seq<ItemRow> {
        spec_item_pending(self.generator)
    }

    /// The session the reader generates from.
    pub closed spec fn spec_session(&self) -> Session {
        spec_item_session(self.generator)
    }

    /// The last source row the reader generates.
    pub closed spec fn spec_end(&self) -> u64 {
        spec_item_end(self.generator)
    }

    /// Whether a skip or a range on the reader yields exactly the source rows asked for:
    /// always, for a table of slowly changing rows.
    pub closed spec fn spec_at_row_start(&self) -> bool {
        true
    }

    /// Whether the reader reaches a source row boundary once it has handed out all its rows.
    pub closed spec fn spec_steady(&self) -> bool {
        true
    }

    /// A reader of all the table's rows at the scale of `session`, in batches of
    /// [`DEFAULT_BATCH_SIZE`] rows: its generator yields the rows of source rows `1..=n`, where
    /// `n` is the row count of `Item` at the session's scaling.
    pub fn new(session: Session) -> (reader: Self)
        ensures
            reader.spec_batch_size() == DEFAULT_BATCH_SIZE,
            reader.spec_session() == session,
            reader.spec_end() == spec_item_table_rows(session),
            reader.spec_at_row_start(),
            reader.spec_steady(),
            reader.spec_pending() == spec_item_source_rows(
                session,
                1,
                spec_item_table_rows(session) as int,
            ),
            forall|n: nat| 1 <= n <= spec_item_table_rows(session) ==> #[trigger] spec_item_source_row(session, n).len() == 1,
    {
        let row_count = scaling_row_count(session_scaling(&session), Table::Item.values_index());
        ItemArrow { generator: item_generator(session, row_count), batch_size: DEFAULT_BATCH_SIZE }
    }

    /// Start generating at source row `starting_row_number` (1-based); the generator still ends
    /// at its last source row. When a skip yields exactly the rows asked for (see
    /// `spec_at_row_start`), the rows to come are those of source rows
    /// `starting_row_number..=end`.
    pub fn skip_rows_until_starting_row_number(&mut self, starting_row_number: u64)
        requires
            1 <= starting_row_number <= MAX_STARTING_ROW_NUMBER,
        ensures
            final(self).spec_batch_size() == old(self).spec_batch_size(),
            final(self).spec_session() == old(self).spec_session(),
            final(self).spec_end() == old(self).spec_end(),
            old(self).spec_at_row_start() ==> final(self).spec_pending() == spec_item_source_rows(
                old(self).spec_session(),
                starting_row_number as int,
                old(self).spec_end() as int,
            ),
            old(self).spec_at_row_start() ==> final(self).spec_at_row_start() && final(self).spec_steady(),
    {
        item_skip(&mut self.generator, starting_row_number);
    }

    /// Generate only source rows `starting_row_number..=ending_row_number` (1-based,
    /// inclusive). The ending row number is clamped to the table's row count.
    pub fn with_source_row_range(self, starting_row_number: u64, ending_row_number: u64) -> (reader: Self)
        requires
            1 <= starting_row_number <= MAX_STARTING_ROW_NUMBER,
        ensures
            reader.spec_batch_size() == self.spec_batch_size(),
            reader.spec_session() == self.spec_session(),
            reader.spec_end() == if ending_row_number < self.spec_end() {
                ending_row_number
            } else {
                self.spec_end()
            },
            self.spec_at_row_start() ==> reader.spec_pending() == spec_item_source_rows(
                self.spec_session(),
                starting_row_number as int,
                reader.spec_end() as int,
            ),
            self.spec_at_row_start() ==> reader.spec_at_row_start() && reader.spec_steady(),
    {
        let mut reader = self;
        item_set_range(&mut reader.generator, starting_row_number, ending_row_number);
        reader
    }

    /// Use batches of `batch_size` rows.
    pub fn with_batch_size(self, batch_size: usize) -> (reader: Self)
        ensures
            reader.spec_batch_size() == batch_size,
            reader.spec_pending() == self.spec_pending(),
            reader.spec_session() == self.spec_session(),
            reader.spec_end() == self.spec_end(),
            reader.spec_at_row_start() == self.spec_at_row_start(),
            reader.spec_steady() == self.spec_steady(),
    {
        let mut reader = self;
        reader.batch_size = batch_size;
        reader
    }

    /// The number of rows per batch.
    pub fn batch_size(&self) -> (n: usize)
        ensures
            n == self.spec_batch_size(),
    {
        self.batch_size
    }

    /// The schema of the batches.
    pub fn schema(&self) -> (schema: Vec<ColumnSpec>)
        ensures
            spec_schema_view(schema@) == spec_item_schema(),
    {
        item_schema()
    }

    /// The number of rows the next batch takes: the batch size, or all the rows still to come
    /// when fewer are left.
    pub open spec fn spec_next_count(&self) -> int {
        spec_batch_take(self.spec_pending().len(), self.spec_batch_size() as nat) as int
    }

    /// The next rows of the generator: a full batch of them, or all that are left once fewer
    /// remain. They are no longer to come afterwards.
    pub fn next_records(&mut self) -> (records: Vec<ItemRecord>)
        ensures
            spec_item_records_match(
                records@,
                old(self).spec_pending().take(old(self).spec_next_count()),
            ),
            final(self).spec_pending() == old(self).spec_pending().skip(
                old(self).spec_next_count(),
            ),
            final(self).spec_batch_size() == old(self).spec_batch_size(),
            final(self).spec_session() == old(self).spec_session(),
            final(self).spec_end() == old(self).spec_end(),
            old(self).spec_batch_size() == 0 ==> final(self).spec_at_row_start() == old(self).spec_at_row_start(),
            old(self).spec_steady() ==> final(self).spec_steady(),
            old(self).spec_steady() && old(self).spec_batch_size() > old(self).spec_pending().len()
                ==> final(self).spec_at_row_start(),
    {
        let batch_size = self.batch_size;
        let ghost pending = self.spec_pending();
        let ghost session = self.spec_session();
        let ghost end = self.spec_end();
        let ghost at_start = self.spec_at_row_start();
        let ghost steady = self.spec_steady();
        let mut records: Vec<ItemRecord> = Vec::new();
        while records.len() < batch_size
            invariant_except_break
                self.batch_size == batch_size,
                records.len() <= batch_size,
                records.len() <= pending.len(),
                self.spec_pending() == pending.skip(records.len() as int),
                spec_item_records_match(records@, pending.take(records.len() as int)),
                self.spec_session() == session,
                self.spec_end() == end,
                records.len() == 0 ==> self.spec_at_row_start() == at_start,
                steady ==> self.spec_steady(),
            ensures
                self.batch_size == batch_size,
                records.len() == (if batch_size <= pending.len() {
                    batch_size as int
                } else {
                    pending.len() as int
                }),
                self.spec_pending() == pending.skip(records.len() as int),
                spec_item_records_match(records@, pending.take(records.len() as int)),
                self.spec_session() == session,
                self.spec_end() == end,
                batch_size == 0 ==> self.spec_at_row_start() == at_start,
                steady ==> self.spec_steady(),
                steady && batch_size > pending.len() ==> self.spec_at_row_start(),
            decreases batch_size - records.len(),
        {
            let ghost done = records.len() as int;
            match item_next(&mut self.generator) {
                Some(row) => {
                    let record = item_record(&row);
                    records.push(record);
                    proof {
                        assert(pending.skip(done)[0] == pending[done]);
                        assert(pending.skip(done).drop_first() =~= pending.skip(done + 1));
                        assert forall|i: int| 0 <= i < records.len() implies #[trigger]
                            spec_item_record_matches(records@[i], pending.take(done + 1)[i]) by {
                            if i < done {
                                assert(pending.take(done)[i] == pending.take(done + 1)[i]);
                            }
                        }
                    }
                },
                None => {
                    break;
                },
            }
        }
        records
    }

    /// The next record batch, as its columns: the next rows of the generator, a full batch of
    /// them or all that are left once fewer remain; `None` when no row is left (or batches hold
    /// no rows). Called until it gives `None`, a reader hands out, in order, the batches
    /// `spec_batches` cuts its rows into (see `law_batches_concatenate` and
    /// `law_batch_count_and_sizes`).
    pub fn next_batch(&mut self) -> (batch: Option<Vec<Vec<Cell>>>)
        ensures
            batch is None <==> old(self).spec_next_count() == 0,
            batch matches Some(columns) ==> spec_columns_view(columns@) == spec_columns(
                spec_item_rows_of(old(self).spec_pending().take(old(self).spec_next_count())),
                ITEM_COLUMNS as nat,
            ),
            batch is Some ==> spec_batches(old(self).spec_pending(), old(self).spec_batch_size() as nat)
                == seq![old(self).spec_pending().take(old(self).spec_next_count())] + spec_batches(
                final(self).spec_pending(),
                old(self).spec_batch_size() as nat,
            ),
            final(self).spec_pending() == old(self).spec_pending().skip(
                old(self).spec_next_count(),
            ),
            final(self).spec_batch_size() == old(self).spec_batch_size(),
            final(self).spec_session() == old(self).spec_session(),
            final(self).spec_end() == old(self).spec_end(),
            old(self).spec_batch_size() == 0 ==> final(self).spec_at_row_start() == old(self).spec_at_row_start(),
            old(self).spec_steady() ==> final(self).spec_steady(),
            old(self).spec_steady() && old(self).spec_batch_size() > old(self).spec_pending().len()
                ==> final(self).spec_at_row_start(),
    {
        let ghost pending = self.spec_pending();
        let ghost rows = self.spec_pending().take(self.spec_next_count());
        let records = self.next_records();
        if records.len() == 0 {
            return None;
        }
        proof {
            lemma_item_matching_records_cells(records@, rows);
            lemma_batches_unfold(pending, self.batch_size as nat);
        }
        Some(item_columns(&records))
    }
}

} // verus!
