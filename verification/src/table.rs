//! The TPC-DS tables, as plain values the library can reason about.
use vstd::prelude::*;

verus! {

/// The TPC-DS tables (the 24 benchmark tables and `dbgen_version`).
///
/// This mirrors `tpcdsgen::config::Table` variant for variant; the library
/// keeps its own copy so that verified code can match on it.
#[derive(Clone, Copy, Debug, PartialEq, Eq, Structural)]
pub enum Table {
    CallCenter,
    CatalogPage,
    CatalogReturns,
    CatalogSales,
    Warehouse,
    ShipMode,
    Reason,
    IncomeBand,
    HouseholdDemographics,
    CustomerDemographics,
    CustomerAddress,
    Customer,
    DateDim,
    TimeDim,
    Item,
    Promotion,
    Store,
    StoreReturns,
    StoreSales,
    WebPage,
    WebReturns,
    WebSales,
    WebSite,
    DbgenVersion,
    Inventory,
}

/// True of the three returns tables, which are generated from the source
/// rows of their paired sales table.
pub open spec fn spec_is_returns(table: Table) -> bool {
    table == Table::StoreReturns || table == Table::CatalogReturns || table == Table::WebReturns
}

/// True of the three sales tables.
pub open spec fn spec_is_sales(table: Table) -> bool {
    table == Table::StoreSales || table == Table::CatalogSales || table == Table::WebSales
}

/// The table whose source rows drive the generation of `table`: the paired
/// sales table for a returns table, the table itself otherwise.
pub open spec fn spec_source_table(table: Table) -> Table {
    match table {
        Table::StoreReturns => Table::StoreSales,
        Table::CatalogReturns => Table::CatalogSales,
        Table::WebReturns => Table::WebSales,
        _ => table,
    }
}

/// The returns table paired with a sales table (the table itself otherwise).
pub open spec fn spec_returns_table(table: Table) -> Table {
    match table {
        Table::StoreSales => Table::StoreReturns,
        Table::CatalogSales => Table::CatalogReturns,
        Table::WebSales => Table::WebReturns,
        _ => table,
    }
}

/// Position of each table in `tpcdsgen::config::Table::values()`.
pub open spec fn spec_values_index(table: Table) -> nat {
    match table {
        Table::CallCenter => 0,
        Table::CatalogPage => 1,
        Table::CatalogReturns => 2,
        Table::CatalogSales => 3,
        Table::Customer => 4,
        Table::CustomerAddress => 5,
        Table::CustomerDemographics => 6,
        Table::DateDim => 7,
        Table::HouseholdDemographics => 8,
        Table::IncomeBand => 9,
        Table::Inventory => 10,
        Table::Item => 11,
        Table::Promotion => 12,
        Table::Reason => 13,
        Table::ShipMode => 14,
        Table::Store => 15,
        Table::StoreReturns => 16,
        Table::StoreSales => 17,
        Table::TimeDim => 18,
        Table::Warehouse => 19,
        Table::WebPage => 20,
        Table::WebReturns => 21,
        Table::WebSales => 22,
        Table::WebSite => 23,
        Table::DbgenVersion => 24,
    }
}

impl Table {
    /// The table whose source rows drive this table's generation: returns
    /// tables are generated by replaying their sales table's source rows.
    pub fn source_table(self) -> (t: Table)
        ensures
            t == spec_source_table(self),
    {
        match self {
            Table::StoreReturns => Table::StoreSales,
            Table::CatalogReturns => Table::CatalogSales,
            Table::WebReturns => Table::WebSales,
            _ => self,
        }
    }

    /// The index of this table in `tpcdsgen::config::Table::values()`.
    pub fn values_index(self) -> (i: usize)
        ensures
            i == spec_values_index(self),
            i < 25,
    {
        match self {
            Table::CallCenter => 0,
            Table::CatalogPage => 1,
            Table::CatalogReturns => 2,
            Table::CatalogSales => 3,
            Table::Customer => 4,
            Table::CustomerAddress => 5,
            Table::CustomerDemographics => 6,
            Table::DateDim => 7,
            Table::HouseholdDemographics => 8,
            Table::IncomeBand => 9,
            Table::Inventory => 10,
            Table::Item => 11,
            Table::Promotion => 12,
            Table::Reason => 13,
            Table::ShipMode => 14,
            Table::Store => 15,
            Table::StoreReturns => 16,
            Table::StoreSales => 17,
            Table::TimeDim => 18,
            Table::Warehouse => 19,
            Table::WebPage => 20,
            Table::WebReturns => 21,
            Table::WebSales => 22,
            Table::WebSite => 23,
            Table::DbgenVersion => 24,
        }
    }
}

} // verus!
