//! The generated TPC-DS tables with Arrow batch readers.
pub mod call_center;
pub mod catalog_sales;
pub mod item;
pub mod store_sales;
pub mod web_returns;
pub mod web_site;
