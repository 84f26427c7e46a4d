//! Verified core of the TPC-DS Arrow generator: row group planning,
//! progress accounting and the column layout of generated record batches.
pub mod plan;
pub mod table;
pub mod tpcds;
pub mod progress;
pub mod column;
pub mod conversions;
pub mod address;
pub mod batching;
pub mod pricing;
pub mod tables;
