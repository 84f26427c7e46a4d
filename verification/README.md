# tpcdsgen_arrow

A verified core for generating TPC-DS tables as Arrow record batches and
Parquet row groups, on top of the `tpcdsgen` row generators.

- `src/` is the library, verified with Verus:
  - `plan` cuts a table's source rows into contiguous ranges, one per
    Parquet row group, and proves that the ranges cover the table, stay
    within Parquet's row group limit and are balanced;
  - `progress` computes the progress totals a chunk registers for a table,
    pairing sales tables with their returns tables;
  - `column`, `conversions`, `address`, `pricing` and `tables/*` turn
    generated rows into typed cells and columns, with each table's schema,
    and prove that rows conform to their schema; each table's reader hands
    out, batch by batch, exactly the rows its generator has still to yield,
    and the rows of contiguous source row ranges concatenate to those of
    the whole range;
  - `batching` describes how a reader cuts its rows into batches and
    proves that the batch size changes only the split;
  - `table` and `tpcds` hold the table list and the calls into `tpcdsgen`.
- `app/` turns the library's columns into Arrow arrays and implements
  Arrow's `RecordBatchReader` for each table.
- `tests/` exercise the library, including against `tpcdsgen`'s own output.
