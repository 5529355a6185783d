//! Tests for table names, parsing, file names and write statistics.

use tpchgen_cli::stats::{WriteStatistics, WriterSink};
use tpchgen_cli::tables::{output_filename, OutputFormat, Table};
use tpchgen_cli::text::u64_to_string;

#[test]
fn table_names() {
    assert_eq!(Table::Nation.name(), "nation");
    assert_eq!(Table::Region.name(), "region");
    assert_eq!(Table::Part.name(), "part");
    assert_eq!(Table::Supplier.name(), "supplier");
    assert_eq!(Table::Partsupp.name(), "partsupp");
    assert_eq!(Table::Customer.name(), "customer");
    assert_eq!(Table::Orders.name(), "orders");
    assert_eq!(Table::Lineitem.name(), "lineitem");
}

#[test]
fn table_from_full_names() {
    assert_eq!(Table::from_str("nation"), Ok(Table::Nation));
    assert_eq!(Table::from_str("region"), Ok(Table::Region));
    assert_eq!(Table::from_str("part"), Ok(Table::Part));
    assert_eq!(Table::from_str("supplier"), Ok(Table::Supplier));
    assert_eq!(Table::from_str("partsupp"), Ok(Table::Partsupp));
    assert_eq!(Table::from_str("customer"), Ok(Table::Customer));
    assert_eq!(Table::from_str("orders"), Ok(Table::Orders));
    assert_eq!(Table::from_str("lineitem"), Ok(Table::Lineitem));
}

#[test]
fn table_from_aliases() {
    // aliases are case-sensitive: P is part, S is partsupp,
    // while s is supplier and c is customer
    assert_eq!(Table::from_str("n"), Ok(Table::Nation));
    assert_eq!(Table::from_str("r"), Ok(Table::Region));
    assert_eq!(Table::from_str("s"), Ok(Table::Supplier));
    assert_eq!(Table::from_str("P"), Ok(Table::Part));
    assert_eq!(Table::from_str("S"), Ok(Table::Partsupp));
    assert_eq!(Table::from_str("c"), Ok(Table::Customer));
    assert_eq!(Table::from_str("O"), Ok(Table::Orders));
    assert_eq!(Table::from_str("L"), Ok(Table::Lineitem));
}

#[test]
fn unknown_table_name_is_rejected() {
    assert_eq!(Table::from_str("p").unwrap_err(), "Invalid table name p");
    assert_eq!(Table::from_str("o").unwrap_err(), "Invalid table name o");
    assert_eq!(Table::from_str("").unwrap_err(), "Invalid table name ");
    assert_eq!(Table::from_str("Nation").unwrap_err(), "Invalid table name Nation");
    assert_eq!(Table::from_str("nations").unwrap_err(), "Invalid table name nations");
}

#[test]
fn extensions() {
    assert_eq!(OutputFormat::Tbl.extension(), "tbl");
    assert_eq!(OutputFormat::Csv.extension(), "csv");
    assert_eq!(OutputFormat::Parquet.extension(), "parquet");
}

#[test]
fn output_filenames() {
    assert_eq!(output_filename(&Table::Nation, OutputFormat::Tbl), "nation.tbl");
    assert_eq!(output_filename(&Table::Orders, OutputFormat::Csv), "orders.csv");
    assert_eq!(output_filename(&Table::Lineitem, OutputFormat::Parquet), "lineitem.parquet");
}

#[test]
fn decimal_rendering() {
    assert_eq!(u64_to_string(0), "0");
    assert_eq!(u64_to_string(7), "7");
    assert_eq!(u64_to_string(10), "10");
    assert_eq!(u64_to_string(32767), "32767");
    assert_eq!(u64_to_string(u64::MAX), "18446744073709551615");
}

#[test]
fn statistics_count_chunks_and_bytes() {
    let mut stats = WriteStatistics::new();
    assert_eq!(stats.chunks, 0);
    assert_eq!(stats.bytes, 0);
    stats.increment_chunks(1);
    stats.increment_bytes(100);
    stats.increment_chunks(2);
    stats.increment_bytes(50);
    assert_eq!(stats.chunks, 3);
    assert_eq!(stats.bytes, 150);
}

#[test]
fn statistics_saturate_instead_of_wrapping() {
    let mut stats = WriteStatistics::new();
    stats.increment_bytes(u64::MAX - 1);
    stats.increment_bytes(10);
    assert_eq!(stats.bytes, u64::MAX);
}

#[test]
fn writer_sink_records_buffers() {
    let buffers: Vec<Vec<u8>> = vec![vec![0u8; 16], vec![0u8; 8]];
    let mut sink = WriterSink::new(Vec::<u8>::new());
    for buffer in &buffers {
        sink.inner.extend_from_slice(buffer);
        sink.record(buffer.len() as u64);
    }
    assert_eq!(sink.statistics.chunks, 2);
    assert_eq!(sink.statistics.bytes, 24);
    assert_eq!(sink.inner.len(), 24);
}
