//! Planning core of a TPC-H dataset generator.
//!
//! The generator emits the eight TPC-H tables at a chosen scale factor, in
//! one of three output formats. This library holds the verified parts: the
//! table and format enumerations, the generation plan that splits a table
//! into independently generated parts, and the write statistics kept by the
//! output sinks. Row contents, file I/O and the worker pool live outside.

pub mod plan;
pub mod stats;
pub mod tables;
pub mod text;
