//! The eight TPC-H tables and the three output formats.

use vstd::prelude::*;
use vstd::string::StrSliceExecFns;
use vstd::string::StringExecFns;
use crate::text::str_eq;

verus! {

/// One of the eight TPC-H tables.
#[derive(Debug, Copy, Clone, PartialEq, Eq, Structural)]
pub enum Table {
    Nation,
    Region,
    Part,
    Supplier,
    Partsupp,
    Customer,
    Orders,
    Lineitem,
}

/// The output formats the generator can emit.
#[derive(Debug, Copy, Clone, PartialEq, Eq, Structural)]
pub enum OutputFormat {
    Tbl,
    Csv,
    Parquet,
}

/// The canonical name of a table, as a sequence of characters.
pub open spec fn spec_table_name(t: Table) -> Seq<char> {
    match t {
        Table::Nation => "nation"@,
        Table::Region => "region"@,
        Table::Part => "part"@,
        Table::Supplier => "supplier"@,
        Table::Partsupp => "partsupp"@,
        Table::Customer => "customer"@,
        Table::Orders => "orders"@,
        Table::Lineitem => "lineitem"@,
    }
}

/// The table named by a string, full name or single-letter alias.
/// Aliases are case-sensitive: `P` is part and `S` is partsupp, while
/// `s` is supplier and `c` is customer.
pub open spec fn spec_table_from_name(s: Seq<char>) -> Option<Table> {
    if s == "n"@ || s == "nation"@ {
        Some(Table::Nation)
    } else if s == "r"@ || s == "region"@ {
        Some(Table::Region)
    } else if s == "s"@ || s == "supplier"@ {
        Some(Table::Supplier)
    } else if s == "P"@ || s == "part"@ {
        Some(Table::Part)
    } else if s == "S"@ || s == "partsupp"@ {
        Some(Table::Partsupp)
    } else if s == "c"@ || s == "customer"@ {
        Some(Table::Customer)
    } else if s == "O"@ || s == "orders"@ {
        Some(Table::Orders)
    } else if s == "L"@ || s == "lineitem"@ {
        Some(Table::Lineitem)
    } else {
        None
    }
}

/// The file extension of an output format.
pub open spec fn spec_extension(f: OutputFormat) -> Seq<char> {
    match f {
        OutputFormat::Tbl => "tbl"@,
        OutputFormat::Csv => "csv"@,
        OutputFormat::Parquet => "parquet"@,
    }
}

impl Table {
    /// Nation and region are tiny and their generators are not partitioned:
    /// their plan is always a single part.
    pub open spec fn spec_is_atomic(self) -> bool {
        self is Nation || self is Region
    }

    /// Average row size in bytes in tbl format, measured on the first rows
    /// of each table; used to pick a part count for a target chunk size.
    pub open spec fn spec_avg_row_bytes(self) -> u64 {
        match self {
            Table::Nation => 88,
            Table::Region => 77,
            Table::Part => 115,
            Table::Supplier => 140,
            Table::Partsupp => 148,
            Table::Customer => 160,
            Table::Orders => 114,
            Table::Lineitem => 128,
        }
    }

    /// The canonical lower-case name of the table.
    pub fn name(&self) -> (r: &'static str)
        ensures
            r@ == spec_table_name(*self),
    {
        match self {
            Table::Nation => "nation",
            Table::Region => "region",
            Table::Part => "part",
            Table::Supplier => "supplier",
            Table::Partsupp => "partsupp",
            Table::Customer => "customer",
            Table::Orders => "orders",
            Table::Lineitem => "lineitem",
        }
    }

    /// Whether the table is generated as a single part regardless of
    /// partitioning flags.
    pub fn is_atomic(&self) -> (r: bool)
        ensures
            r == self.spec_is_atomic(),
    {
        match self {
            Table::Nation => true,
            Table::Region => true,
            _ => false,
        }
    }

    /// Average row size in bytes in tbl format.
    pub fn avg_row_bytes(&self) -> (r: u64)
        ensures
            r == self.spec_avg_row_bytes(),
    {
        match self {
            Table::Nation => 88,
            Table::Region => 77,
            Table::Part => 115,
            Table::Supplier => 140,
            Table::Partsupp => 148,
            Table::Customer => 160,
            Table::Orders => 114,
            Table::Lineitem => 128,
        }
    }

    /// Parses a table from its full name or single-letter alias.
    pub fn from_str(s: &str) -> (r: Result<Table, String>)
        ensures
            match r {
                Ok(t) => spec_table_from_name(s@) == Some(t),
                Err(m) => spec_table_from_name(s@) is None && m@ == "Invalid table name "@ + s@,
            },
    {
        if str_eq(s, "n") || str_eq(s, "nation") {
            Ok(Table::Nation)
        } else if str_eq(s, "r") || str_eq(s, "region") {
            Ok(Table::Region)
        } else if str_eq(s, "s") || str_eq(s, "supplier") {
            Ok(Table::Supplier)
        } else if str_eq(s, "P") || str_eq(s, "part") {
            Ok(Table::Part)
        } else if str_eq(s, "S") || str_eq(s, "partsupp") {
            Ok(Table::Partsupp)
        } else if str_eq(s, "c") || str_eq(s, "customer") {
            Ok(Table::Customer)
        } else if str_eq(s, "O") || str_eq(s, "orders") {
            Ok(Table::Orders)
        } else if str_eq(s, "L") || str_eq(s, "lineitem") {
            Ok(Table::Lineitem)
        } else {
            Err("Invalid table name ".to_owned().concat(s))
        }
    }
}

impl OutputFormat {
    /// The file extension used for this format.
    pub fn extension(&self) -> (r: &'static str)
        ensures
            r@ == spec_extension(*self),
    {
        match self {
            OutputFormat::Tbl => "tbl",
            OutputFormat::Csv => "csv",
            OutputFormat::Parquet => "parquet",
        }
    }
}

/// The output file name for a table in a format: `{table}.{extension}`.
pub fn output_filename(table: &Table, format: OutputFormat) -> (r: String)
    ensures
        r@ == spec_table_name(*table) + "."@ + spec_extension(format),
{
    let base = table.name().to_owned();
    let with_dot = base.concat(".");
    with_dot.concat(format.extension())
}

} // verus!
