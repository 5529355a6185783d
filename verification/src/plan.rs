//! The generation plan: how a table at a given scale becomes a concrete
//! list of generator parts.
//!
//! A part is a logical partition of one output table, described by a pair
//! `(part_index, part_count)` with `1 <= part_index <= part_count`. The
//! external row generators produce each part independently, and appending
//! the outputs of parts `1..=part_count` reproduces the whole table. The
//! plan for one invocation is the total `part_count` together with the
//! ascending list of part indices this invocation must produce.

use vstd::prelude::*;
use vstd::string::StrSliceExecFns;
use vstd::string::StringExecFns;
use crate::tables::{OutputFormat, Table};
use crate::text::{spec_decimal, u64_to_string};

verus! {

/// Target uncompressed chunk size in bytes: parts are sized so that one
/// part's tbl output is about this large.
pub const TARGET_CHUNK_SIZE_BYTES: u64 = 15 * 1024 * 1024;

/// A Parquet file can hold at most this many row groups, and the plan
/// writes one row group per part.
pub const MAX_PARQUET_ROW_GROUPS: u64 = 32767;

/// Why a plan could not be built from the partitioning flags.
#[derive(Debug, Copy, Clone, PartialEq, Eq, Structural)]
pub enum PlanError {
    /// `--part` was given without `--parts`.
    PartRequiresParts,
    /// `--parts` was given without `--part`.
    PartCountRequiresPart,
    /// `--part` or `--parts` was zero.
    NotGreaterThanZero { got: u64 },
    /// `--part` exceeded `--parts`.
    PartTooLarge { parts: u64, got: u64 },
}

/// A list of generator parts to produce, all sharing one total part count.
#[derive(Debug)]
pub struct GenerationPlan {
    /// Total number of parts the table is divided into.
    pub part_count: u64,
    /// The part indices this invocation produces, in ascending order.
    pub part_list: Vec<u64>,
}

/// The ascending list of integers from `start` to `end`, both inclusive;
/// empty when `end < start`.
pub open spec fn spec_range_list(start: int, end: int) -> Seq<u64> {
    Seq::new(
        if end >= start {
            (end - start + 1) as nat
        } else {
            0
        },
        |i: int| (start + i) as u64,
    )
}

/// The row count the plan sizes chunks by. Nation and region count as one
/// row (they are planned as a single part anyway); lineitem averages four
/// rows per order, so its planning count is four times the row count of
/// the orders generator; every other table uses its own generator's count.
pub open spec fn spec_planning_rows(table: Table, generator_rows: u64) -> int {
    if table.spec_is_atomic() {
        1
    } else if table is Lineitem {
        4 * generator_rows
    } else {
        generator_rows as int
    }
}

/// The part count chosen when no partitioning flags are given: enough
/// parts for chunks of about `target_chunk_bytes` bytes, at least one,
/// and for Parquet at most [`MAX_PARQUET_ROW_GROUPS`]. The count is the
/// floor of estimated bytes over the target, plus one: the added one
/// guarantees at least one part, and the expected part counts at the
/// usual scale factors are pinned to this rounding.
pub open spec fn spec_auto_part_count(
    table: Table,
    format: OutputFormat,
    generator_rows: u64,
    target_chunk_bytes: u64,
) -> int {
    let n = spec_planning_rows(table, generator_rows) * table.spec_avg_row_bytes()
        / (target_chunk_bytes as int) + 1;
    if format is Parquet && n > MAX_PARQUET_ROW_GROUPS {
        MAX_PARQUET_ROW_GROUPS as int
    } else {
        n
    }
}

/// What [`GenerationPlan::new`] returns, as a mathematical value: either
/// the total part count and the part list, or the flag error.
///
/// The rules, in order: `--part` and `--parts` require each other, must
/// both be at least one, and `--part` may not exceed `--parts`; an atomic
/// table is a single part whatever the flags say; a partitioning flag pair
/// `(k, m)` is expanded by the thread count `t` into parts
/// `(k-1)*t+1 ..= k*t` of `m*t`, so that the slice of the table stays the
/// one the flags name while each thread gets its own part; without flags,
/// every part of the automatically chosen count is produced.
pub open spec fn spec_plan(
    table: Table,
    format: OutputFormat,
    generator_rows: u64,
    cli_part: Option<u64>,
    cli_part_count: Option<u64>,
    num_threads: usize,
    target_chunk_bytes: u64,
) -> Result<(int, Seq<u64>), PlanError> {
    if cli_part is Some || cli_part_count is Some {
        if cli_part is Some && cli_part_count is None {
            Err(PlanError::PartRequiresParts)
        } else if cli_part is None && cli_part_count is Some {
            Err(PlanError::PartCountRequiresPart)
        } else {
            let k = cli_part->0;
            let m = cli_part_count->0;
            if k < 1 {
                Err(PlanError::NotGreaterThanZero { got: k })
            } else if m < 1 {
                Err(PlanError::NotGreaterThanZero { got: m })
            } else if k > m {
                Err(PlanError::PartTooLarge { parts: m, got: k })
            } else if table.spec_is_atomic() {
                Ok((1, seq![1u64]))
            } else {
                let t = num_threads as int;
                Ok((m * t, spec_range_list((k - 1) * t + 1, k * t)))
            }
        }
    } else if table.spec_is_atomic() {
        Ok((1, seq![1u64]))
    } else {
        Ok(
            (
                spec_auto_part_count(table, format, generator_rows, target_chunk_bytes),
                spec_range_list(
                    1,
                    spec_auto_part_count(table, format, generator_rows, target_chunk_bytes),
                ),
            ),
        )
    }
}

/// Builds the vector `start..=end`.
fn range_vec(start: u64, end: u64) -> (r: Vec<u64>)
    requires
        1 <= start <= end,
    ensures
        r@ == spec_range_list(start as int, end as int),
{
    let mut v: Vec<u64> = Vec::new();
    let mut i: u64 = start;
    while i < end
        invariant
            start <= i <= end,
            v@ == spec_range_list(start as int, i - 1),
        decreases end - i,
    {
        v.push(i);
        proof {
            assert(v@ =~= spec_range_list(start as int, i as int));
        }
        i = i + 1;
    }
    v.push(end);
    proof {
        assert(v@ =~= spec_range_list(start as int, end as int));
    }
    v
}

impl GenerationPlan {
    /// A plan is well formed when its part list is non-empty, strictly
    /// ascending, and every entry lies in `1..=part_count`.
    pub open spec fn wf(self) -> bool {
        &&& self.part_list@.len() >= 1
        &&& forall|i: int|
            0 <= i < self.part_list@.len() ==> 1 <= #[trigger] self.part_list@[i]
                <= self.part_count
        &&& forall|i: int, j: int|
            0 <= i < j < self.part_list@.len() ==> self.part_list@[i] < self.part_list@[j]
    }

    /// Builds the plan for one table with the default target chunk size
    /// of [`TARGET_CHUNK_SIZE_BYTES`].
    ///
    /// `generator_rows` is the row count reported by the table's external
    /// generator for the whole table at the chosen scale factor; for
    /// lineitem it is the row count of the orders generator (see
    /// [`spec_planning_rows`]); for nation and region it is ignored.
    /// `cli_part` and `cli_part_count` carry the `--part` and `--parts`
    /// flags when set.
    pub fn new(
        table: &Table,
        format: OutputFormat,
        generator_rows: u64,
        cli_part: Option<u64>,
        cli_part_count: Option<u64>,
        num_threads: usize,
    ) -> (r: Result<GenerationPlan, PlanError>)
        requires
            num_threads >= 1,
            cli_part is None && cli_part_count is None ==> spec_planning_rows(
                *table,
                generator_rows,
            ) * table.spec_avg_row_bytes() < u64::MAX,
            cli_part matches Some(k) ==> cli_part_count matches Some(m) ==> 1 <= k <= m
                && !table.spec_is_atomic() ==> m * num_threads <= u64::MAX,
        ensures
            match r {
                Ok(plan) => {
                    &&& spec_plan(
                        *table,
                        format,
                        generator_rows,
                        cli_part,
                        cli_part_count,
                        num_threads,
                        TARGET_CHUNK_SIZE_BYTES,
                    ) matches Ok(model)
                    &&& plan.part_count as int == model.0
                    &&& plan.part_list@ == model.1
                    &&& plan.wf()
                },
                Err(e) => spec_plan(
                    *table,
                    format,
                    generator_rows,
                    cli_part,
                    cli_part_count,
                    num_threads,
                    TARGET_CHUNK_SIZE_BYTES,
                ) == Err::<(int, Seq<u64>), PlanError>(e),
            },
    {
        Self::new_with_target(
            table,
            format,
            generator_rows,
            cli_part,
            cli_part_count,
            num_threads,
            TARGET_CHUNK_SIZE_BYTES,
        )
    }

    /// Builds the plan for one table, sizing the automatically chosen
    /// parts by `target_chunk_bytes` bytes of uncompressed output each.
    pub fn new_with_target(
        table: &Table,
        format: OutputFormat,
        generator_rows: u64,
        cli_part: Option<u64>,
        cli_part_count: Option<u64>,
        num_threads: usize,
        target_chunk_bytes: u64,
    ) -> (r: Result<GenerationPlan, PlanError>)
        requires
            num_threads >= 1,
            target_chunk_bytes >= 1,
            cli_part is None && cli_part_count is None ==> spec_planning_rows(
                *table,
                generator_rows,
            ) * table.spec_avg_row_bytes() < u64::MAX,
            cli_part matches Some(k) ==> cli_part_count matches Some(m) ==> 1 <= k <= m
                && !table.spec_is_atomic() ==> m * num_threads <= u64::MAX,
        ensures
            match r {
                Ok(plan) => {
                    &&& spec_plan(
                        *table,
                        format,
                        generator_rows,
                        cli_part,
                        cli_part_count,
                        num_threads,
                        target_chunk_bytes,
                    ) matches Ok(model)
                    &&& plan.part_count as int == model.0
                    &&& plan.part_list@ == model.1
                    &&& plan.wf()
                },
                Err(e) => spec_plan(
                    *table,
                    format,
                    generator_rows,
                    cli_part,
                    cli_part_count,
                    num_threads,
                    target_chunk_bytes,
                ) == Err::<(int, Seq<u64>), PlanError>(e),
            },
    {
        if cli_part.is_some() || cli_part_count.is_some() {
            if cli_part.is_some() && cli_part_count.is_none() {
                return Err(PlanError::PartRequiresParts);
            }
            if cli_part.is_none() && cli_part_count.is_some() {
                return Err(PlanError::PartCountRequiresPart);
            }
            let k = cli_part.unwrap();
            let m = cli_part_count.unwrap();
            if k < 1 {
                return Err(PlanError::NotGreaterThanZero { got: k });
            }
            if m < 1 {
                return Err(PlanError::NotGreaterThanZero { got: m });
            }
            if k > m {
                return Err(PlanError::PartTooLarge { parts: m, got: k });
            }
            if table.is_atomic() {
                return Ok(Self::single_part());
            }
            let num_chunks = num_threads as u64;
            proof {
                assert((k - 1) * num_chunks + 1 <= m * num_chunks && k * num_chunks <= m
                    * num_chunks && (k - 1) * num_chunks + 1 <= k * num_chunks)
                    by (nonlinear_arith)
                    requires
                        1 <= k <= m,
                        num_chunks >= 1,
                ;
            }
            let new_total_parts = m * num_chunks;
            let start_part = (k - 1) * num_chunks + 1;
            let end_part = k * num_chunks;
            let part_list = range_vec(start_part, end_part);
            return Ok(GenerationPlan { part_count: new_total_parts, part_list });
        }
        if table.is_atomic() {
            return Ok(Self::single_part());
        }
        proof {
            assert(spec_planning_rows(*table, generator_rows) <= spec_planning_rows(
                *table,
                generator_rows,
            ) * table.spec_avg_row_bytes()) by (nonlinear_arith)
                requires
                    spec_planning_rows(*table, generator_rows) >= 0,
                    table.spec_avg_row_bytes() >= 1,
            ;
        }
        let rows: u64 = if *table == Table::Lineitem {
            4 * generator_rows
        } else {
            generator_rows
        };
        let bytes: u64 = rows * table.avg_row_bytes();
        proof {
            assert(bytes as int / (target_chunk_bytes as int) <= bytes as int)
                by (nonlinear_arith)
                requires
                    bytes >= 0,
                    target_chunk_bytes >= 1,
            ;
        }
        let mut num_parts: u64 = bytes / target_chunk_bytes + 1;
        if format == OutputFormat::Parquet && num_parts > MAX_PARQUET_ROW_GROUPS {
            num_parts = MAX_PARQUET_ROW_GROUPS;
        }
        let part_list = range_vec(1, num_parts);
        Ok(GenerationPlan { part_count: num_parts, part_list })
    }

    /// The plan of an atomic table: one part of one.
    fn single_part() -> (r: GenerationPlan)
        ensures
            r.part_count == 1,
            r.part_list@ == seq![1u64],
            r.wf(),
    {
        let mut part_list: Vec<u64> = Vec::new();
        part_list.push(1);
        proof {
            assert(part_list@ =~= seq![1u64]);
        }
        GenerationPlan { part_count: 1, part_list }
    }

    /// The parts to generate, each paired with the total part count, in
    /// the order the outputs must be concatenated.
    pub fn part_pairs(&self) -> (r: Vec<(u64, u64)>)
        ensures
            r@.len() == self.part_list@.len(),
            forall|i: int|
                0 <= i < r@.len() ==> #[trigger] r@[i] == (self.part_list@[i], self.part_count),
    {
        let mut v: Vec<(u64, u64)> = Vec::new();
        let mut i: usize = 0;
        while i < self.part_list.len()
            invariant
                i <= self.part_list@.len(),
                v@.len() == i,
                forall|j: int|
                    0 <= j < i ==> #[trigger] v@[j] == (self.part_list@[j], self.part_count),
            decreases self.part_list@.len() - i,
        {
            v.push((self.part_list[i], self.part_count));
            i = i + 1;
        }
        v
    }

    /// A one-line description of the plan.
    pub fn describe(&self) -> (r: String)
        ensures
            r@ == "GenerationPlan for "@ + spec_decimal(self.part_count as int) + " parts"@,
    {
        let count = u64_to_string(self.part_count);
        "GenerationPlan for ".to_owned().concat(count.as_str()).concat(" parts")
    }
}

/// Plan coverage: without partitioning flags a plan is always built, has
/// at least one part, and produces every part index from one up to its
/// part count.
pub proof fn lemma_plan_coverage(
    table: Table,
    format: OutputFormat,
    generator_rows: u64,
    num_threads: usize,
    target_chunk_bytes: u64,
)
    requires
        target_chunk_bytes >= 1,
    ensures
        spec_plan(table, format, generator_rows, None, None, num_threads, target_chunk_bytes)
            matches Ok(model) && model.0 >= 1 && model.1 == spec_range_list(1, model.0),
{
    if table.spec_is_atomic() {
        assert(seq![1u64] =~= spec_range_list(1, 1));
    } else {
        let rows = spec_planning_rows(table, generator_rows);
        let avg = table.spec_avg_row_bytes() as int;
        assert(rows * avg >= 0) by (nonlinear_arith)
            requires
                rows >= 0,
                avg >= 0,
        ;
        assert(rows * avg / (target_chunk_bytes as int) >= 0);
    }
}

/// Plan atomicity: a plan built for nation or region is one part of one,
/// whatever the partitioning flags and thread count were.
pub proof fn lemma_plan_atomicity(
    table: Table,
    format: OutputFormat,
    generator_rows: u64,
    cli_part: Option<u64>,
    cli_part_count: Option<u64>,
    num_threads: usize,
    target_chunk_bytes: u64,
)
    requires
        table.spec_is_atomic(),
    ensures
        spec_plan(
            table,
            format,
            generator_rows,
            cli_part,
            cli_part_count,
            num_threads,
            target_chunk_bytes,
        ) matches Ok(model) ==> model == (1int, seq![1u64]),
{
}

/// Parquet row-group cap: a plan built for the Parquet format without
/// partitioning flags never exceeds the row-group limit. A flag pair
/// `(k, m)` is expanded by the thread count and is not capped, so a large
/// enough `m` exceeds the limit; hence this law fixes the flags to none.
pub proof fn lemma_parquet_row_group_cap(
    table: Table,
    generator_rows: u64,
    num_threads: usize,
    target_chunk_bytes: u64,
)
    ensures
        spec_plan(
            table,
            OutputFormat::Parquet,
            generator_rows,
            None,
            None,
            num_threads,
            target_chunk_bytes,
        ) matches Ok(model) && model.0 <= MAX_PARQUET_ROW_GROUPS,
{
}

/// Partition expansion: a valid flag pair `(k, m)` on a non-atomic table
/// yields `m * num_threads` total parts, of which this invocation produces
/// exactly the `num_threads` consecutive parts starting at
/// `(k - 1) * num_threads + 1`.
pub proof fn lemma_cli_partition_expansion(
    table: Table,
    format: OutputFormat,
    generator_rows: u64,
    k: u64,
    m: u64,
    num_threads: usize,
    target_chunk_bytes: u64,
)
    requires
        !table.spec_is_atomic(),
        1 <= k <= m,
    ensures
        spec_plan(table, format, generator_rows, Some(k), Some(m), num_threads, target_chunk_bytes)
            matches Ok(model) && model.0 == m * num_threads && model.1 == spec_range_list(
            (k - 1) * num_threads + 1,
            k * num_threads,
        ),
{
}

impl PlanError {
    /// The message reported for this error.
    pub open spec fn spec_message(self) -> Seq<char> {
        match self {
            PlanError::PartRequiresParts => "The --part option requires the --parts option to be set"@,
            PlanError::PartCountRequiresPart => "The --part_count option requires the --part option to be set"@,
            PlanError::NotGreaterThanZero { got } => "Invalid --part. Expected a number greater than zero, got "@
                + spec_decimal(got as int),
            PlanError::PartTooLarge { parts, got } => "Invalid --part. Expected at most the value of --parts ("@
                + spec_decimal(parts as int) + "), got "@ + spec_decimal(got as int),
        }
    }

    /// Renders the message reported for this error.
    pub fn message(&self) -> (r: String)
        ensures
            r@ == self.spec_message(),
    {
        match self {
            PlanError::PartRequiresParts => {
                "The --part option requires the --parts option to be set".to_owned()
            },
            PlanError::PartCountRequiresPart => {
                "The --part_count option requires the --part option to be set".to_owned()
            },
            PlanError::NotGreaterThanZero { got } => {
                let n = u64_to_string(*got);
                "Invalid --part. Expected a number greater than zero, got ".to_owned().concat(
                    n.as_str(),
                )
            },
            PlanError::PartTooLarge { parts, got } => {
                let p = u64_to_string(*parts);
                let g = u64_to_string(*got);
                "Invalid --part. Expected at most the value of --parts (".to_owned().concat(
                    p.as_str(),
                ).concat("), got ").concat(g.as_str())
            },
        }
    }
}

} // verus!
