//! Joining a captured stack trace against the module summary: per-line
//! outcomes, a running total, and deduplicated failure diagnostics.

use vstd::prelude::*;
use crate::error::FrameError;
use crate::names::NameTable;
use crate::prologue::{lemma_take_all, lemma_take_succ};
use crate::resolver::FunctionIndexSpace;

verus! {

/// The outcome of one stack-trace line.
#[derive(Clone, Copy, Debug, PartialEq, Eq, Structural)]
pub enum LineOutcome {
    /// The name resolved to a defined function with a known frame size.
    Resolved { global_index: usize, size: usize },
    /// The name table has no entry for the line.
    NameNotFound,
    /// The name maps to an imported function, which has no body.
    NotLocallyDefined,
    /// The name metadata references a function index with no code entry.
    DanglingNameReference,
    /// The function's body was found but its frame size could not be
    /// determined.
    EstimateFailed { error: FrameError },
}

/// One stack-trace line's report: its outcome, and whether it is the first
/// line of that exact text to fail (later identical failures are not
/// reported again).
pub struct LineReport {
    /// The classified outcome of the line.
    pub outcome: LineOutcome,
    /// Whether a diagnostic should be emitted for this line.
    pub first_failure: bool,
}

/// The result of aggregating a whole stack trace.
pub struct AggregateReport {
    /// One report per input line, in input order.
    pub reports: Vec<LineReport>,
    /// The sum of the frame sizes of all resolved lines.
    pub total: u128,
    /// The distinct texts of failed lines, in order of first failure.
    pub failed_lines: Vec<String>,
}

/// The views of a list of lines.
pub open spec fn line_views(lines: Seq<String>) -> Seq<Seq<char>> {
    lines.map_values(|s: String| s@)
}

/// What one stack-trace line resolves to, given the name table, the cached
/// per-body frame sizes (by code-local index) and the import base.
pub open spec fn spec_outcome(
    line: Seq<char>,
    names: NameTable,
    sizes: Seq<Result<usize, FrameError>>,
    base: usize,
) -> LineOutcome {
    match names.spec_lookup(line) {
        None => LineOutcome::NameNotFound,
        Some(g) => if g < base {
            LineOutcome::NotLocallyDefined
        } else if g - base >= sizes.len() {
            LineOutcome::DanglingNameReference
        } else {
            match sizes[g - base] {
                Ok(s) => LineOutcome::Resolved { global_index: g, size: s },
                Err(e) => LineOutcome::EstimateFailed { error: e },
            }
        },
    }
}

/// A line contributes its size only when it resolved.
pub open spec fn outcome_size(o: LineOutcome) -> nat {
    match o {
        LineOutcome::Resolved { size, .. } => size as nat,
        _ => 0,
    }
}

/// Every outcome but a resolved one is a failure.
pub open spec fn is_failure(o: LineOutcome) -> bool {
    !(o is Resolved)
}

/// The total of the resolved sizes of `lines`; failed lines contribute 0.
pub open spec fn spec_total(
    lines: Seq<Seq<char>>,
    names: NameTable,
    sizes: Seq<Result<usize, FrameError>>,
    base: usize,
) -> nat
    decreases lines.len(),
{
    if lines.len() == 0 {
        0
    } else {
        spec_total(lines.drop_last(), names, sizes, base) + outcome_size(
            spec_outcome(lines.last(), names, sizes, base),
        )
    }
}

/// The distinct texts of failed lines, in order of first failure.
pub open spec fn spec_failure_log(
    lines: Seq<Seq<char>>,
    names: NameTable,
    sizes: Seq<Result<usize, FrameError>>,
    base: usize,
) -> Seq<Seq<char>>
    decreases lines.len(),
{
    if lines.len() == 0 {
        Seq::empty()
    } else {
        let prior = spec_failure_log(lines.drop_last(), names, sizes, base);
        if is_failure(spec_outcome(lines.last(), names, sizes, base)) && !prior.contains(
            lines.last(),
        ) {
            prior.push(lines.last())
        } else {
            prior
        }
    }
}

/// The total is bounded by one maximal size per line.
proof fn lemma_total_linear(
    lines: Seq<Seq<char>>,
    names: NameTable,
    sizes: Seq<Result<usize, FrameError>>,
    base: usize,
)
    ensures
        spec_total(lines, names, sizes, base) <= lines.len() * (usize::MAX as nat),
    decreases lines.len(),
{
    if lines.len() > 0 {
        lemma_total_linear(lines.drop_last(), names, sizes, base);
        let l = lines.len() as int;
        let m = usize::MAX as int;
        assert((l - 1) * m + m == l * m) by (nonlinear_arith);
    }
}

/// The total of any trace a machine can hold fits the accumulator with room
/// for one more line.
pub proof fn lemma_total_fits(
    lines: Seq<Seq<char>>,
    names: NameTable,
    sizes: Seq<Result<usize, FrameError>>,
    base: usize,
)
    requires
        lines.len() <= usize::MAX,
    ensures
        spec_total(lines, names, sizes, base) + (usize::MAX as nat) < u128::MAX,
{
    lemma_total_linear(lines, names, sizes, base);
    let l = lines.len() as int;
    let m = usize::MAX as int;
    assert(l * m <= m * m) by (nonlinear_arith)
        requires
            0 <= l <= m,
    ;
    assert(m * m <= 0xffff_ffff_ffff_ffff * 0xffff_ffff_ffff_ffff) by (nonlinear_arith)
        requires
            0 <= m <= 0xffff_ffff_ffff_ffff,
    ;
}

/// Whether some line of `haystack` has the same text as `needle`.
fn contains_line(haystack: &Vec<String>, needle: &String) -> (r: bool)
    ensures
        r == line_views(haystack@).contains(needle@),
{
    let n = haystack.len();
    let mut j: usize = 0;
    while j < n
        invariant
            n == haystack@.len(),
            0 <= j <= n,
            forall|jj: int| 0 <= jj < j ==> #[trigger] haystack@[jj]@ != needle@,
        decreases n - j,
    {
        if haystack[j] == *needle {
            assert(line_views(haystack@)[j as int] == needle@);
            return true;
        }
        j = j + 1;
    }
    assert forall|jj: int| 0 <= jj < line_views(haystack@).len() implies line_views(
        haystack@,
    )[jj] != needle@ by {
        assert(line_views(haystack@)[jj] == haystack@[jj]@);
    }
    false
}

/// Joins the stack trace `lines` against the name table, the cached frame
/// sizes and the function index space.
///
/// Processing is fail-soft: every line gets a classified outcome, failures
/// contribute nothing to the total and never abort the run, and a failure
/// diagnostic is owed only to the first line of each distinct failing text.
pub fn aggregate_stack_trace(
    lines: &Vec<String>,
    names: &NameTable,
    sizes: &Vec<Result<usize, FrameError>>,
    space: &FunctionIndexSpace,
) -> (r: AggregateReport)
    ensures
        r.reports@.len() == lines@.len(),
        forall|i: int|
            0 <= i < lines@.len() ==> (#[trigger] r.reports@[i]).outcome == spec_outcome(
                lines@[i]@,
                *names,
                sizes@,
                space.base,
            ),
        forall|i: int|
            0 <= i < lines@.len() ==> (#[trigger] r.reports@[i]).first_failure == (is_failure(
                spec_outcome(lines@[i]@, *names, sizes@, space.base),
            ) && !spec_failure_log(
                line_views(lines@).take(i),
                *names,
                sizes@,
                space.base,
            ).contains(lines@[i]@)),
        r.total == spec_total(line_views(lines@), *names, sizes@, space.base),
        line_views(r.failed_lines@) == spec_failure_log(
            line_views(lines@),
            *names,
            sizes@,
            space.base,
        ),
{
    let ghost lv = line_views(lines@);
    let n = lines.len();
    let mut reports: Vec<LineReport> = Vec::new();
    let mut total: u128 = 0;
    let mut failed_lines: Vec<String> = Vec::new();
    let mut i: usize = 0;
    while i < n
        invariant
            n == lines@.len(),
            lv == line_views(lines@),
            0 <= i <= n,
            reports@.len() == i,
            forall|k: int|
                0 <= k < i ==> (#[trigger] reports@[k]).outcome == spec_outcome(
                    lines@[k]@,
                    *names,
                    sizes@,
                    space.base,
                ),
            forall|k: int|
                0 <= k < i ==> (#[trigger] reports@[k]).first_failure == (is_failure(
                    spec_outcome(lines@[k]@, *names, sizes@, space.base),
                ) && !spec_failure_log(lv.take(k), *names, sizes@, space.base).contains(
                    lines@[k]@,
                )),
            total == spec_total(lv.take(i as int), *names, sizes@, space.base),
            line_views(failed_lines@) == spec_failure_log(
                lv.take(i as int),
                *names,
                sizes@,
                space.base,
            ),
        decreases n - i,
    {
        proof {
            lemma_take_succ(lv, i as int);
            assert(lv[i as int] == lines@[i as int]@);
        }
        let line = &lines[i];
        let outcome: LineOutcome = match names.get(line) {
            None => LineOutcome::NameNotFound,
            Some(g) => {
                match space.to_code_local(g) {
                    Err(_) => LineOutcome::NotLocallyDefined,
                    Ok(local) => {
                        if local >= sizes.len() {
                            LineOutcome::DanglingNameReference
                        } else {
                            match sizes[local] {
                                Ok(s) => LineOutcome::Resolved { global_index: g, size: s },
                                Err(e) => LineOutcome::EstimateFailed { error: e },
                            }
                        }
                    },
                }
            },
        };
        proof {
            assert(outcome == spec_outcome(lv[i as int], *names, sizes@, space.base));
        }
        let mut first_failure = false;
        match outcome {
            LineOutcome::Resolved { global_index: _, size } => {
                proof {
                    lemma_total_fits(lv.take(i + 1), *names, sizes@, space.base);
                }
                total = total + (size as u128);
            },
            _ => {
                if !contains_line(&failed_lines, line) {
                    first_failure = true;
                    failed_lines.push(line.clone());
                    proof {
                        assert(line_views(failed_lines@) =~= spec_failure_log(
                            lv.take(i as int),
                            *names,
                            sizes@,
                            space.base,
                        ).push(lv[i as int]));
                    }
                }
            },
        }
        reports.push(LineReport { outcome, first_failure });
        i = i + 1;
    }
    proof {
        lemma_take_all(lv);
    }
    AggregateReport { reports, total, failed_lines }
}

} // verus!
