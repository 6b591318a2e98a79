use vstd::prelude::*;

use crate::fib::{fib, lemma_fib_monotonic, lemma_fib_i64_range};

verus! {

/// Summary statistics of a generated sequence.  The mean and the golden-ratio
/// comparison are floating-point presentation concerns and are derived by the
/// caller from `sum` and `term_count`.
#[derive(Debug, PartialEq, Eq, Clone, Copy)]
pub struct Stats {
    /// How many terms the sequence holds.
    pub term_count: usize,
    /// The exact sum of all terms.  A 128-bit integer: the sum of the first
    /// 92 terms does not fit in an `i64`.
    pub sum: i128,
    /// The last and the second-to-last term, in that order, when the sequence
    /// has at least two terms.
    pub last_two: Option<(i64, i64)>,
}

/// Everything a fixed-count generation produces: the terms, the column
/// layout when one was asked for, and the statistics when they were.
#[derive(Debug, PartialEq, Eq, Clone)]
pub struct CountOutput {
    /// The generated terms, in order.
    pub terms: Vec<i64>,
    /// `terms` split into rows of ten for column display, present exactly
    /// when column mode was requested.
    pub rows: Option<Vec<Vec<i64>>>,
    /// Present exactly when statistics were requested.
    pub stats: Option<Stats>,
}

/// The sum of a sequence of machine integers, as a mathematical integer.
pub open spec fn seq_sum(s: Seq<i64>) -> int
    decreases s.len(),
{
    if s.len() == 0 {
        0
    } else {
        seq_sum(s.drop_last()) + s.last()
    }
}

/// `s` is an initial segment of the Fibonacci sequence: the term at each
/// index `i` is `fib(i)`.
pub open spec fn fib_prefix(s: Seq<i64>) -> bool {
    forall|i: int| 0 <= i < s.len() ==> (#[trigger] s[i]) as int == fib(i as nat)
}

/// How many entries the row at index `i` of a column layout holds, when the
/// sequence has `total` terms: ten, except for a shorter final row.
pub open spec fn row_len(total: int, i: int) -> int {
    if total - 10 * i >= 10 {
        10
    } else {
        total - 10 * i
    }
}

/// `rows` is `terms` split into rows of ten, in order.
pub open spec fn rows_ok(terms: Seq<i64>, rows: Seq<Vec<i64>>) -> bool {
    &&& rows.len() == (terms.len() + 9) / 10
    &&& forall|i: int| 0 <= i < rows.len() ==> (#[trigger] rows[i])@.len() == row_len(
        terms.len() as int,
        i,
    )
    &&& forall|i: int, j: int|
        0 <= i < rows.len() && 0 <= j < rows[i]@.len() ==> (#[trigger] rows[i]@[j]) == terms[10 * i
            + j]
}

/// The mathematical content of a column layout: each row as a sequence.
pub open spec fn rows_view(rows: Seq<Vec<i64>>) -> Seq<Seq<i64>> {
    rows.map_values(|row: Vec<i64>| row@)
}

/// The full contract of `generate_by_count`: the terms are the first `count`
/// Fibonacci numbers, the statistics are present and exact when asked for,
/// and the column layout is present and exact when asked for.
pub open spec fn by_count_result_ok(
    count: int,
    show_stats: bool,
    column_mode: bool,
    r: CountOutput,
) -> bool {
    &&& r.terms@.len() == count
    &&& fib_prefix(r.terms@)
    &&& match r.stats {
        Some(st) => {
            &&& show_stats
            &&& st.term_count == count
            &&& st.sum == seq_sum(r.terms@)
            &&& st.last_two == (if count >= 2 {
                Some((r.terms@[count - 1], r.terms@[count - 2]))
            } else {
                None::<(i64, i64)>
            })
        },
        None => !show_stats,
    }
    &&& match r.rows {
        Some(rs) => column_mode && rows_ok(r.terms@, rs@),
        None => !column_mode,
    }
}

/// The full contract of `generate_up_to_max`: the terms are an initial
/// segment of the Fibonacci sequence, none exceeds `max`, and the next
/// Fibonacci number after the segment would.
pub open spec fn up_to_max_result_ok(max: int, s: Seq<i64>) -> bool {
    &&& 1 <= s.len()
    &&& fib_prefix(s)
    &&& forall|i: int| 0 <= i < s.len() ==> (#[trigger] s[i]) as int <= max
    &&& max < fib(s.len() as nat)
}

/// The first `count` Fibonacci terms, starting 0, 1.  The cap of 92 keeps
/// every term within `i64` range.
fn fib_terms(count: usize) -> (terms: Vec<i64>)
    requires
        1 <= count <= 92,
    ensures
        terms@.len() == count,
        fib_prefix(terms@),
{
    let mut terms: Vec<i64> = Vec::new();
    terms.push(0i64);
    if count >= 2 {
        terms.push(1i64);
        let mut t1: i64 = 0;
        let mut t2: i64 = 1;
        let mut j: usize = 2;
        while j < count
            invariant
                2 <= j <= count,
                count <= 92,
                terms@.len() == j,
                fib_prefix(terms@),
                t1 as int == fib((j - 2) as nat),
                t2 as int == fib((j - 1) as nat),
                0 <= t1,
                0 <= t2,
            decreases count - j,
        {
            proof {
                lemma_fib_i64_range();
                lemma_fib_monotonic(j as nat, 91);
                assert(fib(j as nat) == fib((j - 1) as nat) + fib((j - 2) as nat));
                assert(t1 as int + t2 as int <= i64::MAX as int);
            }
            let next: i64 = t1 + t2;
            terms.push(next);
            t1 = t2;
            t2 = next;
            j = j + 1;
        }
    }
    terms
}

/// The exact sum of a term list whose entries are non-negative.  The length
/// bound mirrors the library's term cap and keeps the running total well
/// within `i128` range.
pub fn sum_terms(terms: &Vec<i64>) -> (total: i128)
    requires
        terms@.len() <= 92,
        forall|i: int| 0 <= i < terms@.len() ==> 0 <= (#[trigger] terms@[i]),
    ensures
        total == seq_sum(terms@),
{
    let mut total: i128 = 0;
    let mut j: usize = 0;
    while j < terms.len()
        invariant
            j <= terms@.len(),
            terms@.len() <= 92,
            forall|i: int| 0 <= i < terms@.len() ==> 0 <= (#[trigger] terms@[i]),
            total == seq_sum(terms@.take(j as int)),
            0 <= total <= (j as int) * (i64::MAX as int),
        decreases terms@.len() - j,
    {
        proof {
            assert(terms@.take(j as int + 1).drop_last() =~= terms@.take(j as int));
            assert(terms@.take(j as int + 1).last() == terms@[j as int]);
        }
        total = total + (terms[j] as i128);
        j = j + 1;
    }
    proof {
        assert(terms@.take(terms@.len() as int) =~= terms@);
    }
    total
}

/// Splits a term list into rows of ten for column display, preserving order.
pub fn column_rows(terms: &Vec<i64>) -> (rows: Vec<Vec<i64>>)
    ensures
        rows_ok(terms@, rows@),
{
    let n = terms.len();
    let mut rows: Vec<Vec<i64>> = Vec::new();
    let mut idx: usize = 0;
    while idx < n
        invariant
            n == terms@.len(),
            idx <= n,
            idx <= 10 * rows@.len() < idx + 10,
            idx < n ==> idx == 10 * rows@.len(),
            forall|i: int|
                0 <= i < rows@.len() ==> (#[trigger] rows@[i])@.len() == row_len(n as int, i),
            forall|i: int, j: int|
                0 <= i < rows@.len() && 0 <= j < rows@[i]@.len() ==> (#[trigger] rows@[i]@[j])
                    == terms@[10 * i + j],
        decreases n - idx,
    {
        let rem = n - idx;
        let width = if rem < 10 {
            rem
        } else {
            10
        };
        let mut row: Vec<i64> = Vec::new();
        let mut j: usize = 0;
        while j < width
            invariant
                n == terms@.len(),
                idx + width <= n,
                width <= 10,
                j <= width,
                row@.len() == j,
                forall|t: int| 0 <= t < j ==> (#[trigger] row@[t]) == terms@[idx + t],
            decreases width - j,
        {
            row.push(terms[idx + j]);
            j = j + 1;
        }
        rows.push(row);
        idx = idx + width;
    }
    proof {
        assert(rows@.len() == (terms@.len() + 9) / 10);
    }
    rows
}

/// Produces the first `count` Fibonacci terms, together with the statistics
/// block and the column layout when those display modes are requested.
/// `count` has already been validated and clamped by the caller.
pub fn generate_by_count(count: usize, show_stats: bool, column_mode: bool) -> (r: CountOutput)
    requires
        1 <= count <= 92,
    ensures
        by_count_result_ok(count as int, show_stats, column_mode, r),
{
    let terms = fib_terms(count);
    let stats = if show_stats {
        proof {
            assert forall|i: int| 0 <= i < terms@.len() implies 0 <= (#[trigger] terms@[i]) by {
                assert(terms@[i] as int == fib(i as nat));
            }
        }
        let total = sum_terms(&terms);
        let last_two = if count >= 2 {
            Some((terms[count - 1], terms[count - 2]))
        } else {
            None
        };
        Some(Stats { term_count: count, sum: total, last_two })
    } else {
        None
    };
    let rows = if column_mode {
        Some(column_rows(&terms))
    } else {
        None
    };
    CountOutput { terms, rows, stats }
}

/// Produces every Fibonacci term that does not exceed `max_value`, starting
/// 0, 1.  The caller reports the count, which is the length of the result.
pub fn generate_up_to_max(max_value: i64) -> (terms: Vec<i64>)
    requires
        0 <= max_value,
    ensures
        up_to_max_result_ok(max_value as int, terms@),
{
    let mut terms: Vec<i64> = Vec::new();
    terms.push(0i64);
    if max_value >= 1 {
        terms.push(1i64);
        let mut t1: i64 = 0;
        let mut t2: i64 = 1;
        while (t1 as i128) + (t2 as i128) <= (max_value as i128)
            invariant
                1 <= max_value,
                2 <= terms@.len() <= 93,
                fib_prefix(terms@),
                forall|i: int|
                    0 <= i < terms@.len() ==> (#[trigger] terms@[i]) as int <= max_value as int,
                t1 as int == fib((terms@.len() - 2) as nat),
                t2 as int == fib((terms@.len() - 1) as nat),
                0 <= t1 <= t2,
                1 <= t2,
            decreases 93 - terms@.len(),
        {
            proof {
                let k = terms@.len();
                assert(fib(k as nat) == fib((k - 1) as nat) + fib((k - 2) as nat));
                lemma_fib_i64_range();
                if k >= 93 {
                    lemma_fib_monotonic(93, k as nat);
                    assert(false);
                }
            }
            let next: i64 = ((t1 as i128) + (t2 as i128)) as i64;
            terms.push(next);
            t1 = t2;
            t2 = next;
        }
        proof {
            let k = terms@.len();
            assert(fib(k as nat) == fib((k - 1) as nat) + fib((k - 2) as nat));
        }
    } else {
        proof {
            assert(fib(1) == 1);
        }
    }
    terms
}

/// How many terms `generate_up_to_max` yields: a Fibonacci number is in the
/// result exactly when it is at most the bound, so the result's length
/// counts the Fibonacci numbers (by index) that fit.
pub proof fn lemma_up_to_max_count(max: int, s: Seq<i64>, n: nat)
    requires
        up_to_max_result_ok(max, s),
    ensures
        fib(n) <= max <==> n < s.len(),
{
    if n < s.len() {
        assert(s[n as int] as int == fib(n));
        assert(s[n as int] as int <= max);
    } else {
        lemma_fib_monotonic(s.len() as nat, n);
    }
}

/// Fixed-count generation is deterministic: any two results that meet its
/// contract for the same inputs hold the same terms, the same statistics and
/// the same column layout.
pub proof fn lemma_by_count_deterministic(
    count: int,
    show_stats: bool,
    column_mode: bool,
    r1: CountOutput,
    r2: CountOutput,
)
    requires
        by_count_result_ok(count, show_stats, column_mode, r1),
        by_count_result_ok(count, show_stats, column_mode, r2),
    ensures
        r1.terms@ == r2.terms@,
        r1.stats == r2.stats,
        (match (r1.rows, r2.rows) {
            (Some(a), Some(b)) => rows_view(a@) == rows_view(b@),
            (None, None) => true,
            _ => false,
        }),
{
    assert forall|i: int| 0 <= i < count implies r1.terms@[i] == r2.terms@[i] by {
        assert(r1.terms@[i] as int == fib(i as nat));
        assert(r2.terms@[i] as int == fib(i as nat));
    }
    assert(r1.terms@ =~= r2.terms@);
    match (r1.rows, r2.rows) {
        (Some(a), Some(b)) => {
            assert forall|i: int| 0 <= i < a@.len() implies a@[i]@ == b@[i]@ by {
                assert(a@[i]@.len() == row_len(r1.terms@.len() as int, i));
                assert(b@[i]@.len() == row_len(r2.terms@.len() as int, i));
                assert forall|j: int| 0 <= j < a@[i]@.len() implies a@[i]@[j] == b@[i]@[j] by {
                    assert(a@[i]@[j] == r1.terms@[10 * i + j]);
                    assert(b@[i]@[j] == r2.terms@[10 * i + j]);
                }
                assert(a@[i]@ =~= b@[i]@);
            }
            assert(rows_view(a@) =~= rows_view(b@));
        },
        _ => {},
    }
}

/// Bounded generation is deterministic: any two term lists that meet its
/// contract for the same bound are equal.
pub proof fn lemma_up_to_max_deterministic(max: int, s1: Seq<i64>, s2: Seq<i64>)
    requires
        up_to_max_result_ok(max, s1),
        up_to_max_result_ok(max, s2),
    ensures
        s1 == s2,
{
    if s1.len() < s2.len() {
        lemma_up_to_max_count(max, s2, s1.len() as nat);
        assert(fib(s1.len() as nat) <= max);
        assert(false);
    }
    if s2.len() < s1.len() {
        lemma_up_to_max_count(max, s1, s2.len() as nat);
        assert(fib(s2.len() as nat) <= max);
        assert(false);
    }
    assert forall|i: int| 0 <= i < s1.len() implies s1[i] == s2[i] by {
        assert(s1[i] as int == fib(i as nat));
        assert(s2[i] as int == fib(i as nat));
    }
    assert(s1 =~= s2);
}

} // verus!
