//! The counting loops of the benchmark.
//!
//! A loop makes a fixed number of passes. On each pass it raises a counter,
//! asks one of the two checks whether "the counter is past five" came out
//! true, and adds one to an accumulator if so and two if not. The accumulator
//! starts from a seed that the caller supplies, so the compiler cannot work
//! the loop out ahead of time, and it is the only thing a loop hands back.
//!
//! Seeds and totals are whole numbers. The loop comes in two copies,
//! [`control`] over the plain check and [`builtin_test`] over the hinted one,
//! which are otherwise the same line for line: they are the control and the
//! treatment of the experiment.

use vstd::prelude::*;
use crate::comparator::{__blank_function_, __builtin_expect_};

verus! {

/// The number of passes of a full benchmark run.
pub const ITERS: u64 = 10_000_000_000;

/// The condition that pass number `count` puts to the check. Passes are
/// numbered from one.
pub open spec fn condition(count: int) -> bool {
    count > 5
}

/// The passes among the first `iters` on which the condition comes out as
/// `outcome`.
pub open spec fn passes(iters: nat, outcome: bool) -> Set<int> {
    Set::new(|count: int| 1 <= count <= iters && condition(count) == outcome)
}

/// What `iters` passes add to the accumulator: one for each pass, and one
/// more for each of the first five.
pub open spec fn gain(iters: nat) -> nat {
    if iters <= 5 {
        2 * iters
    } else {
        iters + 5
    }
}

/// The gain of a run is two for every pass on which the condition fails plus
/// one for every pass on which it holds, and every pass is one or the other.
pub proof fn lemma_gain_counts_passes(iters: nat)
    ensures
        passes(iters, true).finite(),
        passes(iters, false).finite(),
        passes(iters, true).len() + passes(iters, false).len() == iters,
        passes(iters, false).len() == if iters <= 5 { iters } else { 5 },
        gain(iters) == 2 * passes(iters, false).len() + 1 * passes(iters, true).len(),
{
    let end: int = iters as int + 1;
    let turn: int = if iters <= 5 { end } else { 6 };
    vstd::set_lib::lemma_int_range(1, turn);
    vstd::set_lib::lemma_int_range(turn, end);
    assert(passes(iters, false) =~= vstd::set_lib::set_int_range(1, turn));
    assert(passes(iters, true) =~= vstd::set_lib::set_int_range(turn, end));
}

/// The control loop over `iters` passes: the plain check decides each pass.
pub fn control_for(y: i64, iters: u64) -> (total: i64)
    requires
        y + gain(iters as nat) <= i64::MAX,
    ensures
        total == y + gain(iters as nat),
{
    let mut total: i64 = y;
    let mut count: u64 = 0;
    while count < iters
        invariant
            count <= iters,
            total == y + gain(count as nat),
            y + gain(iters as nat) <= i64::MAX,
        decreases iters - count,
    {
        count += 1;
        if __blank_function_(count > 5, true) {
            total += 1;
        } else {
            total += 2;
        }
    }
    total
}

/// The hinted loop over `iters` passes: the hinted check decides each pass.
pub fn builtin_test_for(y: i64, iters: u64) -> (total: i64)
    requires
        y + gain(iters as nat) <= i64::MAX,
    ensures
        total == y + gain(iters as nat),
{
    let mut total: i64 = y;
    let mut count: u64 = 0;
    while count < iters
        invariant
            count <= iters,
            total == y + gain(count as nat),
            y + gain(iters as nat) <= i64::MAX,
        decreases iters - count,
    {
        count += 1;
        if __builtin_expect_(count > 5, true) {
            total += 1;
        } else {
            total += 2;
        }
    }
    total
}

/// The control: a full run of [`ITERS`] passes over the plain check.
pub fn control(y: i64) -> (total: i64)
    requires
        y + gain(ITERS as nat) <= i64::MAX,
    ensures
        total == y + gain(ITERS as nat),
        total == y + 10_000_000_005,
{
    control_for(y, ITERS)
}

/// The treatment: a full run of [`ITERS`] passes over the hinted check.
pub fn builtin_test(y: i64) -> (total: i64)
    requires
        y + gain(ITERS as nat) <= i64::MAX,
    ensures
        total == y + gain(ITERS as nat),
        total == y + 10_000_000_005,
{
    builtin_test_for(y, ITERS)
}

/// A loop keeps nothing between calls: two full runs of the same loop from
/// the same seed end on the same total.
pub proof fn lemma_runs_repeat(y: i64, first: i64, second: i64)
    requires
        y + gain(ITERS as nat) <= i64::MAX,
        call_ensures(control, (y,), first) && call_ensures(control, (y,), second)
            || call_ensures(builtin_test, (y,), first) && call_ensures(builtin_test, (y,), second),
    ensures
        first == second,
{
}

/// The hint changes no result: from the same seed, the hinted loop and the
/// control end on the same total.
pub proof fn lemma_hint_keeps_total(y: i64, hinted: i64, plain: i64)
    requires
        y + gain(ITERS as nat) <= i64::MAX,
        call_ensures(builtin_test, (y,), hinted),
        call_ensures(control, (y,), plain),
    ensures
        hinted == plain,
{
}

} // verus!
