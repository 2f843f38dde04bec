//! The entry point of the benchmark program.
//!
//! A run takes the number of arguments the process was started with as the
//! seed, makes one full pass count through the loop that the build selects,
//! and hands the total back as the exit status. The seed is something the
//! compiler cannot know, and the status is something it cannot drop, so the
//! loop between them has to run.

use vstd::prelude::*;
use crate::driver::{builtin_test, control, gain, ITERS};

verus! {

/// Which loop a build of the program runs: the hinted one if `true`, the
/// control if `false`. It is fixed when the program is built, so choosing
/// costs nothing while it runs.
pub const HINTED: bool = true;

/// The exit status that stands for a total: the total itself where a status
/// can hold it, else the nearest status there is.
pub open spec fn truncated(total: int) -> int {
    if total < i32::MIN {
        i32::MIN as int
    } else if total > i32::MAX {
        i32::MAX as int
    } else {
        total
    }
}

/// Narrows a total to an exit status.
pub fn exit_status(total: i64) -> (status: i32)
    ensures
        status == truncated(total as int),
{
    if total < i32::MIN as i64 {
        i32::MIN
    } else if total > i32::MAX as i64 {
        i32::MAX
    } else {
        total as i32
    }
}

/// Runs the selected loop once from the seed `argc` and returns its total as
/// the exit status.
///
/// A full run adds more than any status can hold to whatever seed it was
/// given, so the status is the largest one for every `argc`.
pub fn main(argc: i32) -> (status: i32)
    ensures
        status == truncated(argc + gain(ITERS as nat)),
        status == i32::MAX,
{
    let total: i64 = if HINTED {
        builtin_test(argc as i64)
    } else {
        control(argc as i64)
    };
    exit_status(total)
}

} // verus!
