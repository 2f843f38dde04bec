//! The two equality checks that the benchmark loops call on every pass.
//!
//! [`__builtin_expect_`] stands where a branch-prediction hint is given to the
//! compiler; [`__blank_function_`] is the same check with nothing said. Both
//! are inlined into the loop, so what a timing shows is the hint and not the
//! call. A hint may move code around. It cannot change what a check returns:
//! the two contracts are the same, and [`lemma_hint_is_silent`] says so.

use vstd::prelude::*;
use vstd::laws_eq::obeys_concrete_eq;
use vstd::std_specs::cmp::PartialEqSpec;

verus! {

/// The hinted check: reports whether `expr` came out as `expect`, the value
/// that the caller holds to be the likely one.
///
/// The result is what the equality of `T` gives for the two values: where
/// `T::obeys_eq_spec()` holds, that is `expr.eq_spec(&expect)`.
#[inline(always)]
pub fn __builtin_expect_<T: Eq>(expr: T, expect: T) -> (likely: bool)
    ensures
        call_ensures(<T as PartialEq>::eq, (&expr, &expect), likely),
        T::obeys_eq_spec() ==> likely == expr.eq_spec(&expect),
{
    expr == expect
}

/// The plain check: reports whether `expr` equals `expect`, with no hint.
///
/// The result is what the equality of `T` gives for the two values: where
/// `T::obeys_eq_spec()` holds, that is `expr.eq_spec(&expect)`.
#[inline(always)]
pub fn __blank_function_<T: Eq>(expr: T, expect: T) -> (equal: bool)
    ensures
        call_ensures(<T as PartialEq>::eq, (&expr, &expect), equal),
        T::obeys_eq_spec() ==> equal == expr.eq_spec(&expect),
{
    expr == expect
}

/// The hint is silent. For a type with `T::obeys_eq_spec()`, whatever the
/// hinted check returns on two values the plain check returns too, and it is
/// `expr.eq_spec(&expect)`; where the equality of `T` is equality of the
/// values themselves, it is `expr == expect`.
pub proof fn lemma_hint_is_silent<T: Eq>(expr: T, expect: T, likely: bool, equal: bool)
    requires
        T::obeys_eq_spec(),
        call_ensures(__builtin_expect_::<T>, (expr, expect), likely),
        call_ensures(__blank_function_::<T>, (expr, expect), equal),
    ensures
        likely == equal,
        equal == expr.eq_spec(&expect),
        obeys_concrete_eq::<T>() ==> equal == (expr == expect),
{
    reveal(obeys_concrete_eq);
}

} // verus!
