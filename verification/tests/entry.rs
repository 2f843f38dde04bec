use branch_hint::driver::{builtin_test, control};
use branch_hint::entry::{exit_status, main, HINTED};

#[test]
fn build_runs_the_hinted_loop() {
    assert!(HINTED);
}

#[test]
fn status_keeps_a_total_that_fits() {
    assert_eq!(exit_status(0), 0);
    assert_eq!(exit_status(1), 1);
    assert_eq!(exit_status(-1), -1);
    assert_eq!(exit_status(255), 255);
    assert_eq!(exit_status(2_147_483_647), i32::MAX);
    assert_eq!(exit_status(-2_147_483_648), i32::MIN);
}

#[test]
fn status_stops_at_the_largest() {
    assert_eq!(exit_status(2_147_483_648), i32::MAX);
    assert_eq!(exit_status(10_000_000_005), i32::MAX);
    assert_eq!(exit_status(i64::MAX), i32::MAX);
}

#[test]
fn status_stops_at_the_smallest() {
    assert_eq!(exit_status(-2_147_483_649), i32::MIN);
    assert_eq!(exit_status(-10_000_000_005), i32::MIN);
    assert_eq!(exit_status(i64::MIN), i32::MIN);
}

#[test]
fn status_is_what_a_float_cast_gives() {
    let totals: Vec<i64> = vec![
        -10_000_000_005,
        -2_147_483_649,
        -2_147_483_648,
        -7,
        0,
        7,
        2_147_483_647,
        2_147_483_648,
        10_000_000_005,
        10_000_000_007,
    ];
    for total in totals.iter() {
        assert_eq!(exit_status(*total), (*total as f64) as i32);
    }
}

#[test]
fn run_with_two_arguments() {
    assert_eq!(main(2), exit_status(builtin_test(2)));
    assert_eq!(main(2), exit_status(10_000_000_007));
    assert_eq!(main(2), 2_147_483_647);
}

#[test]
fn run_with_any_argument_count_ends_on_the_largest_status() {
    assert_eq!(main(0), i32::MAX);
    assert_eq!(main(1), i32::MAX);
    assert_eq!(main(-1), i32::MAX);
    assert_eq!(main(i32::MAX), i32::MAX);
    assert_eq!(main(i32::MIN), i32::MAX);
}

#[test]
fn run_does_not_depend_on_which_loop_is_selected() {
    assert_eq!(main(2), exit_status(control(2)));
    assert_eq!(main(1), exit_status(control(1)));
}
