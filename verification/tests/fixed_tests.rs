use dive_deco::common::fixed::{
    ceil_to, from_int, from_ratio, minus, narrow, over, plus, ratio, scaled, times, whole,
};
use dive_deco::SCALE;

fn fx(value: f64) -> i64 {
    (value * 1e9).round() as i64
}

#[test]
fn one_is_a_billion_units() {
    assert_eq!(SCALE, 1_000_000_000);
    assert_eq!(from_int(1), SCALE);
    assert_eq!(from_int(-7), -7 * SCALE);
    assert_eq!(from_int(0), 0);
    assert_eq!(from_int(i32::MAX), i32::MAX as i64 * SCALE);
    assert_eq!(from_ratio(1, 4), fx(0.25));
    assert_eq!(from_ratio(33_528, 1000), fx(33.528));
    assert_eq!(from_ratio(-1, 3), -333_333_334);
    assert_eq!(from_ratio(5, 0), i64::MAX);
}

#[test]
fn sums_and_differences_stop_at_the_bounds() {
    assert_eq!(plus(fx(1.5), fx(2.25)), fx(3.75));
    assert_eq!(minus(fx(1.5), fx(2.25)), fx(-0.75));
    assert_eq!(plus(i64::MAX, 1), i64::MAX);
    assert_eq!(plus(i64::MIN, -1), i64::MIN);
    assert_eq!(minus(i64::MIN, 1), i64::MIN);
    assert_eq!(minus(i64::MAX, -1), i64::MAX);
    assert_eq!(minus(0, i64::MIN), i64::MAX);
    assert_eq!(plus(i64::MAX, i64::MIN), -1);
}

#[test]
fn products_round_down() {
    assert_eq!(times(fx(1.5), fx(2.)), fx(3.));
    assert_eq!(times(fx(0.1), fx(0.1)), fx(0.01));
    assert_eq!(times(3, 333_333_333), 0);
    assert_eq!(times(-3, 333_333_333), -1);
    assert_eq!(times(fx(-2.5), fx(4.)), fx(-10.));
    assert_eq!(times(i64::MAX, i64::MAX), i64::MAX);
    assert_eq!(times(i64::MAX, i64::MIN), i64::MIN);
    assert_eq!(times(i64::MIN, i64::MIN), i64::MAX);
    assert_eq!(times(i64::MAX, SCALE), i64::MAX);
    assert_eq!(times(12345, 0), 0);
}

#[test]
fn quotients_round_down() {
    assert_eq!(over(fx(3.), fx(2.)), fx(1.5));
    assert_eq!(over(fx(1.), fx(3.)), 333_333_333);
    assert_eq!(over(fx(-1.), fx(3.)), -333_333_334);
    assert_eq!(over(fx(1.), fx(-3.)), -333_333_334);
    assert_eq!(over(fx(-1.), fx(-3.)), 333_333_333);
    assert_eq!(over(fx(1.6), fx(0.5)), fx(3.2));
    assert_eq!(over(i64::MAX, 1), i64::MAX);
    assert_eq!(over(i64::MIN, 1), i64::MIN);
}

#[test]
fn division_by_nought_goes_to_the_bound() {
    assert_eq!(over(fx(1.), 0), i64::MAX);
    assert_eq!(over(fx(-1.), 0), i64::MIN);
    assert_eq!(over(0, 0), 0);
    assert_eq!(scaled(5, 3, 0), i64::MAX);
    assert_eq!(scaled(5, -3, 0), i64::MIN);
    assert_eq!(scaled(0, 3, 0), 0);
    assert_eq!(ratio(7, 0), i64::MAX);
    assert_eq!(ratio(-7, 0), i64::MIN);
}

#[test]
fn scaling_rounds_once() {
    assert_eq!(scaled(fx(3.), 60 * SCALE, fx(9.)), fx(20.));
    assert_eq!(scaled(fx(34.), 60 * SCALE, fx(9.)), 226_666_666_666);
    assert_eq!(scaled(7, 1, 2), 3);
    assert_eq!(scaled(-7, 1, 2), -4);
    assert_eq!(scaled(7, -1, 2), -4);
    assert_eq!(scaled(7, 1, -2), -4);
    assert_eq!(scaled(-7, -1, -2), -4);
    assert_eq!(scaled(i64::MAX, i64::MAX, 1), i64::MAX);
    assert_eq!(scaled(i64::MIN, i64::MAX, 1), i64::MIN);
    assert_eq!(scaled(i64::MIN, i64::MIN, i64::MIN), i64::MIN);
}

#[test]
fn wide_ratios_are_floored_and_capped() {
    assert_eq!(ratio(7, 2), 3);
    assert_eq!(ratio(-7, 2), -4);
    assert_eq!(ratio(-8, 2), -4);
    assert_eq!(ratio(7, -2), -4);
    assert_eq!(ratio(-7, -2), 3);
    assert_eq!(ratio(i128::MAX, 1), i64::MAX);
    assert_eq!(ratio(i128::MIN + 1, 1), i64::MIN);
    assert_eq!(ratio(i128::MAX, i128::MIN + 1), -1);
    assert_eq!(narrow(i128::MAX), i64::MAX);
    assert_eq!(narrow(i128::MIN), i64::MIN);
    assert_eq!(narrow(-5), -5);
}

#[test]
fn rounding_up_to_a_step() {
    let three = fx(3.);
    assert_eq!(ceil_to(0, three), 0);
    assert_eq!(ceil_to(1, three), three);
    assert_eq!(ceil_to(three, three), three);
    assert_eq!(ceil_to(three + 1, three), 2 * three);
    assert_eq!(ceil_to(fx(4.15), SCALE), fx(5.));
    assert_eq!(ceil_to(-1, three), 0);
    assert_eq!(ceil_to(fx(-3.5), three), fx(-3.));
    assert_eq!(ceil_to(i64::MAX, three), i64::MAX);
    assert_eq!(ceil_to(i64::MIN, 1), i64::MIN + 1);
}

#[test]
fn whole_part_is_cut_towards_nought() {
    assert_eq!(whole(fx(226.67)), 226);
    assert_eq!(whole(fx(0.99)), 0);
    assert_eq!(whole(fx(-0.99)), 0);
    assert_eq!(whole(fx(-2.5)), -2);
    assert_eq!(whole(fx(35.)), 35);
    assert_eq!(whole(i64::MAX), 9_223_372_036);
    assert_eq!(whole(i64::MIN), -9_223_372_036);
}
