use dive_deco::Time;

fn fx(value: f64) -> i64 {
    (value * 1e9).round() as i64
}

fn unfix(value: i64) -> f64 {
    value as f64 / 1e9
}

#[test]
fn test_from_seconds() {
    let time = Time::from_seconds(fx(120.0));
    assert_eq!(unfix(time.as_seconds()), 120.0);
}

#[test]
fn test_from_minutes() {
    let time = Time::from_minutes(fx(2.0));
    assert_eq!(unfix(time.as_seconds()), 120.0);
}

#[test]
fn test_as_seconds() {
    let time = Time::from_minutes(fx(2.));
    assert_eq!(unfix(time.as_seconds()), 120.);
}

#[test]
fn test_as_minutes() {
    let time = Time::from_seconds(fx(30.0));
    assert_eq!(unfix(time.as_minutes()), 0.5);
}

#[test]
fn time_zero_is_no_time() {
    assert_eq!(Time::zero(), Time::from_seconds(0));
    assert_eq!(Time::default(), Time::zero());
}

#[test]
fn time_sum_and_difference() {
    let a = Time::from_seconds(fx(90.));
    let b = Time::from_minutes(fx(1.));
    assert_eq!(a.plus(b), Time::from_seconds(fx(150.)));
    assert_eq!(a.minus(b), Time::from_seconds(fx(30.)));
    assert_eq!(b.minus(a), Time::from_seconds(fx(-30.)));
}

#[test]
fn time_sum_stops_at_the_largest_time() {
    let most = Time::from_seconds(i64::MAX);
    assert_eq!(most.plus(Time::from_seconds(1)), most);
    let least = Time::from_seconds(i64::MIN);
    assert_eq!(least.minus(Time::from_seconds(1)), least);
    assert_eq!(Time::from_minutes(i64::MAX), most);
}

#[test]
fn minutes_round_down() {
    assert_eq!(Time::from_seconds(119).as_minutes(), 1);
    assert_eq!(Time::from_seconds(-1).as_minutes(), -1);
}
