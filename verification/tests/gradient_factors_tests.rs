use dive_deco::{
    zhl_16c_n2_16a_he_values, BuehlmannConfig, BuehlmannModel, CeilingType, Depth, Exposure,
    Gas, Kinetics, OxygenTerms, Saturation, Time,
};

fn fx(value: f64) -> i64 {
    (value * 1e9).round() as i64
}

fn unfix(value: i64) -> f64 {
    value as f64 / 1e9
}

fn meters(value: f64) -> Depth {
    Depth::from_meters(fx(value))
}

fn seconds(value: f64) -> Time {
    Time::from_seconds(fx(value))
}

fn minutes(value: f64) -> Time {
    Time::from_minutes(fx(value))
}

fn gas(o2: f64, he: f64) -> Gas {
    Gas::new(fx(o2), fx(he))
}

fn saturation(span_seconds: f64) -> Saturation {
    let table = zhl_16c_n2_16a_he_values();
    let mut n2 = [0i64; 16];
    let mut he = [0i64; 16];
    for i in 0..16 {
        let n2_half_time = unfix(table[i].n2_half_time);
        let he_half_time = unfix(table[i].he_half_time);
        n2[i] = fx(1.0 - libm::pow(2.0, -(span_seconds / 60.0) / n2_half_time));
        he[i] = fx(1.0 - libm::pow(2.0, -(span_seconds / 60.0) / he_half_time));
    }
    Saturation { n2, he }
}

fn kinetics() -> Kinetics {
    Kinetics { second: saturation(1.0), minute: saturation(60.0), five_minutes: saturation(300.0) }
}

fn oxygen_terms(surface_pressure: u16, depth: Depth, time: Time, gas: &Gas) -> OxygenTerms {
    let pp_o2 = unfix(gas.inspired_partial_pressures(depth, surface_pressure).o2);
    let span_minutes = unfix(time.as_seconds()) / 60.0;
    let otu_per_minute =
        if pp_o2 > 0.5 { libm::pow(0.5 / (pp_o2 - 0.5), -0.8333) } else { 0.0 };
    OxygenTerms {
        cns_retention: fx(libm::pow(2.0, -span_minutes / 90.0)),
        otu_per_minute: fx(otu_per_minute),
    }
}

fn record(model: &mut BuehlmannModel, depth: Depth, time: Time, gas: &Gas) {
    let exposure = Exposure {
        saturation: saturation(unfix(time.as_seconds())),
        oxygen: oxygen_terms(model.config().surface_pressure, depth, time, gas),
    };
    model.record(depth, time, gas, &exposure);
}

fn model_gf(gf: (u8, u8)) -> BuehlmannModel {
    BuehlmannModel::new(BuehlmannConfig::default().with_gradient_factors(gf.0, gf.1), kinetics())
}

#[test]
fn test_ndl() {
    // (gradient_factors, depth, expected_ndl)
    let test_cases: Vec<((u8, u8), f64, f64)> = vec![
        // 100/100
        ((100, 100), 21., 40.),
        ((100, 100), 15., 90.),
        // 70/70
        ((70, 70), 21., 19.),
        ((70, 70), 15., 47.),
    ];

    let air = Gas::air();
    for test_case in test_cases {
        let (gradient_factors, test_depth, expected_ndl) = test_case;
        let mut model = model_gf(gradient_factors);
        record(&mut model, meters(test_depth), Time::zero(), &air);
        assert_eq!(model.ndl(), minutes(expected_ndl));
    }
}

#[test]
fn ndl_on_air_is_about_forty_minutes_at_21_m_and_ninety_at_15_m() {
    let air = Gas::air();
    let mut model = model_gf((100, 100));
    record(&mut model, meters(21.), Time::zero(), &air);
    assert!((unfix(model.ndl().as_minutes()) - 39.).abs() <= 1.);
    let mut model = model_gf((100, 100));
    record(&mut model, meters(15.), Time::zero(), &air);
    assert!((unfix(model.ndl().as_minutes()) - 86.).abs() <= 4.);
}

#[test]
fn ndl_is_cut_off_at_99_minutes() {
    let air = Gas::air();
    let mut model = model_gf((100, 100));
    record(&mut model, meters(6.), Time::zero(), &air);
    assert_eq!(model.ndl(), minutes(99.));
    assert_eq!(BuehlmannModel::default(kinetics()).ndl(), minutes(99.));
}

#[test]
fn ndl_falls_with_the_time_spent() {
    let air = Gas::air();
    let mut model = model_gf((100, 100));
    record(&mut model, meters(21.), minutes(10.), &air);
    assert_eq!(model.ndl(), minutes(30.));
    record(&mut model, meters(21.), minutes(29.), &air);
    assert_eq!(model.ndl(), minutes(1.));
    record(&mut model, meters(21.), minutes(1.), &air);
    assert_eq!(model.ndl(), minutes(0.));
    assert!(!model.in_deco());
    record(&mut model, meters(21.), minutes(1.), &air);
    assert!(model.in_deco());
    assert_eq!(model.ndl(), Time::zero());
}

#[test]
fn in_deco_under_the_adaptive_policy_goes_by_the_plan() {
    let air = Gas::air();
    let config = BuehlmannConfig::default().with_ceiling_type(CeilingType::Adaptive);
    let mut model = BuehlmannModel::new(config, kinetics());
    record(&mut model, meters(30.), minutes(10.), &air);
    assert!(!model.in_deco());
    assert_eq!(model.ceiling(), Depth::zero());
    record(&mut model, meters(30.), minutes(30.), &air);
    assert!(model.in_deco());
    assert!(model.ceiling().as_meters() > 0);
    assert_eq!(model.ndl(), Time::zero());
}
