use dive_deco::{
    zhl_16c_n2_16a_he_values, BuehlmannConfig, BuehlmannModel, CeilingType, ConfigValidationErr,
    ConfigValidationErrorField, ConfigValidationErrorReason, Depth, Exposure, Gas, Kinetics,
    OxTox, OxygenTerms, Saturation, Sim, Supersaturation, Time,
};

fn fx(value: f64) -> i64 {
    (value * 1e9).round() as i64
}

fn unfix(value: i64) -> f64 {
    value as f64 / 1e9
}

fn meters(value: f64) -> Depth {
    Depth::from_meters(fx(value))
}

fn seconds(value: f64) -> Time {
    Time::from_seconds(fx(value))
}

fn minutes(value: f64) -> Time {
    Time::from_minutes(fx(value))
}

fn gas(o2: f64, he: f64) -> Gas {
    Gas::new(fx(o2), fx(he))
}

fn saturation(span_seconds: f64) -> Saturation {
    let table = zhl_16c_n2_16a_he_values();
    let mut n2 = [0i64; 16];
    let mut he = [0i64; 16];
    for i in 0..16 {
        let n2_half_time = unfix(table[i].n2_half_time);
        let he_half_time = unfix(table[i].he_half_time);
        n2[i] = fx(1.0 - libm::pow(2.0, -(span_seconds / 60.0) / n2_half_time));
        he[i] = fx(1.0 - libm::pow(2.0, -(span_seconds / 60.0) / he_half_time));
    }
    Saturation { n2, he }
}

fn kinetics() -> Kinetics {
    Kinetics { second: saturation(1.0), minute: saturation(60.0), five_minutes: saturation(300.0) }
}

fn oxygen_terms(surface_pressure: u16, depth: Depth, time: Time, gas: &Gas) -> OxygenTerms {
    let pp_o2 = unfix(gas.inspired_partial_pressures(depth, surface_pressure).o2);
    let span_minutes = unfix(time.as_seconds()) / 60.0;
    let otu_per_minute =
        if pp_o2 > 0.5 { libm::pow(0.5 / (pp_o2 - 0.5), -0.8333) } else { 0.0 };
    OxygenTerms {
        cns_retention: fx(libm::pow(2.0, -span_minutes / 90.0)),
        otu_per_minute: fx(otu_per_minute),
    }
}

fn record(model: &mut BuehlmannModel, depth: Depth, time: Time, gas: &Gas) {
    let exposure = Exposure {
        saturation: saturation(unfix(time.as_seconds())),
        oxygen: oxygen_terms(model.config().surface_pressure, depth, time, gas),
    };
    model.record(depth, time, gas, &exposure);
}

#[test]
fn test_state() {
    let mut model = BuehlmannModel::new(BuehlmannConfig::default(), kinetics());
    let air = gas(0.21, 0.);
    let nx32 = gas(0.32, 0.);
    record(&mut model, meters(10.), minutes(10.), &air);
    record(&mut model, meters(15.), minutes(15.), &nx32);
    assert_eq!(unfix(model.state.depth.as_meters()), 15.);
    assert_eq!(model.state.time, minutes(25.));
    assert_eq!(model.state.gas, nx32);
    assert_eq!(model.state.gf_low_depth, None);
    assert_ne!(model.state.ox_tox, OxTox::default());
}

#[test]
fn test_max_gf_within_ndl() {
    let gf = (50, 100);
    let mut model = BuehlmannModel::new(
        BuehlmannConfig::new().with_gradient_factors(gf.0, gf.1),
        kinetics(),
    );
    let air = Gas::air();
    record(&mut model, meters(0.), Time::zero(), &air);
    assert_eq!(model.max_gf(gf, meters(0.)), 100);
}

#[test]
fn test_max_gf_below_first_stop() {
    let gf = (50, 100);
    let mut model = BuehlmannModel::new(
        BuehlmannConfig::new().with_gradient_factors(gf.0, gf.1),
        kinetics(),
    );
    let air = Gas::air();
    record(&mut model, meters(40.), minutes(12.), &air);
    assert_eq!(model.max_gf(gf, meters(40.)), 50);
}

#[test]
fn test_max_gf_during_deco() {
    let gf = (30, 70);
    let mut model = BuehlmannModel::new(
        BuehlmannConfig::new().with_gradient_factors(gf.0, gf.1),
        kinetics(),
    );
    let air = Gas::air();

    record(&mut model, meters(40.), minutes(30.), &air);
    record(&mut model, meters(21.), minutes(5.), &air);
    record(&mut model, meters(14.), Time::zero(), &air);
    assert_eq!(model.max_gf(gf, meters(14.)), 40);
}

#[test]
fn test_gf_slope_point() {
    let gf = (30, 85);
    let model = BuehlmannModel::new(
        BuehlmannConfig::new().with_gradient_factors(gf.0, gf.1),
        kinetics(),
    );
    let slope_point = model.gf_slope_point(gf, meters(33.528), meters(30.48));
    assert_eq!(slope_point, 35);
}

#[test]
fn test_initial_supersaturation() {
    fn extract_supersaturations(model: BuehlmannModel) -> [Supersaturation; 16] {
        let mut supersaturations: [Supersaturation; 16] = [Supersaturation::default(); 16];
        for (i, comp) in model.compartments.iter().enumerate() {
            supersaturations[i] =
                comp.supersaturation(model.config().surface_pressure, Depth::zero());
        }
        supersaturations
    }

    let model_initial = BuehlmannModel::default(kinetics());

    let mut model_with_surface_interval = BuehlmannModel::default(kinetics());
    record(&mut model_with_surface_interval, Depth::zero(), seconds(999999.), &Gas::air());

    let initial_gfs = extract_supersaturations(model_initial);
    let surface_interval_gfs = extract_supersaturations(model_with_surface_interval);

    assert_eq!(initial_gfs, surface_interval_gfs);
}

#[test]
fn test_updating_config() {
    let mut model = BuehlmannModel::default(kinetics());
    let initial_config = model.config();
    let new_config = BuehlmannConfig::new()
        .with_gradient_factors(30, 70)
        .with_round_ceiling(true)
        .with_ceiling_type(CeilingType::Adaptive)
        .with_round_ceiling(true);
    assert_ne!(initial_config, new_config, "given configs aren't identical");

    model.update_config(new_config).unwrap();
    let updated_config = model.config();
    assert_eq!(updated_config, new_config, "new config saved");

    let invalid_config = new_config.with_gradient_factors(0, 150);
    let update_res = model.update_config(invalid_config);
    assert_eq!(
        update_res,
        Err(ConfigValidationErr {
            field: ConfigValidationErrorField::GradientFactors,
            reason: ConfigValidationErrorReason::GF_RANGE_ERR_MSG,
        }),
        "invalid config update results in Err"
    );
    assert_eq!(model.config(), new_config);
}

#[test]
fn test_ndl_0_if_in_deco() {
    let mut model = BuehlmannModel::new(
        BuehlmannConfig::default()
            .with_gradient_factors(30, 70)
            .with_ceiling_type(CeilingType::Actual),
        kinetics(),
    );
    let air = Gas::air();
    record(&mut model, meters(40.), minutes(6.), &air);
    record(&mut model, meters(9.), Time::zero(), &air);
    let ndl = model.ndl();
    assert_eq!(ndl, Time::zero());
}

#[test]
fn elapsed_time_is_the_sum_of_the_records() {
    let mut model = BuehlmannModel::default(kinetics());
    let air = Gas::air();
    let spans = [minutes(3.), seconds(17.), Time::zero(), minutes(12.5), seconds(0.25)];
    let mut sum = Time::zero();
    for span in spans {
        record(&mut model, meters(18.), span, &air);
        sum = sum.plus(span);
        assert_eq!(model.dive_state().time, sum);
    }
    assert_eq!(unfix(sum.as_seconds()), 947.25);
}

#[test]
fn travel_takes_whole_seconds_and_ends_at_the_target() {
    let mut model = BuehlmannModel::default(kinetics());
    let air = Gas::air();
    // 40 m at 9 m/min are 266.67 s, of which 266 are travelled
    model.record_travel_with_rate(meters(40.), fx(9.), &air, &Vec::new());
    assert_eq!(model.dive_state().depth, meters(40.));
    assert_eq!(model.dive_state().time, seconds(266.));
    assert_eq!(model.dive_state().gas, air);
    model.record_travel(meters(10.), seconds(90.5), &air, &Vec::new());
    assert_eq!(model.dive_state().depth, meters(10.));
    assert_eq!(model.dive_state().time, seconds(356.));
}

#[test]
fn travel_with_oxygen_terms_grows_the_exposure() {
    let air = gas(0.32, 0.);
    let mut model = BuehlmannModel::default(kinetics());
    let target = meters(36.);
    let span = seconds(120.);
    let mut terms = Vec::new();
    for i in 0..120 {
        let depth = meters(36. * (i + 1) as f64 / 120.);
        terms.push(oxygen_terms(1013, depth, seconds(1.), &air));
    }
    model.record_travel(target, span, &air, &terms);
    assert!(model.cns() > 0);
    assert!(model.otu() > 0);

    // a twin keeps the exposure it was forked with
    let mut twin = BuehlmannModel::default(kinetics()).fork();
    twin.record_travel(target, span, &air, &terms);
    assert_eq!(twin.cns(), 0);
    assert_eq!(twin.otu(), 0);
    assert_eq!(twin.tissues()[0].n2_ip, model.tissues()[0].n2_ip);
}

#[test]
fn fork_is_a_twin_and_leaves_the_model_alone() {
    let mut model = BuehlmannModel::default(kinetics());
    let air = Gas::air();
    record(&mut model, meters(30.), minutes(20.), &air);
    let before = model;
    let mut twin = model.fork();
    assert!(twin.is_sim());
    assert!(!model.is_sim());
    record(&mut twin, meters(30.), minutes(20.), &air);
    assert_eq!(model.tissues(), before.tissues());
    assert_eq!(model.dive_state(), before.dive_state());
    assert_eq!(twin.dive_state().ox_tox, model.dive_state().ox_tox);
    assert_ne!(twin.tissues(), model.tissues());
}

#[test]
fn leading_compartment_is_the_first_of_the_greatest() {
    let mut model = BuehlmannModel::default(kinetics());
    for (i, value) in [5, 9, 2, 9, 7].into_iter().enumerate() {
        model.compartments[i].min_tolerable_amb_pressure = fx(value as f64);
    }
    for i in 5..16 {
        model.compartments[i].min_tolerable_amb_pressure = fx(1.);
    }
    assert_eq!(model.leading_comp().no, 2);
    model.compartments[0].min_tolerable_amb_pressure = fx(9.);
    assert_eq!(model.leading_comp().no, 1);
    model.compartments[15].min_tolerable_amb_pressure = fx(9.5);
    assert_eq!(model.leading_comp().no, 16);
}

#[test]
fn ceiling_of_a_new_model_is_the_surface() {
    for ceiling_type in [CeilingType::Actual, CeilingType::Adaptive] {
        let model = BuehlmannModel::new(
            BuehlmannConfig::default().with_ceiling_type(ceiling_type),
            kinetics(),
        );
        assert_eq!(model.ceiling(), Depth::zero());
        assert!(!model.in_deco());
    }
}

#[test]
fn ceiling_rounds_up_to_whole_meters_when_asked() {
    let air = Gas::air();
    let mut exact = BuehlmannModel::new(BuehlmannConfig::default(), kinetics());
    let mut rounded =
        BuehlmannModel::new(BuehlmannConfig::default().with_round_ceiling(true), kinetics());
    record(&mut exact, meters(40.), minutes(20.), &air);
    record(&mut rounded, meters(40.), minutes(20.), &air);
    let ceiling = unfix(exact.ceiling().as_meters());
    assert!(ceiling > 3. && ceiling < 6.);
    assert_eq!(unfix(rounded.ceiling().as_meters()), ceiling.ceil());
}

#[test]
fn adaptive_ceiling_is_not_deeper_than_the_actual_one() {
    let air = Gas::air();
    let mut actual = BuehlmannModel::new(
        BuehlmannConfig::default().with_gradient_factors(30, 70),
        kinetics(),
    );
    let mut adaptive = BuehlmannModel::new(
        BuehlmannConfig::default()
            .with_gradient_factors(30, 70)
            .with_ceiling_type(CeilingType::Adaptive),
        kinetics(),
    );
    record(&mut actual, meters(40.), minutes(20.), &air);
    record(&mut adaptive, meters(40.), minutes(20.), &air);
    assert!(adaptive.ceiling().as_meters() > 0);
    assert!(adaptive.ceiling().as_meters() <= actual.ceiling().as_meters());
    // a twin always gives the actual ceiling
    assert_eq!(adaptive.fork().ceiling(), actual.fork().ceiling());
}

#[test]
fn ceiling_does_not_rise_while_off_gassing_on_the_way_up() {
    let air = Gas::air();
    let mut model = BuehlmannModel::new(BuehlmannConfig::default(), kinetics());
    record(&mut model, meters(40.), minutes(25.), &air);
    let mut last = model.ceiling();
    for depth in [12., 9., 9., 6., 6., 6., 3.] {
        record(&mut model, meters(depth), minutes(2.), &air);
        let ceiling = model.ceiling();
        assert!(ceiling.as_meters() <= last.as_meters());
        last = ceiling;
    }
}

#[test]
fn equal_gradient_factors_act_as_one() {
    let air = Gas::air();
    let mut model = BuehlmannModel::new(
        BuehlmannConfig::default().with_gradient_factors(70, 70),
        kinetics(),
    );
    record(&mut model, meters(40.), minutes(20.), &air);
    assert!(model.ceiling().as_meters() > 0);
    assert_eq!(model.state.gf_low_depth, None);
    for depth in [0., 3., 17., 40.] {
        assert_eq!(model.max_gf((70, 70), meters(depth)), 70);
    }
    for tissue in model.tissues() {
        assert_eq!(tissue.min_tolerable_amb_pressure, tissue.min_tolerable_amb_pressure(70));
    }
}

#[test]
fn gradient_factor_falls_from_high_at_the_surface_to_low_at_the_anchor() {
    let model = BuehlmannModel::default(kinetics());
    let gf = (30, 70);
    assert_eq!(model.gf_slope_point(gf, meters(20.), meters(0.)), 70);
    assert_eq!(model.gf_slope_point(gf, meters(20.), meters(20.)), 30);
    assert_eq!(model.gf_slope_point(gf, meters(20.), meters(10.)), 50);
    // cut, not rounded: 70 - 40 * 7 / 20 = 56, 70 - 40 * 7.1 / 20 = 55.8
    assert_eq!(model.gf_slope_point(gf, meters(20.), meters(7.)), 56);
    assert_eq!(model.gf_slope_point(gf, meters(20.), meters(7.1)), 55);
    // an anchor at the surface leaves the high factor
    assert_eq!(model.gf_slope_point(gf, meters(0.), meters(0.)), 70);
}

#[test]
fn supersaturation_is_the_greatest_of_the_tissues() {
    let air = Gas::air();
    let mut model = BuehlmannModel::default(kinetics());
    record(&mut model, meters(30.), minutes(30.), &air);
    let Supersaturation { gf_99, gf_surf } = model.supersaturation();
    let mut greatest_99 = 0;
    let mut greatest_surf = 0;
    for tissue in model.tissues() {
        let one = tissue.supersaturation(1013, meters(30.));
        greatest_99 = greatest_99.max(one.gf_99);
        greatest_surf = greatest_surf.max(one.gf_surf);
    }
    assert_eq!(gf_99, greatest_99);
    assert_eq!(gf_surf, greatest_surf);
    assert_eq!(gf_99, 0);
    assert!(gf_surf > fx(100.));
}

#[test]
fn long_surface_interval_on_saturation_in_full_restores_a_new_model() {
    let air = Gas::air();
    let mut model = BuehlmannModel::default(kinetics());
    record(&mut model, meters(30.), minutes(30.), &air);
    let full = Exposure {
        saturation: Saturation { n2: [fx(1.); 16], he: [fx(1.); 16] },
        oxygen: OxygenTerms { cns_retention: 0, otu_per_minute: 0 },
    };
    model.record(Depth::zero(), minutes(10. * 635.), &air, &full);
    let fresh = BuehlmannModel::default(kinetics());
    assert_eq!(model.supersaturation(), fresh.supersaturation());
    assert_eq!(model.tissues(), fresh.tissues());
    // and the fractions that ten of the longest half-times give are full to
    // within a thousandth
    let long = saturation(10. * 635. * 60.);
    for i in 0..16 {
        assert!(fx(1.) - long.n2[i] < fx(1e-3));
        assert!(fx(1.) - long.he[i] < fx(1e-3));
    }
}

#[test]
fn model_starts_at_the_surface_in_balance_with_air() {
    let model = BuehlmannModel::default(kinetics());
    let state = model.dive_state();
    assert_eq!(state.depth, Depth::zero());
    assert_eq!(state.time, Time::zero());
    assert_eq!(state.gas, Gas::air());
    assert_eq!(state.ox_tox, OxTox::default());
    assert_eq!(model.cns(), 0);
    assert_eq!(model.otu(), 0);
    let table = zhl_16c_n2_16a_he_values();
    for (i, tissue) in model.tissues().iter().enumerate() {
        assert_eq!(tissue.no as usize, i + 1);
        assert_eq!(tissue.params, table[i]);
        assert_eq!(tissue.he_ip, 0);
        // 0.79 * (1.013 - 0.0627) bar
        assert_eq!(tissue.n2_ip, fx(0.750737));
        assert_eq!(tissue.total_ip, tissue.n2_ip);
    }
}
