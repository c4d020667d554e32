use dive_deco::{
    zhl_16c_n2_16a_he_values, BuehlmannConfig, BuehlmannModel, CeilingType, DecoRuntime,
    DecoStage, DecoStageType, Depth, Exposure, Gas, Kinetics, OxygenTerms, Saturation, Time,
};

const MAX_GASSES: usize = 16;

fn fx(value: f64) -> i64 {
    (value * 1e9).round() as i64
}

fn unfix(value: i64) -> f64 {
    value as f64 / 1e9
}

fn meters(value: f64) -> Depth {
    Depth::from_meters(fx(value))
}

fn seconds(value: f64) -> Time {
    Time::from_seconds(fx(value))
}

fn minutes(value: f64) -> Time {
    Time::from_minutes(fx(value))
}

fn gas(o2: f64, he: f64) -> Gas {
    Gas::new(fx(o2), fx(he))
}

fn saturation(span_seconds: f64) -> Saturation {
    let table = zhl_16c_n2_16a_he_values();
    let mut n2 = [0i64; 16];
    let mut he = [0i64; 16];
    for i in 0..16 {
        let n2_half_time = unfix(table[i].n2_half_time);
        let he_half_time = unfix(table[i].he_half_time);
        n2[i] = fx(1.0 - libm::pow(2.0, -(span_seconds / 60.0) / n2_half_time));
        he[i] = fx(1.0 - libm::pow(2.0, -(span_seconds / 60.0) / he_half_time));
    }
    Saturation { n2, he }
}

fn kinetics() -> Kinetics {
    Kinetics { second: saturation(1.0), minute: saturation(60.0), five_minutes: saturation(300.0) }
}

fn oxygen_terms(surface_pressure: u16, depth: Depth, time: Time, gas: &Gas) -> OxygenTerms {
    let pp_o2 = unfix(gas.inspired_partial_pressures(depth, surface_pressure).o2);
    let span_minutes = unfix(time.as_seconds()) / 60.0;
    let otu_per_minute =
        if pp_o2 > 0.5 { libm::pow(0.5 / (pp_o2 - 0.5), -0.8333) } else { 0.0 };
    OxygenTerms {
        cns_retention: fx(libm::pow(2.0, -span_minutes / 90.0)),
        otu_per_minute: fx(otu_per_minute),
    }
}

fn record(model: &mut BuehlmannModel, depth: Depth, time: Time, gas: &Gas) {
    let exposure = Exposure {
        saturation: saturation(unfix(time.as_seconds())),
        oxygen: oxygen_terms(model.config().surface_pressure, depth, time, gas),
    };
    model.record(depth, time, gas, &exposure);
}

fn build_gasses(gas: Gas) -> [Gas; MAX_GASSES] {
    let mut gasses = [Gas::default(); MAX_GASSES];
    gasses[0] = gas;
    gasses
}

fn build_2gasses(gas: Gas, gas2: Gas) -> [Gas; MAX_GASSES] {
    let mut gasses = [Gas::default(); MAX_GASSES];
    gasses[0] = gas;
    gasses[1] = gas2;
    gasses
}

fn build_3gasses(gas: Gas, gas2: Gas, gas3: Gas) -> [Gas; MAX_GASSES] {
    let mut gasses = [Gas::default(); MAX_GASSES];
    gasses[0] = gas;
    gasses[1] = gas2;
    gasses[2] = gas3;
    gasses
}

fn stage(
    stage_type: DecoStageType,
    start: f64,
    end: f64,
    duration: f64,
    gas: Gas,
) -> DecoStage {
    DecoStage {
        stage_type,
        start_depth: meters(start),
        end_depth: meters(end),
        duration: seconds(duration),
        gas,
        valid: true,
    }
}

fn assert_deco_stages_eq(deco_stages: Vec<DecoStage>, expected_deco_stages: Vec<DecoStage>) {
    assert_eq!(deco_stages.len(), expected_deco_stages.len());
    for (i, expected_stage) in expected_deco_stages.iter().enumerate() {
        assert_eq!(deco_stages[i].stage_type, expected_stage.stage_type);
        assert_eq!(deco_stages[i].start_depth, expected_stage.start_depth);
        assert_eq!(deco_stages[i].end_depth, expected_stage.end_depth);
        assert_eq!(deco_stages[i].duration, expected_stage.duration);
        assert_eq!(deco_stages[i].gas, expected_stage.gas);
    }
}

fn get_first_deco_stop_depth(deco: DecoRuntime) -> Option<Depth> {
    let first_stop =
        deco.deco_stages.into_iter().find(|stage| stage.stage_type == DecoStageType::DecoStop);
    if let Some(stop) = first_stop {
        return Some(stop.start_depth);
    }
    None
}

#[test]
fn test_deco_ascent_no_deco() {
    let air = Gas::air();
    let mut model = BuehlmannModel::default(kinetics());
    record(&mut model, meters(20.), minutes(5.), &air);

    let DecoRuntime { deco_stages, tts, .. } = model.deco(build_gasses(air)).unwrap();
    assert_eq!(deco_stages.len(), 1);
    assert_eq!(tts, minutes(2.));
}

#[test]
fn test_deco_single_gas() {
    let air = Gas::air();
    let mut model = BuehlmannModel::new(
        BuehlmannConfig::default().with_deco_ascent_rate(fx(9.)),
        kinetics(),
    );
    record(&mut model, meters(40.), minutes(20.), &air);

    let DecoRuntime { deco_stages, tts, .. } = model.deco(build_gasses(air)).unwrap();

    assert_eq!(tts, seconds(754.));
    assert_eq!(deco_stages.len(), 5);

    let expected_deco_stages = vec![
        stage(DecoStageType::Ascent, 40.0, 6.0, 226., air),
        stage(DecoStageType::DecoStop, 6.0, 6.0, 88., air),
        stage(DecoStageType::Ascent, 6.0, 3.0, 20., air),
        stage(DecoStageType::DecoStop, 3.0, 3.0, 400., air),
        stage(DecoStageType::Ascent, 3.0, 0.0, 20., air),
    ];

    assert_deco_stages_eq(deco_stages, expected_deco_stages);
}

#[test]
fn test_deco_multi_gas() {
    let mut model = BuehlmannModel::new(
        BuehlmannConfig::default().with_deco_ascent_rate(fx(9.)),
        kinetics(),
    );

    let air = gas(0.21, 0.);
    let ean_50 = gas(0.50, 0.);

    record(&mut model, meters(40.), minutes(20.), &air);

    let DecoRuntime { deco_stages, tts, .. } = model.deco(build_2gasses(air, ean_50)).unwrap();

    let expected_deco_stages = vec![
        stage(DecoStageType::Ascent, 40., 22., 120., air),
        stage(DecoStageType::GasSwitch, 22.0, 22.0, 0., ean_50),
        stage(DecoStageType::Ascent, 22., 6., 106., ean_50),
        stage(DecoStageType::DecoStop, 6.0, 6.0, 34., ean_50),
        stage(DecoStageType::Ascent, 6.0, 3.0, 20., ean_50),
        stage(DecoStageType::DecoStop, 3.0, 3.0, 291., ean_50),
        stage(DecoStageType::Ascent, 3.0, 0.0, 20., ean_50),
    ];

    assert_deco_stages_eq(deco_stages, expected_deco_stages);
    assert_eq!(tts, seconds(591.));
}

#[test]
fn test_deco_with_deco_mod_at_bottom() {
    let mut model = BuehlmannModel::new(
        BuehlmannConfig::default().with_deco_ascent_rate(fx(9.)),
        kinetics(),
    );
    let air = Gas::air();
    let ean_36 = gas(0.36, 0.);

    record(&mut model, meters(30.), minutes(30.), &air);

    let DecoRuntime { deco_stages, tts, .. } = model.deco(build_2gasses(air, ean_36)).unwrap();

    let expected_deco_stages = vec![
        stage(DecoStageType::GasSwitch, 30.0, 30.0, 0., ean_36),
        stage(DecoStageType::Ascent, 30.0, 3.0, 180., ean_36),
        stage(DecoStageType::DecoStop, 3.0, 3.0, 268., ean_36),
        stage(DecoStageType::Ascent, 3.0, 0.0, 20., ean_36),
    ];
    assert_deco_stages_eq(deco_stages, expected_deco_stages);
    assert_eq!(tts, seconds(468.));
}

#[test]
fn test_tts_delta() {
    let mut model = BuehlmannModel::new(
        BuehlmannConfig::default().with_gradient_factors(30, 70),
        kinetics(),
    );
    let air = Gas::air();
    let ean_50 = gas(0.5, 0.);
    let gas_mixes = build_2gasses(air, ean_50);
    record(&mut model, meters(40.), minutes(20.), &air);
    let deco_1 = model.deco(gas_mixes).unwrap();
    record(&mut model, meters(40.), minutes(5.), &air);
    let deco_2 = model.deco(gas_mixes).unwrap();
    assert_eq!(deco_1.tts_at_5, deco_2.tts);
    assert_eq!(deco_1.tts_delta_at_5, deco_2.tts.minus(deco_1.tts));
}

#[test]
fn test_runtime_on_missed_stop() {
    let air = Gas::air();
    let ean_50 = gas(0.50, 0.);
    let available_gas_mixes = build_2gasses(air, ean_50);

    let configs = vec![
        BuehlmannConfig::default()
            .with_ceiling_type(CeilingType::Actual)
            .with_gradient_factors(30, 70),
        BuehlmannConfig::default()
            .with_ceiling_type(CeilingType::Adaptive)
            .with_gradient_factors(30, 70),
    ];

    for config in configs.into_iter() {
        let mut model = BuehlmannModel::new(config, kinetics());
        record(&mut model, meters(40.), minutes(30.), &air);
        record(&mut model, meters(22.), Time::zero(), &air);
        let initial_deco = model.deco(available_gas_mixes).unwrap();
        let initial_deco_stop_depth = get_first_deco_stop_depth(initial_deco);

        record(&mut model, meters(20.), Time::zero(), &air);
        let between_deco = model.deco(available_gas_mixes).unwrap();
        let between_deco_stop_depth = get_first_deco_stop_depth(between_deco);

        record(&mut model, meters(15.), Time::zero(), &air);
        let below_deco = model.deco(available_gas_mixes).unwrap();
        let below_deco_stop_depth = get_first_deco_stop_depth(below_deco);

        assert_eq!(
            initial_deco_stop_depth, between_deco_stop_depth,
            "below deco stop, above ceiling"
        );
        assert_eq!(initial_deco_stop_depth, below_deco_stop_depth, "below ceiling");
    }
}

#[test]
fn test_deco_runtime_integrity() {
    let config = BuehlmannConfig::new()
        .with_gradient_factors(30, 70)
        .with_ceiling_type(CeilingType::Adaptive);
    let mut model = BuehlmannModel::new(config, kinetics());
    let air = Gas::air();
    let ean_50 = gas(0.50, 0.);
    let oxygen = gas(1., 0.);
    record(&mut model, meters(40.), minutes(20.), &air);

    let deco_runtime = model.deco(build_3gasses(air, ean_50, oxygen)).unwrap();
    let deco_stages = deco_runtime.deco_stages;

    deco_stages.iter().reduce(|a, b| {
        assert!(
            b.start_depth == a.end_depth,
            "next stage start depth ({:?}@{:?}m) should equal previous stage end depth ({:?}@{:?}m)",
            b.stage_type,
            b.start_depth,
            a.stage_type,
            a.end_depth
        );
        if a.stage_type == DecoStageType::GasSwitch {
            let gas_switch_target_mod = a.gas.max_operating_depth(fx(1.6));
            assert!(a.start_depth.as_meters() <= gas_switch_target_mod.as_meters());
        }
        b
    });
}
