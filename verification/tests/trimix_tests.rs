use dive_deco::{
    zhl_16c_n2_16a_he_values, BuehlmannConfig, BuehlmannModel, Depth, Exposure, Gas, Kinetics,
    OxygenTerms, Saturation, Time,
};

fn fx(value: f64) -> i64 {
    (value * 1e9).round() as i64
}

fn unfix(value: i64) -> f64 {
    value as f64 / 1e9
}

fn meters(value: f64) -> Depth {
    Depth::from_meters(fx(value))
}

fn seconds(value: f64) -> Time {
    Time::from_seconds(fx(value))
}

fn minutes(value: f64) -> Time {
    Time::from_minutes(fx(value))
}

fn gas(o2: f64, he: f64) -> Gas {
    Gas::new(fx(o2), fx(he))
}

fn saturation(span_seconds: f64) -> Saturation {
    let table = zhl_16c_n2_16a_he_values();
    let mut n2 = [0i64; 16];
    let mut he = [0i64; 16];
    for i in 0..16 {
        let n2_half_time = unfix(table[i].n2_half_time);
        let he_half_time = unfix(table[i].he_half_time);
        n2[i] = fx(1.0 - libm::pow(2.0, -(span_seconds / 60.0) / n2_half_time));
        he[i] = fx(1.0 - libm::pow(2.0, -(span_seconds / 60.0) / he_half_time));
    }
    Saturation { n2, he }
}

fn kinetics() -> Kinetics {
    Kinetics { second: saturation(1.0), minute: saturation(60.0), five_minutes: saturation(300.0) }
}

fn oxygen_terms(surface_pressure: u16, depth: Depth, time: Time, gas: &Gas) -> OxygenTerms {
    let pp_o2 = unfix(gas.inspired_partial_pressures(depth, surface_pressure).o2);
    let span_minutes = unfix(time.as_seconds()) / 60.0;
    let otu_per_minute =
        if pp_o2 > 0.5 { libm::pow(0.5 / (pp_o2 - 0.5), -0.8333) } else { 0.0 };
    OxygenTerms {
        cns_retention: fx(libm::pow(2.0, -span_minutes / 90.0)),
        otu_per_minute: fx(otu_per_minute),
    }
}

fn record(model: &mut BuehlmannModel, depth: Depth, time: Time, gas: &Gas) {
    let exposure = Exposure {
        saturation: saturation(unfix(time.as_seconds())),
        oxygen: oxygen_terms(model.config().surface_pressure, depth, time, gas),
    };
    model.record(depth, time, gas, &exposure);
}

fn model_gf(gf: (u8, u8)) -> BuehlmannModel {
    BuehlmannModel::new(BuehlmannConfig::default().with_gradient_factors(gf.0, gf.1), kinetics())
}

fn close(value: f64, expected: f64, tolerance: f64) -> bool {
    (value - expected).abs() <= tolerance
}

#[test]
fn test_tmx_gf_surf() {
    let mut model = model_gf((100, 100));
    let tmx = gas(0.21, 0.35);
    record(&mut model, meters(30.), seconds(300. * 60.), &tmx);
    assert!(close(unfix(model.supersaturation().gf_surf), 333.8214432179558, 1e-6));
}

#[test]
fn test_tmx_ndl() {
    let mut model = model_gf((30, 70));
    let tmx = gas(0.21, 0.35);
    record(&mut model, meters(20.), Time::zero(), &tmx);
    assert_eq!(model.ndl(), minutes(17.));
}

#[test]
fn test_heliox_gf_surf() {
    let mut model = model_gf((100, 100));
    let tmx = gas(0.21, 0.79);
    record(&mut model, meters(30.), seconds(40. * 60.), &tmx);
    assert!(close(unfix(model.supersaturation().gf_surf), 197.93331955365957, 1e-6));
}

#[test]
fn helium_is_taken_up_faster_than_nitrogen() {
    let mut model = model_gf((100, 100));
    let tmx = gas(0.2, 0.4);
    record(&mut model, meters(40.), minutes(10.), &tmx);
    for tissue in model.tissues() {
        // both inspired at 0.4 of the mix, nitrogen from 0.75 bar, helium from none
        assert!(tissue.he_ip > 0);
        assert!(tissue.n2_ip > fx(0.75));
        assert!(tissue.he_ip - 0 > tissue.n2_ip - fx(0.750737));
        assert_eq!(tissue.total_ip, tissue.he_ip + tissue.n2_ip);
    }
}
