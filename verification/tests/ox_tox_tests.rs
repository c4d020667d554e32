use dive_deco::{cns_coefficients, Depth, Gas, OxTox, OxygenTerms, RecordData, Time};

fn fx(value: f64) -> i64 {
    (value * 1e9).round() as i64
}

fn unfix(value: i64) -> f64 {
    value as f64 / 1e9
}

fn meters(value: f64) -> Depth {
    Depth::from_meters(fx(value))
}

fn seconds(value: f64) -> Time {
    Time::from_seconds(fx(value))
}

fn minutes(value: f64) -> Time {
    Time::from_minutes(fx(value))
}

fn gas(o2: f64, he: f64) -> Gas {
    Gas::new(fx(o2), fx(he))
}

fn close(value: f64, expected: f64, tolerance: f64) -> bool {
    (value - expected).abs() <= tolerance
}

fn oxygen_terms(surface_pressure: u16, depth: Depth, time: Time, gas: &Gas) -> OxygenTerms {
    let pp_o2 = unfix(gas.inspired_partial_pressures(depth, surface_pressure).o2);
    let span_minutes = unfix(time.as_seconds()) / 60.0;
    let otu_per_minute =
        if pp_o2 > 0.5 { libm::pow(0.5 / (pp_o2 - 0.5), -0.8333) } else { 0.0 };
    OxygenTerms {
        cns_retention: fx(libm::pow(2.0, -span_minutes / 90.0)),
        otu_per_minute: fx(otu_per_minute),
    }
}

fn terms_for(record: &RecordData) -> OxygenTerms {
    oxygen_terms(1013, record.depth, record.time, &record.gas)
}

#[test]
fn test_default() {
    let ox_tox = OxTox::default();
    let OxTox { cns, otu } = ox_tox;
    assert_eq!(cns, 0);
    assert_eq!(otu, 0);
}

#[test]
fn test_cns_coeffs() {
    let ox_tox = OxTox::default();
    let assignable_cases =
        [(-0.55, false), (0.5, false), (0.55, true), (0.8, true), (1.6, true), (1.66, false)];

    for (pp_o2, is_assignable) in assignable_cases.into_iter() {
        let row = ox_tox.assign_cns_coeffs(fx(pp_o2));
        if is_assignable {
            let row = row.unwrap_or_else(|| panic!("row for ppO2 {} not found", pp_o2));
            assert!(row.lo <= fx(pp_o2) && fx(pp_o2) <= row.hi);
        } else {
            assert_eq!(row, None);
        }
    }
}

#[test]
fn test_cns_segment() {
    let mut ox_tox = OxTox::default();
    let record = RecordData { depth: meters(36.), time: minutes(20.), gas: gas(0.32, 0.) };
    ox_tox.recalculate_cns(&record, 1013, terms_for(&record));
    assert!(close(unfix(ox_tox.cns()), 15.018265, 1e-5));
}

#[test]
fn test_cns_half_time_elimination() {
    let mut ox_tox = OxTox::default();
    let record = RecordData { depth: meters(30.), time: minutes(75.), gas: gas(0.35, 0.) };
    ox_tox.recalculate_cns(&record, 1013, terms_for(&record));
    assert!(close(unfix(ox_tox.cns), 48.31898259550245, 1e-8));
    let mut i = 0;
    while i < 2 {
        let surface = RecordData { depth: Depth::zero(), time: minutes(90.), gas: Gas::air() };
        ox_tox.recalculate_cns(&surface, 1013, terms_for(&surface));
        i += 1;
    }
    assert!(close(unfix(ox_tox.cns), 12.079745648875612, 1e-8));
}

#[test]
fn test_cns_above_max_ppo2() {
    let mut ox_tox = OxTox::default();
    let record = RecordData { depth: meters(30.), time: seconds(400.), gas: gas(0.5, 0.) };
    ox_tox.recalculate_cns(&record, 1013, terms_for(&record));
    assert_eq!(unfix(ox_tox.cns()), 100.)
}

#[test]
fn test_otu_surface() {
    let mut ox_tox = OxTox::default();
    let record = RecordData { depth: Depth::zero(), time: minutes(60.), gas: Gas::air() };
    ox_tox.recalculate_otu(&record, 1013, terms_for(&record));
    assert_eq!(ox_tox.otu(), 0);
}

#[test]
fn test_otu_segment() {
    let mut ox_tox = OxTox::default();
    let record = RecordData { depth: meters(36.), time: minutes(22.), gas: gas(0.32, 0.) };
    ox_tox.recalculate_otu(&record, 1013, terms_for(&record));
    assert!(close(unfix(ox_tox.otu()), 37.75920807052313, 1e-7));
}

#[test]
fn cns_table_rows_start_after_their_lower_bound() {
    let ox_tox = OxTox::default();
    let rows = cns_coefficients();
    assert_eq!(ox_tox.assign_cns_coeffs(fx(0.5)), None);
    assert_eq!(ox_tox.assign_cns_coeffs(fx(0.5) + 1), Some(rows[0]));
    for i in 0..6 {
        assert_eq!(rows[i].hi, rows[i + 1].lo);
        assert_eq!(ox_tox.assign_cns_coeffs(rows[i].hi), Some(rows[i]));
        assert_eq!(ox_tox.assign_cns_coeffs(rows[i].hi + 1), Some(rows[i + 1]));
    }
    assert_eq!(ox_tox.assign_cns_coeffs(fx(1.6)), Some(rows[6]));
    assert_eq!(ox_tox.assign_cns_coeffs(fx(1.6) + 1), None);
}

#[test]
fn cns_table_values() {
    let rows = cns_coefficients();
    let expected = [
        (0.5, 0.6, -1800, 1800),
        (0.6, 0.7, -1500, 1620),
        (0.7, 0.8, -1200, 1410),
        (0.8, 0.9, -900, 1170),
        (0.9, 1.1, -600, 900),
        (1.1, 1.5, -300, 570),
        (1.5, 1.6, -750, 1245),
    ];
    for (row, (lo, hi, slope, intercept)) in rows.iter().zip(expected) {
        assert_eq!((row.lo, row.hi, row.slope, row.intercept), (fx(lo), fx(hi), slope, intercept));
    }
}

#[test]
fn cns_at_an_oxygen_pressure_of_exactly_one_point_six() {
    // 2.5 bar of pure oxygen less the water vapour is no round number, so
    // the oxygen pressure is set through the gas fraction instead.
    let depth = meters(10.);
    let ambient = 1.013 + 1.0 - 0.0627;
    let mix = Gas::new(fx(1.6 / ambient), 0);
    let pp_o2 = mix.inspired_partial_pressures(depth, 1013).o2;
    assert!(pp_o2 <= fx(1.6) && pp_o2 > fx(1.6) - 10);
    let record = RecordData { depth, time: minutes(45.), gas: mix };
    let mut ox_tox = OxTox::default();
    ox_tox.recalculate_cns(&record, 1013, terms_for(&record));
    // the last row allows 45 minutes at 1.6 bar
    assert!(close(unfix(ox_tox.cns()), 100., 1e-4));
}

#[test]
fn cns_stays_between_table_and_surface() {
    // below half a bar of oxygen, but not at the surface: nothing changes
    let start = OxTox { cns: fx(20.), otu: fx(3.) };
    let mut ox_tox = start;
    let record = RecordData { depth: meters(5.), time: minutes(30.), gas: gas(0.21, 0.) };
    ox_tox.recalculate(&record, 1013, terms_for(&record));
    assert_eq!(ox_tox, start);
}

#[test]
fn otu_at_exactly_half_a_bar_adds_what_the_terms_say() {
    let depth = Depth::zero();
    let mix = Gas::new(fx(0.5 / (1.013 - 0.0627)) + 1, 0);
    assert!(mix.inspired_partial_pressures(depth, 1013).o2 >= fx(0.5));
    let record = RecordData { depth, time: minutes(10.), gas: mix };
    let mut ox_tox = OxTox::default();
    ox_tox.recalculate_otu(
        &record,
        1013,
        OxygenTerms { cns_retention: fx(1.), otu_per_minute: fx(0.25) },
    );
    assert_eq!(ox_tox.otu(), fx(2.5));
}

#[test]
fn recalculate_does_both() {
    let record = RecordData { depth: meters(36.), time: minutes(20.), gas: gas(0.32, 0.) };
    let mut both = OxTox::default();
    both.recalculate(&record, 1013, terms_for(&record));
    let mut cns_only = OxTox::default();
    cns_only.recalculate_cns(&record, 1013, terms_for(&record));
    let mut otu_only = OxTox::default();
    otu_only.recalculate_otu(&record, 1013, terms_for(&record));
    assert_eq!(both, OxTox { cns: cns_only.cns(), otu: otu_only.otu() });
    assert!(both.cns() > 0 && both.otu() > 0);
}
