use dive_deco::{
    BuehlmannConfig, CeilingType, ConfigValidationErr, ConfigValidationErrorField,
    ConfigValidationErrorReason, DecoModelConfig,
};

fn fx(value: f64) -> i64 {
    (value * 1e9).round() as i64
}

#[test]
fn test_default_config() {
    let config = BuehlmannConfig::default();
    assert_eq!(config.validate(), Ok(()));
    assert_eq!(config.gf, (100, 100));
    assert_eq!(config.deco_ascent_rate, fx(10.));
    assert_eq!(config.ceiling_type, CeilingType::Actual);
    assert!(!config.round_ceiling);
}

#[test]
fn test_variable_gradient_factors() {
    let config = BuehlmannConfig::new().with_gradient_factors(30, 70);
    assert_eq!(config.validate(), Ok(()));
    assert_eq!(config.gf, (30, 70));
}

#[test]
fn test_gf_range() {
    let invalid_gf_range_cases = [(1, 101), (0, 99), (120, 240)];
    for case in invalid_gf_range_cases {
        let (gf_low, gf_high) = case;
        let config = BuehlmannConfig::new().with_gradient_factors(gf_low, gf_high);
        assert_eq!(
            config.validate(),
            Err(ConfigValidationErr::new(
                ConfigValidationErrorField::GradientFactors,
                ConfigValidationErrorReason::GF_RANGE_ERR_MSG
            ))
        );
    }
}

#[test]
fn test_gf_order() {
    let config = BuehlmannConfig::new().with_gradient_factors(90, 80);
    assert_eq!(
        config.validate(),
        Err(ConfigValidationErr::new(
            ConfigValidationErrorField::GradientFactors,
            ConfigValidationErrorReason::GF_ORDER_ERR_MSG
        ))
    );
}

#[test]
fn test_surface_pressure_config() {
    let config = BuehlmannConfig::new().with_surface_pressure(1032);
    assert_eq!(config.validate(), Ok(()));
    assert_eq!(config.surface_pressure, 1032);
}

#[test]
fn test_invalid_surface_pressure_values() {
    let invalid_surface_pressure_cases = [0, 100, 2000];
    for invalid_case in invalid_surface_pressure_cases {
        let config = BuehlmannConfig::new().with_surface_pressure(invalid_case);
        assert_eq!(
            config.validate(),
            Err(ConfigValidationErr::new(
                ConfigValidationErrorField::SurfacePressure,
                ConfigValidationErrorReason::SURFACE_PRESSURE_ERR_MSG
            ))
        );
    }
}

#[test]
fn test_deco_ascent_rate_config() {
    let config = BuehlmannConfig::new().with_deco_ascent_rate(fx(15.5));
    assert_eq!(config.validate(), Ok(()));
    assert_eq!(config.deco_ascent_rate, fx(15.5));
}

#[test]
fn test_invalid_deco_ascent_rate_values() {
    let invalid_deco_ascent_rate_cases = [-3., 0.5, 31.0, 50.5];
    for invalid_case in invalid_deco_ascent_rate_cases {
        let config = BuehlmannConfig::new().with_deco_ascent_rate(fx(invalid_case));
        assert_eq!(
            config.validate(),
            Err(ConfigValidationErr::new(
                ConfigValidationErrorField::DecoAscentRate,
                ConfigValidationErrorReason::DECO_ASCENT_RATE_ERR_MSG
            ))
        );
    }
}

#[test]
fn validation_bounds_are_inclusive() {
    for (low, high) in [(1, 1), (1, 100), (100, 100), (50, 50)] {
        assert_eq!(BuehlmannConfig::new().with_gradient_factors(low, high).validate(), Ok(()));
    }
    for pressure in [500, 1500] {
        assert_eq!(BuehlmannConfig::new().with_surface_pressure(pressure).validate(), Ok(()));
    }
    for pressure in [499, 1501] {
        assert!(BuehlmannConfig::new().with_surface_pressure(pressure).validate().is_err());
    }
    for rate in [1.0, 30.0] {
        assert_eq!(BuehlmannConfig::new().with_deco_ascent_rate(fx(rate)).validate(), Ok(()));
    }
    assert!(BuehlmannConfig::new().with_deco_ascent_rate(fx(1.0) - 1).validate().is_err());
    assert!(BuehlmannConfig::new().with_deco_ascent_rate(fx(30.0) + 1).validate().is_err());
}

#[test]
fn validation_reports_the_first_fault() {
    let config = BuehlmannConfig::new()
        .with_gradient_factors(90, 80)
        .with_surface_pressure(100)
        .with_deco_ascent_rate(0);
    assert_eq!(
        config.validate(),
        Err(ConfigValidationErr::new(
            ConfigValidationErrorField::GradientFactors,
            ConfigValidationErrorReason::GF_ORDER_ERR_MSG
        ))
    );
    let config = BuehlmannConfig::new().with_surface_pressure(100).with_deco_ascent_rate(0);
    assert_eq!(
        config.validate(),
        Err(ConfigValidationErr::new(
            ConfigValidationErrorField::SurfacePressure,
            ConfigValidationErrorReason::SURFACE_PRESSURE_ERR_MSG
        ))
    );
}

#[test]
fn builders_set_one_field_each() {
    let config = BuehlmannConfig::new()
        .with_ceiling_type(CeilingType::Adaptive)
        .with_round_ceiling(true)
        .with_all_m_values_recalculated(false);
    assert_eq!(config.ceiling_type(), CeilingType::Adaptive);
    assert!(config.round_ceiling());
    assert!(!config.recalc_all_tissues_m_values);
    assert_eq!(config.gf, (100, 100));
    assert_eq!(config.surface_pressure(), 1013);
    assert_eq!(config.deco_ascent_rate(), fx(10.));
}

#[test]
fn validation_error_keeps_field_and_reason() {
    let error = ConfigValidationErr::new(
        ConfigValidationErrorField::DecoAscentRate,
        ConfigValidationErrorReason::OutOfRange,
    );
    assert_eq!(error.field, ConfigValidationErrorField::DecoAscentRate);
    assert_eq!(error.reason, ConfigValidationErrorReason::OutOfRange);
}
