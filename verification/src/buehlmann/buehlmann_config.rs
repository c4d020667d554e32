//! Settings of the model and their validation.
use vstd::prelude::*;
use crate::common::deco_model::{
    ConfigValidationErr,
    ConfigValidationErrorField,
    ConfigValidationErrorReason,
    DecoModelConfig,
};
use crate::common::fixed::SCALE;
use crate::common::global_types::{
    AscentRatePerMinute,
    CeilingType,
    GradientFactors,
    MbarPressure,
};

verus! {

/// Lowest accepted ascent rate: one metre per minute.
pub const MIN_DECO_ASCENT_RATE: AscentRatePerMinute = 1_000_000_000;

/// Highest accepted ascent rate: thirty metres per minute.
pub const MAX_DECO_ASCENT_RATE: AscentRatePerMinute = 30_000_000_000;

#[derive(Clone, Copy, Debug, PartialEq, Eq)]
pub struct BuehlmannConfig {
    pub gf: GradientFactors,
    pub surface_pressure: MbarPressure,
    pub deco_ascent_rate: AscentRatePerMinute,
    pub ceiling_type: CeilingType,
    pub round_ceiling: bool,
    pub recalc_all_tissues_m_values: bool,
}

impl BuehlmannConfig {
    /// The settings a model starts from: gradient factors 100/100, 1013
    /// millibar, ten metres per minute, the actual ceiling unrounded, every
    /// tissue recalculated.
    pub open spec fn default_spec() -> BuehlmannConfig {
        BuehlmannConfig {
            gf: (100u8, 100u8),
            surface_pressure: 1013,
            deco_ascent_rate: (10 * SCALE) as i64,
            ceiling_type: CeilingType::Actual,
            round_ceiling: false,
            recalc_all_tissues_m_values: true,
        }
    }

    /// What is wrong with the gradient factors, if anything.
    pub open spec fn gradient_factors_check(gf: GradientFactors) -> Result<
        (),
        ConfigValidationErr,
    > {
        if !(1 <= gf.0 <= 100) || !(1 <= gf.1 <= 100) {
            Err(
                ConfigValidationErr {
                    field: ConfigValidationErrorField::GradientFactors,
                    reason: ConfigValidationErrorReason::GF_RANGE_ERR_MSG,
                },
            )
        } else if gf.0 > gf.1 {
            Err(
                ConfigValidationErr {
                    field: ConfigValidationErrorField::GradientFactors,
                    reason: ConfigValidationErrorReason::GF_ORDER_ERR_MSG,
                },
            )
        } else {
            Ok(())
        }
    }

    /// What is wrong with the surface pressure, if anything.
    pub open spec fn surface_pressure_check(surface_pressure: MbarPressure) -> Result<
        (),
        ConfigValidationErr,
    > {
        if 500 <= surface_pressure <= 1500 {
            Ok(())
        } else {
            Err(
                ConfigValidationErr {
                    field: ConfigValidationErrorField::SurfacePressure,
                    reason: ConfigValidationErrorReason::SURFACE_PRESSURE_ERR_MSG,
                },
            )
        }
    }

    /// What is wrong with the ascent rate, if anything.
    pub open spec fn deco_ascent_rate_check(deco_ascent_rate: AscentRatePerMinute) -> Result<
        (),
        ConfigValidationErr,
    > {
        if MIN_DECO_ASCENT_RATE <= deco_ascent_rate <= MAX_DECO_ASCENT_RATE {
            Ok(())
        } else {
            Err(
                ConfigValidationErr {
                    field: ConfigValidationErrorField::DecoAscentRate,
                    reason: ConfigValidationErrorReason::DECO_ASCENT_RATE_ERR_MSG,
                },
            )
        }
    }

    /// The first complaint in the order gradient factors, surface pressure,
    /// ascent rate.
    pub open spec fn validation(&self) -> Result<(), ConfigValidationErr> {
        if Self::gradient_factors_check(self.gf).is_err() {
            Self::gradient_factors_check(self.gf)
        } else if Self::surface_pressure_check(self.surface_pressure).is_err() {
            Self::surface_pressure_check(self.surface_pressure)
        } else {
            Self::deco_ascent_rate_check(self.deco_ascent_rate)
        }
    }

    /// `1 <= gf_low <= gf_high <= 100`, a surface pressure of 500 to 1500
    /// millibar and an ascent rate of 1 to 30 metres per minute.
    pub open spec fn is_valid(&self) -> bool {
        &&& 1 <= self.gf.0 <= self.gf.1 <= 100
        &&& 500 <= self.surface_pressure <= 1500
        &&& MIN_DECO_ASCENT_RATE <= self.deco_ascent_rate <= MAX_DECO_ASCENT_RATE
    }

    pub fn new() -> (r: Self)
        ensures
            r == Self::default_spec(),
            r.is_valid(),
    {
        Self {
            gf: (100, 100),
            surface_pressure: 1013,
            deco_ascent_rate: 10 * SCALE,
            ceiling_type: CeilingType::Actual,
            round_ceiling: false,
            recalc_all_tissues_m_values: true,
        }
    }

    pub fn with_gradient_factors(self, gf_low: u8, gf_high: u8) -> (r: Self)
        ensures
            r == (BuehlmannConfig { gf: (gf_low, gf_high), ..self }),
    {
        let mut config = self;
        config.gf = (gf_low, gf_high);
        config
    }

    pub fn with_surface_pressure(self, surface_pressure: MbarPressure) -> (r: Self)
        ensures
            r == (BuehlmannConfig { surface_pressure, ..self }),
    {
        let mut config = self;
        config.surface_pressure = surface_pressure;
        config
    }

    pub fn with_deco_ascent_rate(self, deco_ascent_rate: AscentRatePerMinute) -> (r: Self)
        ensures
            r == (BuehlmannConfig { deco_ascent_rate, ..self }),
    {
        let mut config = self;
        config.deco_ascent_rate = deco_ascent_rate;
        config
    }

    pub fn with_ceiling_type(self, ceiling_type: CeilingType) -> (r: Self)
        ensures
            r == (BuehlmannConfig { ceiling_type, ..self }),
    {
        let mut config = self;
        config.ceiling_type = ceiling_type;
        config
    }

    pub fn with_round_ceiling(self, round_ceiling: bool) -> (r: Self)
        ensures
            r == (BuehlmannConfig { round_ceiling, ..self }),
    {
        let mut config = self;
        config.round_ceiling = round_ceiling;
        config
    }

    pub fn with_all_m_values_recalculated(self, recalc_all_tissues_m_values: bool) -> (r: Self)
        ensures
            r == (BuehlmannConfig { recalc_all_tissues_m_values, ..self }),
    {
        let mut config = self;
        config.recalc_all_tissues_m_values = recalc_all_tissues_m_values;
        config
    }

    fn validate_gradient_factors(&self, gf: &GradientFactors) -> (r: Result<
        (),
        ConfigValidationErr,
    >)
        ensures
            r == Self::gradient_factors_check(*gf),
    {
        let (gf_low, gf_high) = *gf;
        if gf_low < 1 || gf_low > 100 || gf_high < 1 || gf_high > 100 {
            return Err(
                ConfigValidationErr::new(
                    ConfigValidationErrorField::GradientFactors,
                    ConfigValidationErrorReason::GF_RANGE_ERR_MSG,
                ),
            );
        }
        if gf_low > gf_high {
            return Err(
                ConfigValidationErr::new(
                    ConfigValidationErrorField::GradientFactors,
                    ConfigValidationErrorReason::GF_ORDER_ERR_MSG,
                ),
            );
        }
        Ok(())
    }

    fn validate_surface_pressure(&self, surface_pressure: &MbarPressure) -> (r: Result<
        (),
        ConfigValidationErr,
    >)
        ensures
            r == Self::surface_pressure_check(*surface_pressure),
    {
        if *surface_pressure < 500 || *surface_pressure > 1500 {
            return Err(
                ConfigValidationErr::new(
                    ConfigValidationErrorField::SurfacePressure,
                    ConfigValidationErrorReason::SURFACE_PRESSURE_ERR_MSG,
                ),
            );
        }
        Ok(())
    }

    fn validate_deco_ascent_rate(&self, deco_ascent_rate: &AscentRatePerMinute) -> (r: Result<
        (),
        ConfigValidationErr,
    >)
        ensures
            r == Self::deco_ascent_rate_check(*deco_ascent_rate),
    {
        if *deco_ascent_rate < MIN_DECO_ASCENT_RATE || *deco_ascent_rate > MAX_DECO_ASCENT_RATE {
            return Err(
                ConfigValidationErr::new(
                    ConfigValidationErrorField::DecoAscentRate,
                    ConfigValidationErrorReason::DECO_ASCENT_RATE_ERR_MSG,
                ),
            );
        }
        Ok(())
    }
}

impl Default for BuehlmannConfig {
    fn default() -> (r: Self)
        ensures
            r == BuehlmannConfig::default_spec(),
            r.is_valid(),
    {
        BuehlmannConfig::new()
    }
}

impl DecoModelConfig for BuehlmannConfig {
    fn validate(&self) -> (r: Result<(), ConfigValidationErr>)
        ensures
            r == self.validation(),
            r.is_ok() <==> self.is_valid(),
    {
        match self.validate_gradient_factors(&self.gf) {
            Err(e) => {
                return Err(e);
            },
            Ok(_) => {},
        }
        match self.validate_surface_pressure(&self.surface_pressure) {
            Err(e) => {
                return Err(e);
            },
            Ok(_) => {},
        }
        self.validate_deco_ascent_rate(&self.deco_ascent_rate)
    }

    fn surface_pressure(&self) -> (r: MbarPressure)
        ensures
            r == self.surface_pressure,
    {
        self.surface_pressure
    }

    fn deco_ascent_rate(&self) -> (r: AscentRatePerMinute)
        ensures
            r == self.deco_ascent_rate,
    {
        self.deco_ascent_rate
    }

    fn ceiling_type(&self) -> (r: CeilingType)
        ensures
            r == self.ceiling_type,
    {
        self.ceiling_type
    }

    fn round_ceiling(&self) -> (r: bool)
        ensures
            r == self.round_ceiling,
    {
        self.round_ceiling
    }
}

} // verus!
