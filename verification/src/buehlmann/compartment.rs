//! One tissue: how it takes up inert gas and what ambient pressure it
//! tolerates.
use vstd::prelude::*;
use crate::buehlmann::buehlmann_config::BuehlmannConfig;
use crate::buehlmann::zhl_values::ZHLParams;
use crate::common::depth::Depth;
use crate::common::fixed::{
    from_int,
    minus,
    over,
    over_nonnegative,
    plus,
    scaled,
    scaled_monotone,
    times,
    times_fraction_at_most,
    times_monotone,
    times_one,
    times_spec,
    Fixed,
    SCALE,
};
use crate::common::gas::{ambient_pressure, Gas, MBAR};
use crate::common::global_types::{GradientFactor, MbarPressure, Pressure};
use crate::common::record::RecordData;

verus! {

/// One tissue of the model: its constants, the inert gases it holds and the
/// lowest ambient pressure it tolerates.
#[derive(Clone, Copy, Debug, PartialEq, Eq, Structural)]
pub struct Compartment {
    /// Number of the tissue, from one.
    pub no: u8,
    /// Lowest tolerated ambient pressure after the last recalculation.
    pub min_tolerable_amb_pressure: Pressure,
    /// Helium loading.
    pub he_ip: Pressure,
    /// Nitrogen loading.
    pub n2_ip: Pressure,
    /// Sum of both loadings.
    pub total_ip: Pressure,
    pub params: ZHLParams,
}

/// Supersaturation in percent of the tolerated one: at the current depth
/// and as it would be at the surface.
#[derive(Clone, Copy, Debug, PartialEq, Eq, Structural)]
pub struct Supersaturation {
    pub gf_99: Fixed,
    pub gf_surf: Fixed,
}

/// A gradient factor in percent as a fraction.
pub open spec fn gf_fraction(gf: GradientFactor) -> Fixed {
    scaled(from_int(gf as i32), 1, 100)
}

/// A coefficient of both gases, weighted by their loadings; that of the
/// one gas where the tissue holds nothing of the other.
pub open spec fn weighted_param(
    he_param: Fixed,
    he_pp: Pressure,
    n2_param: Fixed,
    n2_pp: Pressure,
) -> Fixed {
    if he_pp == 0 {
        n2_param
    } else if n2_pp == 0 {
        he_param
    } else {
        over(plus(times(he_param, he_pp), times(n2_param, n2_pp)), plus(he_pp, n2_pp))
    }
}

/// The loading after a step of `fraction` towards the inspired pressure.
pub open spec fn loaded(load: Pressure, inspired: Pressure, fraction: Fixed) -> Pressure {
    plus(load, times(minus(inspired, load), fraction))
}

/// Supersaturation in percent of the one that `m_value` allows.
pub open spec fn gradient_percent(total_ip: Pressure, p_amb: Pressure, m_value: Pressure) -> Fixed {
    scaled(over(minus(total_ip, p_amb), minus(m_value, p_amb)), 100, 1)
}

impl Default for Supersaturation {
    fn default() -> (r: Self)
        ensures
            r.gf_99 == 0,
            r.gf_surf == 0,
    {
        Supersaturation { gf_99: 0, gf_surf: 0 }
    }
}

impl Compartment {
    /// Coefficient `a` for the gases as held now.
    pub open spec fn a_weighted(&self) -> Fixed {
        weighted_param(self.params.he_a, self.he_ip, self.params.n2_a, self.n2_ip)
    }

    /// Coefficient `b` for the gases as held now.
    pub open spec fn b_weighted(&self) -> Fixed {
        weighted_param(self.params.he_b, self.he_ip, self.params.n2_b, self.n2_ip)
    }

    /// Coefficient `a` scaled by the gradient factor.
    pub open spec fn a_adjusted(&self, max_gf: GradientFactor) -> Fixed {
        times(self.a_weighted(), gf_fraction(max_gf))
    }

    /// Coefficient `b` scaled by the gradient factor: `b / (g - g b + b)`.
    pub open spec fn b_adjusted(&self, max_gf: GradientFactor) -> Fixed {
        let g = gf_fraction(max_gf);
        let b = self.b_weighted();
        over(b, plus(minus(g, times(g, b)), b))
    }

    /// Lowest tolerated ambient pressure under a gradient factor:
    /// `(p - g a) b / (g - g b + b)`.
    pub open spec fn tolerable_spec(&self, max_gf: GradientFactor) -> Pressure {
        times(minus(self.total_ip, self.a_adjusted(max_gf)), self.b_adjusted(max_gf))
    }

    /// Highest tolerated loading at an ambient pressure under a gradient
    /// factor.
    pub open spec fn m_value_spec(&self, p_amb: Pressure, max_gf: GradientFactor) -> Pressure {
        plus(self.a_adjusted(max_gf), over(p_amb, self.b_adjusted(max_gf)))
    }

    /// The tissue after a record, of which it takes up the given fractions.
    pub open spec fn recalculated(
        self,
        record: RecordData,
        max_gf: GradientFactor,
        surface_pressure: MbarPressure,
        n2_fraction: Fixed,
        he_fraction: Fixed,
    ) -> Compartment {
        let inspired = record.gas.inspired_partial_pressures(record.depth, surface_pressure);
        let he_ip = loaded(self.he_ip, inspired.he, he_fraction);
        let n2_ip = loaded(self.n2_ip, inspired.n2, n2_fraction);
        let held = Compartment { he_ip, n2_ip, total_ip: plus(he_ip, n2_ip), ..self };
        Compartment { min_tolerable_amb_pressure: held.tolerable_spec(max_gf), ..held }
    }

    /// The tissue with its tolerated pressure taken anew under another
    /// gradient factor; what it holds stays.
    pub open spec fn regraded(self, max_gf: GradientFactor) -> Compartment {
        Compartment { min_tolerable_amb_pressure: self.tolerable_spec(max_gf), ..self }
    }

    pub open spec fn ceiling_spec(&self, surface_pressure: MbarPressure) -> Depth {
        let ceil = scaled(
            minus(self.min_tolerable_amb_pressure, (surface_pressure * MBAR) as i64),
            10,
            1,
        );
        Depth { m: if ceil < 0 { 0 } else { ceil } }
    }

    pub open spec fn supersaturation_spec(
        &self,
        surface_pressure: MbarPressure,
        depth: Depth,
    ) -> Supersaturation {
        let p_surf = (surface_pressure * MBAR) as i64;
        let p_amb = ambient_pressure(depth, surface_pressure);
        Supersaturation {
            gf_99: gradient_percent(self.total_ip, p_amb, self.m_value_spec(p_amb, 100)),
            gf_surf: gradient_percent(self.total_ip, p_surf, self.m_value_spec(p_surf, 100)),
        }
    }

    /// A tissue in balance with air at the surface.
    pub open spec fn new_spec(no: u8, params: ZHLParams, model_config: BuehlmannConfig) -> Compartment {
        let inspired = Gas::air_spec().inspired_partial_pressures(
            Depth { m: 0 },
            model_config.surface_pressure,
        );
        let held = Compartment {
            no,
            params,
            he_ip: inspired.he,
            n2_ip: inspired.n2,
            total_ip: plus(inspired.he, inspired.n2),
            min_tolerable_amb_pressure: 0,
        };
        Compartment { min_tolerable_amb_pressure: held.tolerable_spec(model_config.gf.1), ..held }
    }

    #[verifier::when_used_as_spec(new_spec)]
    pub fn new(no: u8, params: ZHLParams, model_config: BuehlmannConfig) -> (r: Self)
        ensures
            r == Self::new_spec(no, params, model_config),
    {
        let inspired = Gas::air().inspired_partial_pressures(
            Depth::zero(),
            model_config.surface_pressure,
        );
        let mut compartment = Self {
            no,
            params,
            he_ip: inspired.he,
            n2_ip: inspired.n2,
            total_ip: plus(inspired.he, inspired.n2),
            min_tolerable_amb_pressure: 0,
        };
        compartment.min_tolerable_amb_pressure = compartment.min_tolerable_amb_pressure(
            model_config.gf.1,
        );
        compartment
    }

    /// Takes up inert gas over a record and takes the tolerated pressure
    /// anew. `n2_fraction` and `he_fraction` say how far the tissue moves
    /// towards the inspired pressures in the record's time.
    pub fn recalculate(
        &mut self,
        record: &RecordData,
        max_gf: GradientFactor,
        surface_pressure: MbarPressure,
        n2_fraction: Fixed,
        he_fraction: Fixed,
    )
        ensures
            *final(self) == old(self).recalculated(
                *record,
                max_gf,
                surface_pressure,
                n2_fraction,
                he_fraction,
            ),
    {
        let inspired = record.gas.inspired_partial_pressures(record.depth, surface_pressure);
        self.he_ip = plus(self.he_ip, times(minus(inspired.he, self.he_ip), he_fraction));
        self.n2_ip = plus(self.n2_ip, times(minus(inspired.n2, self.n2_ip), n2_fraction));
        self.total_ip = plus(self.he_ip, self.n2_ip);
        self.min_tolerable_amb_pressure = self.min_tolerable_amb_pressure(max_gf);
    }

    /// Takes the tolerated pressure anew under another gradient factor.
    pub fn regrade(&mut self, max_gf: GradientFactor)
        ensures
            *final(self) == old(self).regraded(max_gf),
    {
        self.min_tolerable_amb_pressure = self.min_tolerable_amb_pressure(max_gf);
    }

    /// The shallowest depth the tissue tolerates; never negative.
    #[verifier::when_used_as_spec(ceiling_spec)]
    pub fn ceiling(&self, surface_pressure: MbarPressure) -> (r: Depth)
        ensures
            r == self.ceiling_spec(surface_pressure),
            r.m >= 0,
    {
        let ceil: i64 = scaled(
            minus(self.min_tolerable_amb_pressure, surface_pressure as i64 * MBAR),
            10,
            1,
        );
        Depth { m: if ceil < 0 { 0 } else { ceil } }
    }

    /// Supersaturation at a depth and at the surface, in percent.
    #[verifier::when_used_as_spec(supersaturation_spec)]
    pub fn supersaturation(&self, surface_pressure: MbarPressure, depth: Depth) -> (r:
        Supersaturation)
        ensures
            r == self.supersaturation_spec(surface_pressure, depth),
    {
        let p_surf: i64 = surface_pressure as i64 * MBAR;
        let p_amb: i64 = ambient_pressure(depth, surface_pressure);
        let m_value: i64 = self.m_value(p_amb, 100);
        let m_value_surf: i64 = self.m_value(p_surf, 100);
        Supersaturation {
            gf_99: scaled(over(minus(self.total_ip, p_amb), minus(m_value, p_amb)), 100, 1),
            gf_surf: scaled(
                over(minus(self.total_ip, p_surf), minus(m_value_surf, p_surf)),
                100,
                1,
            ),
        }
    }

    #[verifier::when_used_as_spec(m_value_spec)]
    pub fn m_value(&self, p_amb: Pressure, max_gf: GradientFactor) -> (r: Pressure)
        ensures
            r == self.m_value_spec(p_amb, max_gf),
    {
        let (a_adjusted, b_adjusted) = self.max_gf_adjusted_zhl_params(max_gf);
        plus(a_adjusted, over(p_amb, b_adjusted))
    }

    #[verifier::when_used_as_spec(tolerable_spec)]
    pub fn min_tolerable_amb_pressure(&self, max_gf: GradientFactor) -> (r: Pressure)
        ensures
            r == self.tolerable_spec(max_gf),
    {
        let (a_adjusted, b_adjusted) = self.max_gf_adjusted_zhl_params(max_gf);
        times(minus(self.total_ip, a_adjusted), b_adjusted)
    }

    fn weighted_zhl_params(&self) -> (r: (Fixed, Fixed))
        ensures
            r.0 == self.a_weighted(),
            r.1 == self.b_weighted(),
    {
        if self.he_ip == 0 {
            return (self.params.n2_a, self.params.n2_b);
        }
        if self.n2_ip == 0 {
            return (self.params.he_a, self.params.he_b);
        }
        let sum: i64 = plus(self.he_ip, self.n2_ip);
        let a: i64 = over(
            plus(times(self.params.he_a, self.he_ip), times(self.params.n2_a, self.n2_ip)),
            sum,
        );
        let b: i64 = over(
            plus(times(self.params.he_b, self.he_ip), times(self.params.n2_b, self.n2_ip)),
            sum,
        );
        (a, b)
    }

    fn max_gf_adjusted_zhl_params(&self, max_gf: GradientFactor) -> (r: (Fixed, Fixed))
        ensures
            r.0 == self.a_adjusted(max_gf),
            r.1 == self.b_adjusted(max_gf),
    {
        let (a, b) = self.weighted_zhl_params();
        let g: i64 = scaled(from_int(max_gf as i32), 1, 100);
        (times(a, g), over(b, plus(minus(g, times(g, b)), b)))
    }
}

/// A tissue that takes the whole step ends at the inspired pressure,
/// whatever it held.
pub proof fn loaded_in_full(load: Pressure, inspired: Pressure)
    requires
        i64::MIN <= inspired - load <= i64::MAX,
    ensures
        loaded(load, inspired, SCALE) == inspired,
{
    times_one(minus(inspired, load));
}

/// A tissue that takes no step holds what it held.
pub proof fn loaded_not_at_all(load: Pressure, inspired: Pressure)
    ensures
        loaded(load, inspired, 0) == load,
{
    crate::common::fixed::times_zero(minus(inspired, load));
}

/// Off-gassing: where the inspired pressure is not above what a tissue
/// holds, a step of any fraction leaves the tissue between the two, so its
/// loading does not rise.
pub proof fn loaded_off_gassing(load: Pressure, inspired: Pressure, fraction: Fixed)
    requires
        inspired <= load,
        0 <= fraction <= SCALE,
        i64::MIN <= inspired - load,
    ensures
        inspired <= loaded(load, inspired, fraction) <= load,
{
    reveal(times_spec);
    let gap = inspired - load;
    let part = (gap * fraction) / (SCALE as int);
    assert(gap <= part <= 0) by (nonlinear_arith)
        requires
            gap <= 0,
            0 <= fraction <= SCALE,
            part == (gap * fraction) / (SCALE as int),
            SCALE == 1_000_000_000,
    ;
}

impl Compartment {
    /// After a record that is long against every half-time a tissue holds
    /// exactly what is inspired during the record, whatever it held before;
    /// so it is supersaturated as any other tissue with its constants is
    /// after such a record.
    pub proof fn recalculated_in_full(
        self,
        other: Compartment,
        record: RecordData,
        max_gf: GradientFactor,
        other_gf: GradientFactor,
        surface_pressure: MbarPressure,
    )
        requires
            self.params == other.params,
            -0x3fff_ffff_ffff_ffff <= self.he_ip <= 0x3fff_ffff_ffff_ffff,
            -0x3fff_ffff_ffff_ffff <= self.n2_ip <= 0x3fff_ffff_ffff_ffff,
            -0x3fff_ffff_ffff_ffff <= other.he_ip <= 0x3fff_ffff_ffff_ffff,
            -0x3fff_ffff_ffff_ffff <= other.n2_ip <= 0x3fff_ffff_ffff_ffff,
            -0x3fff_ffff_ffff_ffff <= record.gas.inspired_partial_pressures(
                record.depth,
                surface_pressure,
            ).he <= 0x3fff_ffff_ffff_ffff,
            -0x3fff_ffff_ffff_ffff <= record.gas.inspired_partial_pressures(
                record.depth,
                surface_pressure,
            ).n2 <= 0x3fff_ffff_ffff_ffff,
        ensures
            self.recalculated(record, max_gf, surface_pressure, SCALE, SCALE).he_ip
                == record.gas.inspired_partial_pressures(record.depth, surface_pressure).he,
            self.recalculated(record, max_gf, surface_pressure, SCALE, SCALE).n2_ip
                == record.gas.inspired_partial_pressures(record.depth, surface_pressure).n2,
            forall|depth: Depth|
                self.recalculated(
                    record,
                    max_gf,
                    surface_pressure,
                    SCALE,
                    SCALE,
                ).supersaturation_spec(surface_pressure, depth) == #[trigger] other.recalculated(
                    record,
                    other_gf,
                    surface_pressure,
                    SCALE,
                    SCALE,
                ).supersaturation_spec(surface_pressure, depth),
    {
        let inspired = record.gas.inspired_partial_pressures(record.depth, surface_pressure);
        loaded_in_full(self.he_ip, inspired.he);
        loaded_in_full(self.n2_ip, inspired.n2);
        loaded_in_full(other.he_ip, inspired.he);
        loaded_in_full(other.n2_ip, inspired.n2);
    }

    /// Taking the tolerated pressure anew is what a record of no time does
    /// to a tissue.
    pub proof fn regraded_is_recalculated_in_no_time(
        self,
        record: RecordData,
        max_gf: GradientFactor,
        surface_pressure: MbarPressure,
    )
        requires
            self.total_ip == plus(self.he_ip, self.n2_ip),
        ensures
            self.recalculated(record, max_gf, surface_pressure, 0, 0) == self.regraded(max_gf),
    {
        let inspired = record.gas.inspired_partial_pressures(record.depth, surface_pressure);
        loaded_not_at_all(self.he_ip, inspired.he);
        loaded_not_at_all(self.n2_ip, inspired.n2);
    }

    /// Off-gassing: over a record in which neither inert gas is inspired at
    /// a higher pressure than the tissue holds it, the tissue ends with no
    /// more of either gas than it had, and with no less than is inspired.
    pub proof fn recalculated_off_gassing(
        self,
        record: RecordData,
        max_gf: GradientFactor,
        surface_pressure: MbarPressure,
        n2_fraction: Fixed,
        he_fraction: Fixed,
    )
        requires
            0 <= n2_fraction <= SCALE,
            0 <= he_fraction <= SCALE,
            record.gas.inspired_partial_pressures(record.depth, surface_pressure).he <= self.he_ip,
            record.gas.inspired_partial_pressures(record.depth, surface_pressure).n2 <= self.n2_ip,
            i64::MIN <= record.gas.inspired_partial_pressures(record.depth, surface_pressure).he
                - self.he_ip,
            i64::MIN <= record.gas.inspired_partial_pressures(record.depth, surface_pressure).n2
                - self.n2_ip,
        ensures
            record.gas.inspired_partial_pressures(record.depth, surface_pressure).he
                <= self.recalculated(
                record,
                max_gf,
                surface_pressure,
                n2_fraction,
                he_fraction,
            ).he_ip <= self.he_ip,
            record.gas.inspired_partial_pressures(record.depth, surface_pressure).n2
                <= self.recalculated(
                record,
                max_gf,
                surface_pressure,
                n2_fraction,
                he_fraction,
            ).n2_ip <= self.n2_ip,
    {
        let inspired = record.gas.inspired_partial_pressures(record.depth, surface_pressure);
        loaded_off_gassing(self.he_ip, inspired.he, he_fraction);
        loaded_off_gassing(self.n2_ip, inspired.n2, n2_fraction);
    }

    /// A tissue that is in balance with a gas at a depth stays as it is over
    /// a record of any length on that gas at that depth.
    pub proof fn recalculated_in_balance(
        self,
        record: RecordData,
        max_gf: GradientFactor,
        surface_pressure: MbarPressure,
        n2_fraction: Fixed,
        he_fraction: Fixed,
    )
        requires
            self.he_ip == record.gas.inspired_partial_pressures(record.depth, surface_pressure).he,
            self.n2_ip == record.gas.inspired_partial_pressures(record.depth, surface_pressure).n2,
            self.total_ip == plus(self.he_ip, self.n2_ip),
            self.min_tolerable_amb_pressure == self.tolerable_spec(max_gf),
        ensures
            self.recalculated(record, max_gf, surface_pressure, n2_fraction, he_fraction) == self,
    {
        reveal(times_spec);
        assert(0 * n2_fraction == 0);
        assert(0 * he_fraction == 0);
    }
}

impl Compartment {
    /// A tissue without helium that holds no more nitrogen than another one
    /// with the same constants tolerates an ambient pressure that is no
    /// higher, under any gradient factor.
    pub proof fn tolerable_monotone(self, other: Compartment, max_gf: GradientFactor)
        requires
            self.params == other.params,
            0 < self.params.n2_b <= SCALE,
            self.he_ip == 0,
            other.he_ip == 0,
            self.total_ip == self.n2_ip,
            other.total_ip == other.n2_ip,
            self.n2_ip <= other.n2_ip,
        ensures
            self.tolerable_spec(max_gf) <= other.tolerable_spec(max_gf),
    {
        let g = gf_fraction(max_gf);
        let b = self.params.n2_b;
        assert(g >= 0) by {
            reveal(crate::common::fixed::scaled_spec);
            scaled_monotone(0, from_int(max_gf as i32), 1, 100);
            assert(0int * 1 == 0);
            assert(0int / 100 == 0);
        }
        times_fraction_at_most(g, b);
        over_nonnegative(b, plus(minus(g, times(g, b)), b));
        times_monotone(
            minus(self.total_ip, self.a_adjusted(max_gf)),
            minus(other.total_ip, other.a_adjusted(max_gf)),
            self.b_adjusted(max_gf),
        );
    }

    /// A tissue that tolerates no higher an ambient pressure than another
    /// has a ceiling that is no deeper.
    pub proof fn ceiling_monotone(self, other: Compartment, surface_pressure: MbarPressure)
        requires
            self.min_tolerable_amb_pressure <= other.min_tolerable_amb_pressure,
        ensures
            self.ceiling_spec(surface_pressure).m <= other.ceiling_spec(surface_pressure).m,
    {
        scaled_monotone(
            minus(self.min_tolerable_amb_pressure, (surface_pressure * MBAR) as i64),
            minus(other.min_tolerable_amb_pressure, (surface_pressure * MBAR) as i64),
            10,
            1,
        );
    }
}

} // verus!
