//! Breathing gases and their pressures at depth.
use vstd::prelude::*;
use crate::common::depth::Depth;
use crate::common::fixed::{minus, over, plus, scaled, times, Fixed, SCALE};
use crate::common::global_types::{MbarPressure, Pressure};

verus! {

/// Partial pressure of water vapour in the alveoli, in bar.
pub const ALVEOLI_WATER_VAPOR_PRESSURE: Pressure = 62_700_000;

/// Nanobars in one millibar.
pub const MBAR: i64 = 1_000_000;

/// A breathing mix, by the fractions of its three components.
#[derive(Clone, Copy, Debug, PartialEq, Eq, Structural)]
pub struct Gas {
    pub o2_pp: Pressure,
    pub n2_pp: Pressure,
    pub he_pp: Pressure,
}

#[derive(Clone, Copy, Debug, PartialEq, Eq, Structural)]
pub struct PartialPressures {
    pub o2: Pressure,
    pub n2: Pressure,
    pub he: Pressure,
}

#[derive(Clone, Copy, Debug, PartialEq, Eq, Structural)]
pub enum InertGas {
    Helium,
    Nitrogen,
}

/// Ambient pressure at `depth` under a surface pressure given in millibar.
pub open spec fn ambient_pressure_spec(depth: Depth, surface_pressure: MbarPressure) -> Pressure {
    plus((surface_pressure * MBAR) as i64, scaled(depth.m, 1, 10))
}

#[verifier::when_used_as_spec(ambient_pressure_spec)]
pub fn ambient_pressure(depth: Depth, surface_pressure: MbarPressure) -> (r: Pressure)
    ensures
        r == ambient_pressure_spec(depth, surface_pressure),
{
    plus(surface_pressure as i64 * MBAR, scaled(depth.m, 1, 10))
}

impl Default for Gas {
    /// The empty mix, which fills unused slots of a gas list.
    fn default() -> (r: Self)
        ensures
            r == Gas::empty(),
    {
        Gas { o2_pp: 0, n2_pp: 0, he_pp: 0 }
    }
}

impl Gas {
    /// The mix with no component at all.
    pub open spec fn empty() -> Gas {
        Gas { o2_pp: 0, n2_pp: 0, he_pp: 0 }
    }

    /// Whether `o2` and `he` are the fractions of a mix.
    pub open spec fn fractions_ok(o2: Pressure, he: Pressure) -> bool {
        0 <= o2 <= SCALE && 0 <= he <= SCALE && o2 + he <= SCALE
    }

    pub open spec fn new_spec(o2: Pressure, he: Pressure) -> Gas {
        Gas { o2_pp: o2, n2_pp: (SCALE - o2 - he) as i64, he_pp: he }
    }

    pub open spec fn air_spec() -> Gas {
        Gas::new_spec(210_000_000, 0)
    }

    /// The fractions lie in `[0, 1]` and add up to one.
    pub open spec fn is_valid_spec(&self) -> bool {
        &&& 0 <= self.o2_pp
        &&& 0 <= self.n2_pp
        &&& 0 <= self.he_pp
        &&& self.o2_pp + self.n2_pp + self.he_pp == SCALE
    }

    pub open spec fn gas_pressures_compound_spec(&self, gas_pressure: Pressure) -> PartialPressures {
        PartialPressures {
            o2: times(self.o2_pp, gas_pressure),
            n2: times(self.n2_pp, gas_pressure),
            he: times(self.he_pp, gas_pressure),
        }
    }

    pub open spec fn partial_pressures_spec(
        &self,
        depth: Depth,
        surface_pressure: MbarPressure,
    ) -> PartialPressures {
        self.gas_pressures_compound_spec(ambient_pressure(depth, surface_pressure))
    }

    pub open spec fn inspired_partial_pressures_spec(
        &self,
        depth: Depth,
        surface_pressure: MbarPressure,
    ) -> PartialPressures {
        self.gas_pressures_compound_spec(
            minus(ambient_pressure(depth, surface_pressure), ALVEOLI_WATER_VAPOR_PRESSURE),
        )
    }

    pub open spec fn max_operating_depth_spec(&self, pp_o2_limit: Pressure) -> Depth {
        Depth { m: scaled(minus(over(pp_o2_limit, self.o2_pp), SCALE), 10, 1) }
    }

    pub open spec fn equivalent_narcotic_depth_spec(&self, depth: Depth) -> Depth {
        let ten: i64 = (10 * SCALE) as i64;
        let end: i64 = minus(times(plus(depth.m, ten), minus(SCALE, self.he_pp)), ten);
        Depth { m: if end < 0 { 0 } else { end } }
    }

    /// A mix of the given oxygen and helium fractions; the rest is nitrogen.
    #[verifier::when_used_as_spec(new_spec)]
    pub fn new(o2_pp: Pressure, he_pp: Pressure) -> (r: Self)
        requires
            Gas::fractions_ok(o2_pp, he_pp),
        ensures
            r == Gas::new_spec(o2_pp, he_pp),
            r.is_valid_spec(),
    {
        Self { o2_pp, he_pp, n2_pp: SCALE - o2_pp - he_pp }
    }

    #[verifier::when_used_as_spec(air_spec)]
    pub fn air() -> (r: Self)
        ensures
            r == Gas::air_spec(),
            r.is_valid_spec(),
    {
        Self::new(210_000_000, 0)
    }

    #[verifier::when_used_as_spec(is_valid_spec)]
    pub fn is_valid(&self) -> (r: bool)
        ensures
            r == self.is_valid_spec(),
    {
        self.o2_pp >= 0 && self.n2_pp >= 0 && self.he_pp >= 0 && self.o2_pp as i128
            + self.n2_pp as i128 + self.he_pp as i128 == SCALE as i128
    }

    /// Partial pressures of the components at a given pressure of the mix.
    #[verifier::when_used_as_spec(gas_pressures_compound_spec)]
    pub fn gas_pressures_compound(&self, gas_pressure: Pressure) -> (r: PartialPressures)
        ensures
            r == self.gas_pressures_compound_spec(gas_pressure),
    {
        PartialPressures {
            o2: times(self.o2_pp, gas_pressure),
            n2: times(self.n2_pp, gas_pressure),
            he: times(self.he_pp, gas_pressure),
        }
    }

    /// Partial pressures at depth, water vapour not counted.
    #[verifier::when_used_as_spec(partial_pressures_spec)]
    pub fn partial_pressures(&self, depth: Depth, surface_pressure: MbarPressure) -> (r:
        PartialPressures)
        ensures
            r == self.partial_pressures_spec(depth, surface_pressure),
    {
        self.gas_pressures_compound(ambient_pressure(depth, surface_pressure))
    }

    /// Partial pressures in the alveoli at depth: the water vapour pressure
    /// is taken off the ambient pressure first.
    #[verifier::when_used_as_spec(inspired_partial_pressures_spec)]
    pub fn inspired_partial_pressures(
        &self,
        depth: Depth,
        surface_pressure: MbarPressure,
    ) -> (r: PartialPressures)
        ensures
            r == self.inspired_partial_pressures_spec(depth, surface_pressure),
    {
        self.gas_pressures_compound(
            minus(ambient_pressure(depth, surface_pressure), ALVEOLI_WATER_VAPOR_PRESSURE),
        )
    }

    /// The depth at which the oxygen partial pressure reaches `pp_o2_limit`:
    /// `(limit / fO2 - 1) * 10` metres.
    #[verifier::when_used_as_spec(max_operating_depth_spec)]
    pub fn max_operating_depth(&self, pp_o2_limit: Pressure) -> (r: Depth)
        ensures
            r == self.max_operating_depth_spec(pp_o2_limit),
    {
        Depth { m: scaled(minus(over(pp_o2_limit, self.o2_pp), SCALE), 10, 1) }
    }

    /// The depth on air with the same narcotic effect; oxygen counts as
    /// narcotic, helium does not. Never negative.
    #[verifier::when_used_as_spec(equivalent_narcotic_depth_spec)]
    pub fn equivalent_narcotic_depth(&self, depth: Depth) -> (r: Depth)
        ensures
            r == self.equivalent_narcotic_depth_spec(depth),
    {
        let ten: i64 = 10 * SCALE;
        let end: i64 = minus(times(plus(depth.m, ten), minus(SCALE, self.he_pp)), ten);
        Depth { m: if end < 0 { 0 } else { end } }
    }
}

} // verus!
