//! What holds of the model over all its states: what a record does to the
//! tissues, however the gradient factors stand, and how ceiling and
//! supersaturation follow.
use vstd::prelude::*;
use crate::buehlmann::buehlmann_config::BuehlmannConfig;
use crate::buehlmann::buehlmann_model::{
    gf_99_upto,
    gf_slope_point_spec,
    gf_surf_upto,
    leading_upto_is_first_greatest,
    no_oxygen,
    travel_steps,
    travel_time,
    BuehlmannState,
    ModelView,
};
use crate::buehlmann::compartment::Compartment;
use crate::buehlmann::kinetics::{Exposure, Kinetics, Saturation};
use crate::buehlmann::zhl_values::zhl_16c;
use crate::common::depth::Depth;
use crate::common::fixed::{ceil_to_at_least, minus, over, plus, saturate, Fixed, SCALE};
use crate::common::gas::Gas;
use crate::common::global_types::{AscentRatePerMinute, CeilingType, GradientFactors};
use crate::common::ox_tox::OxygenTerms;
use crate::common::record::RecordData;
use crate::common::time::Time;

verus! {

/// Whether two tissues hold the same gases and have the same constants;
/// the pressure they tolerate may differ.
pub open spec fn same_load(a: Compartment, b: Compartment) -> bool {
    &&& a.no == b.no
    &&& a.params == b.params
    &&& a.he_ip == b.he_ip
    &&& a.n2_ip == b.n2_ip
    &&& a.total_ip == b.total_ip
}

/// Tissues that hold the same are supersaturated alike.
pub proof fn same_load_same_supersaturation(
    a: Seq<Compartment>,
    b: Seq<Compartment>,
    surface_pressure: u16,
    depth: Depth,
    n: int,
)
    requires
        forall|i: int| 0 <= i < n ==> same_load(#[trigger] a[i], b[i]),
    ensures
        gf_99_upto(a, surface_pressure, depth, n) == gf_99_upto(b, surface_pressure, depth, n),
        gf_surf_upto(a, surface_pressure, depth, n) == gf_surf_upto(b, surface_pressure, depth, n),
    decreases n,
{
    if n > 0 {
        same_load_same_supersaturation(a, b, surface_pressure, depth, n - 1);
        assert(same_load(a[n - 1], b[n - 1]));
    }
}

impl ModelView {
    /// With equal gradient factors the factor is the same at every depth.
    pub proof fn equal_gradient_factors_hold_everywhere(self, gf: GradientFactors, depth: Depth)
        requires
            gf.0 == gf.1,
        ensures
            self.max_gf(gf, depth).0 == gf.1,
    {
        reveal(crate::common::fixed::scaled_spec);
        reveal(crate::common::fixed::whole_spec);
        assert forall|gf_low_depth: Depth| #[trigger]
            gf_slope_point_spec(gf, gf_low_depth, depth) == gf.1 by {
            assert(0 * depth.m == 0);
            assert((gf.1 * SCALE) / (SCALE as int) == gf.1) by (nonlinear_arith);
        }
    }

    /// With equal gradient factors a record takes every tissue under that
    /// one factor and nothing else is looked at: no ceiling, no anchor
    /// depth.
    pub proof fn equal_gradient_factors_load_only(self, record: RecordData, saturation: Saturation)
        requires
            self.config.gf.0 == self.config.gf.1,
        ensures
            self.recalculate_compartments(record, saturation) == (ModelView {
                compartments: self.loaded(record, saturation),
                ..self
            }),
    {
    }

    /// A record changes what the tissues hold as the saturation fractions
    /// say, whatever the gradient factors are.
    pub proof fn recorded_load(self, depth: Depth, time: Time, gas: Gas, exposure: Exposure)
        ensures
            self.recorded(depth, time, gas, exposure).compartments.len() == 16,
            forall|i: int|
                0 <= i < 16 ==> same_load(
                    #[trigger] self.recorded(depth, time, gas, exposure).compartments[i],
                    self.compartments[i].recalculated(
                        RecordData { depth, time, gas },
                        self.config.gf.1,
                        self.config.surface_pressure,
                        exposure.saturation.n2[i],
                        exposure.saturation.he[i],
                    ),
                ),
    {
        reveal(ModelView::recorded);
        let record = RecordData { depth, time, gas };
        let moved = ModelView {
            state: BuehlmannState {
                depth,
                gas,
                time: self.state.time.plus(time),
                ..self.state
            },
            ..self
        };
        let loaded = ModelView { compartments: moved.loaded(record, exposure.saturation), ..moved };
        loaded.max_gf_keeps(self.config.gf, depth);
        leading_upto_is_first_greatest(loaded.compartments, 16);
    }

    /// A surface interval that is long against every half-time wipes out
    /// what went before: after a record on air at the surface in which every
    /// tissue saturates in full, the model is supersaturated exactly as a
    /// new model is.
    pub proof fn long_surface_interval_restores_supersaturation(self, time: Time, exposure: Exposure)
        requires
            exposure.saturation.is_full(),
            self.compartments.len() == 16,
            forall|i: int|
                0 <= i < 16 ==> (#[trigger] self.compartments[i]).params == zhl_16c(i)
                    && self.compartments[i].no == i + 1 && -0x3fff_ffff_ffff_ffff
                    <= self.compartments[i].he_ip <= 0x3fff_ffff_ffff_ffff
                    && -0x3fff_ffff_ffff_ffff <= self.compartments[i].n2_ip
                    <= 0x3fff_ffff_ffff_ffff,
        ensures
            self.recorded(Depth { m: 0 }, time, Gas::air_spec(), exposure).supersaturation()
                == ModelView::new(self.config, self.kinetics).supersaturation(),
    {
        let surface = Depth { m: 0 };
        let air = Gas::air_spec();
        let record = RecordData { depth: surface, time, gas: air };
        let after = self.recorded(surface, time, air, exposure);
        let fresh = ModelView::new(self.config, self.kinetics);
        let surface_pressure = self.config.surface_pressure;
        let inspired = air.inspired_partial_pressures(surface, surface_pressure);
        self.recorded_load(surface, time, air, exposure);
        self.recorded_keeps(surface, time, air, exposure);
        reveal(ModelView::recorded);
        reveal(crate::common::fixed::times_spec);
        reveal(crate::common::fixed::scaled_spec);
        assert(-62_700_000 <= inspired.he <= 0x3fff_ffff_ffff_ffff && -62_700_000 <= inspired.n2
            <= 0x3fff_ffff_ffff_ffff) by {
            let p = crate::common::fixed::minus_spec(
                crate::common::gas::ambient_pressure_spec(surface, surface_pressure),
                crate::common::gas::ALVEOLI_WATER_VAPOR_PRESSURE,
            );
            assert(-62_700_000 <= p <= 65_535_000_000) by {
                assert(0int / 10 == 0);
            }
            assert(0 <= (air.he_pp * p) / (SCALE as int) <= 0x3fff_ffff_ffff_ffff
                && -62_700_000 <= (air.n2_pp * p) / (SCALE as int) <= 0x3fff_ffff_ffff_ffff)
                by (nonlinear_arith)
                requires
                    -62_700_000 <= p <= 65_535_000_000,
                    air.he_pp == 0,
                    air.n2_pp == 790_000_000,
                    SCALE == 1_000_000_000,
            ;
        }
        assert forall|i: int| 0 <= i < 16 implies same_load(
            #[trigger] after.compartments[i],
            fresh.compartments[i],
        ) by {
            let taken = self.compartments[i].recalculated(
                record,
                self.config.gf.1,
                surface_pressure,
                exposure.saturation.n2[i],
                exposure.saturation.he[i],
            );
            assert(same_load(after.compartments[i], taken));
            crate::buehlmann::compartment::loaded_in_full(self.compartments[i].he_ip, inspired.he);
            crate::buehlmann::compartment::loaded_in_full(self.compartments[i].n2_ip, inspired.n2);
        }
        same_load_same_supersaturation(
            after.compartments,
            fresh.compartments,
            surface_pressure,
            surface,
            16,
        );
    }
}

impl ModelView {
    /// The ceiling of a twin is not above the surface.
    pub proof fn twin_ceiling_nonnegative(self)
        requires
            self.sim,
        ensures
            self.ceiling().m >= 0,
    {
        reveal_with_fuel(ModelView::ceiling, 1);
        ceil_to_at_least(self.actual_ceiling().m, SCALE);
    }

    /// The slices of a travel move the time on by a second each and leave
    /// the gas as it is.
    pub proof fn slices_time(
        self,
        current: Depth,
        dist_rate: Fixed,
        gas: Gas,
        oxygen: Seq<OxygenTerms>,
        done: int,
        steps: int,
    )
        requires
            done <= steps,
        ensures
            self.slices(current, dist_rate, gas, oxygen, done, steps).state.time.s == saturate(
                self.state.time.s + (steps - done) * SCALE,
            ),
            self.slices(current, dist_rate, gas, oxygen, done, steps).state.gas == self.state.gas,
        decreases steps - done,
    {
        if done < steps {
            let next = Depth { m: plus(current.m, dist_rate) };
            let terms = if self.sim || done < 0 || done >= oxygen.len() {
                no_oxygen()
            } else {
                oxygen[done]
            };
            let moved = ModelView {
                state: BuehlmannState {
                    time: self.state.time.plus(Time { s: SCALE }),
                    ..self.state
                },
                ..self
            };
            moved.recalculate_keeps(
                RecordData { depth: next, time: Time { s: SCALE }, gas },
                self.kinetics.second,
                terms,
            );
            let stepped = self.slice(next, gas, terms);
            let again = ModelView {
                compartments: stepped.compartments,
                state: stepped.state,
                ..self
            };
            again.slices_time(next, dist_rate, gas, oxygen, done + 1, steps);
            assert((steps - done) * SCALE == (steps - (done + 1)) * SCALE + SCALE)
                by (nonlinear_arith);
        }
    }

    /// A travel ends at its target on its gas, and no earlier than it began.
    pub proof fn traveled_with_rate_keeps(
        self,
        target_depth: Depth,
        rate: AscentRatePerMinute,
        gas: Gas,
        oxygen: Seq<OxygenTerms>,
    )
        ensures
            self.traveled_with_rate(target_depth, rate, gas, oxygen).sim == self.sim,
            self.traveled_with_rate(target_depth, rate, gas, oxygen).config == self.config,
            self.traveled_with_rate(target_depth, rate, gas, oxygen).kinetics == self.kinetics,
            self.traveled_with_rate(target_depth, rate, gas, oxygen).state.depth == target_depth,
            self.traveled_with_rate(target_depth, rate, gas, oxygen).state.gas == gas,
            self.traveled_with_rate(target_depth, rate, gas, oxygen).state.time.s == saturate(
                self.state.time.s + travel_steps(
                    travel_time(self.state.depth, target_depth, rate),
                ) * SCALE,
            ),
    {
        reveal_with_fuel(ModelView::traveled_with_rate, 1);
        let time = travel_time(self.state.depth, target_depth, rate);
        let start = ModelView { state: BuehlmannState { gas, ..self.state }, ..self };
        let dist_rate = over(minus(target_depth.m, self.state.depth.m), time.s);
        start.slices_time(self.state.depth, dist_rate, gas, oxygen, 0, travel_steps(time));
    }
}

impl ModelView {
    /// Off-gassing: over a record in which no tissue is offered either inert
    /// gas at a higher pressure than it holds it, no tissue ends with more
    /// of either gas than it had.
    pub proof fn recorded_off_gassing(self, depth: Depth, time: Time, gas: Gas, exposure: Exposure)
        requires
            exposure.saturation.is_valid(),
            self.compartments.len() == 16,
            forall|i: int|
                0 <= i < 16 ==> {
                    let inspired = gas.inspired_partial_pressures(
                        depth,
                        self.config.surface_pressure,
                    );
                    &&& inspired.he <= (#[trigger] self.compartments[i]).he_ip
                    &&& inspired.n2 <= self.compartments[i].n2_ip
                    &&& i64::MIN <= inspired.he - self.compartments[i].he_ip
                    &&& i64::MIN <= inspired.n2 - self.compartments[i].n2_ip
                },
        ensures
            forall|i: int|
                0 <= i < 16 ==> {
                    let after = #[trigger] self.recorded(depth, time, gas, exposure).compartments[i];
                    &&& after.he_ip <= self.compartments[i].he_ip
                    &&& after.n2_ip <= self.compartments[i].n2_ip
                },
    {
        self.recorded_load(depth, time, gas, exposure);
        assert forall|i: int| 0 <= i < 16 implies {
            let after = #[trigger] self.recorded(depth, time, gas, exposure).compartments[i];
            &&& after.he_ip <= self.compartments[i].he_ip
            &&& after.n2_ip <= self.compartments[i].n2_ip
        } by {
            assert(0 <= exposure.saturation.n2[i] <= SCALE);
            assert(0 <= exposure.saturation.he[i] <= SCALE);
            self.compartments[i].recalculated_off_gassing(
                RecordData { depth, time, gas },
                self.config.gf.1,
                self.config.surface_pressure,
                exposure.saturation.n2[i],
                exposure.saturation.he[i],
            );
        }
    }
}

impl ModelView {
    /// Whether the tissues hold nitrogen only and tolerate what they hold
    /// allows under the high gradient factor.
    pub open spec fn nitrogen_only(self) -> bool {
        &&& self.compartments.len() == 16
        &&& forall|i: int|
            0 <= i < 16 ==> {
                let tissue = #[trigger] self.compartments[i];
                &&& tissue.he_ip == 0
                &&& tissue.total_ip == tissue.n2_ip
                &&& 0 < tissue.params.n2_b <= SCALE
                &&& tissue.min_tolerable_amb_pressure == tissue.tolerable_spec(self.config.gf.1)
            }
    }

    /// With equal gradient factors a record leaves every tissue as the
    /// saturation fractions and that one factor make it.
    pub proof fn recorded_with_equal_gradient_factors(
        self,
        depth: Depth,
        time: Time,
        gas: Gas,
        exposure: Exposure,
    )
        requires
            self.config.gf.0 == self.config.gf.1,
        ensures
            self.recorded(depth, time, gas, exposure).compartments == self.loaded(
                RecordData { depth, time, gas },
                exposure.saturation,
            ),
            self.recorded(depth, time, gas, exposure).config == self.config,
            self.recorded(depth, time, gas, exposure).sim == self.sim,
    {
        reveal(ModelView::recorded);
        let moved = ModelView {
            state: BuehlmannState {
                depth,
                gas,
                time: self.state.time.plus(time),
                ..self.state
            },
            ..self
        };
        moved.equal_gradient_factors_load_only(RecordData { depth, time, gas }, exposure.saturation);
        assert(moved.loaded(RecordData { depth, time, gas }, exposure.saturation) =~= self.loaded(
            RecordData { depth, time, gas },
            exposure.saturation,
        ));
    }

    /// The ceiling does not get deeper while the tissues off-gas: for a
    /// model with equal gradient factors whose tissues hold nitrogen only,
    /// over a record on a gas without helium that offers no tissue nitrogen
    /// at a higher pressure than it holds, the ceiling of the leading tissue
    /// afterwards is not below the one before; and so the ceiling of the
    /// model is not, where it is that of the leading tissue.
    pub proof fn ceiling_does_not_rise_while_off_gassing(
        self,
        depth: Depth,
        time: Time,
        gas: Gas,
        exposure: Exposure,
    )
        requires
            self.config.gf.0 == self.config.gf.1,
            self.nitrogen_only(),
            gas.he_pp == 0,
            exposure.saturation.is_valid(),
            forall|i: int|
                0 <= i < 16 ==> {
                    let inspired = gas.inspired_partial_pressures(
                        depth,
                        self.config.surface_pressure,
                    );
                    &&& inspired.n2 <= (#[trigger] self.compartments[i]).n2_ip
                    &&& i64::MIN <= inspired.n2 - self.compartments[i].n2_ip
                },
        ensures
            self.recorded(depth, time, gas, exposure).nitrogen_only(),
            self.recorded(depth, time, gas, exposure).actual_ceiling().m
                <= self.actual_ceiling().m,
            self.sim || self.config.ceiling_type == CeilingType::Actual ==> self.recorded(
                depth,
                time,
                gas,
                exposure,
            ).ceiling().m <= self.ceiling().m,
    {
        let after = self.recorded(depth, time, gas, exposure);
        let record = RecordData { depth, time, gas };
        let surface_pressure = self.config.surface_pressure;
        let gf = self.config.gf.1;
        let inspired = gas.inspired_partial_pressures(depth, surface_pressure);
        self.recorded_with_equal_gradient_factors(depth, time, gas, exposure);
        crate::common::fixed::zero_times(
            minus(
                crate::common::gas::ambient_pressure_spec(depth, surface_pressure),
                crate::common::gas::ALVEOLI_WATER_VAPOR_PRESSURE,
            ),
        );
        assert(inspired.he == 0);
        assert forall|i: int| 0 <= i < 16 implies {
            let tissue = #[trigger] after.compartments[i];
            &&& tissue.he_ip == 0
            &&& tissue.total_ip == tissue.n2_ip
            &&& 0 < tissue.params.n2_b <= SCALE
            &&& tissue.min_tolerable_amb_pressure == tissue.tolerable_spec(gf)
            &&& tissue.min_tolerable_amb_pressure
                <= self.compartments[i].min_tolerable_amb_pressure
        } by {
            let before = self.compartments[i];
            let tissue = after.compartments[i];
            assert(tissue == before.recalculated(
                record,
                gf,
                surface_pressure,
                exposure.saturation.n2[i],
                exposure.saturation.he[i],
            ));
            crate::common::fixed::zero_times(exposure.saturation.he[i]);
            assert(0 <= exposure.saturation.n2[i] <= SCALE);
            crate::buehlmann::compartment::loaded_off_gassing(
                before.n2_ip,
                inspired.n2,
                exposure.saturation.n2[i],
            );
            tissue.tolerable_monotone(before, gf);
        }
        leading_upto_is_first_greatest(self.compartments, 16);
        leading_upto_is_first_greatest(after.compartments, 16);
        let lead = after.leading();
        after.compartments[lead].ceiling_monotone(self.compartments[lead], surface_pressure);
        self.compartments[lead].ceiling_monotone(
            self.compartments[self.leading()],
            surface_pressure,
        );
        if self.sim || self.config.ceiling_type == CeilingType::Actual {
            reveal_with_fuel(ModelView::ceiling, 1);
            crate::common::fixed::ceil_to_monotone(
                after.actual_ceiling().m,
                self.actual_ceiling().m,
                SCALE,
            );
        }
    }
}

impl ModelView {
    /// A new model holds nitrogen only, and is settled.
    pub proof fn new_is_nitrogen_only(config: BuehlmannConfig, kinetics: Kinetics)
        ensures
            ModelView::new(config, kinetics).nitrogen_only(),
            ModelView::new(config, kinetics).settled(),
    {
        let fresh = ModelView::new(config, kinetics);
        crate::common::fixed::zero_times(
            minus(
                crate::common::gas::ambient_pressure_spec(Depth { m: 0 }, config.surface_pressure),
                crate::common::gas::ALVEOLI_WATER_VAPOR_PRESSURE,
            ),
        );
        assert forall|i: int| 0 <= i < 16 implies {
            let tissue = #[trigger] fresh.compartments[i];
            &&& tissue.he_ip == 0
            &&& tissue.total_ip == tissue.n2_ip
            &&& 0 < tissue.params.n2_b <= SCALE
            &&& tissue.min_tolerable_amb_pressure == tissue.tolerable_spec(config.gf.1)
            &&& tissue.total_ip == plus(tissue.he_ip, tissue.n2_ip)
        } by {
            assert(fresh.compartments[i] == Compartment::new((i + 1) as u8, zhl_16c(i), config));
        }
    }

    /// With equal gradient factors every record leaves the model settled.
    pub proof fn recorded_is_settled(self, depth: Depth, time: Time, gas: Gas, exposure: Exposure)
        requires
            self.config.gf.0 == self.config.gf.1,
        ensures
            self.recorded(depth, time, gas, exposure).settled(),
    {
        let after = self.recorded(depth, time, gas, exposure);
        self.recorded_with_equal_gradient_factors(depth, time, gas, exposure);
        assert forall|i: int| 0 <= i < 16 implies {
            let tissue = #[trigger] after.compartments[i];
            &&& tissue.total_ip == plus(tissue.he_ip, tissue.n2_ip)
            &&& tissue.min_tolerable_amb_pressure == tissue.tolerable_spec(after.config.gf.1)
        } by {
            assert(after.compartments[i] == self.compartments[i].recalculated(
                RecordData { depth, time, gas },
                self.config.gf.1,
                self.config.surface_pressure,
                exposure.saturation.n2[i],
                exposure.saturation.he[i],
            ));
        }
    }
}

impl ModelView {
    /// Whether every tissue tolerates what it holds allows under the high
    /// gradient factor, and holds in all the sum of what it holds of each
    /// gas: so it is after every record with equal gradient factors.
    pub open spec fn settled(self) -> bool {
        &&& self.compartments.len() == 16
        &&& forall|i: int|
            0 <= i < 16 ==> {
                let tissue = #[trigger] self.compartments[i];
                &&& tissue.total_ip == plus(tissue.he_ip, tissue.n2_ip)
                &&& tissue.min_tolerable_amb_pressure == tissue.tolerable_spec(self.config.gf.1)
            }
    }

    /// With equal gradient factors a record of no time changes no tissue,
    /// and so not the ceiling, wherever it is made and on whatever gas.
    pub proof fn recorded_in_no_time(self, depth: Depth, time: Time, gas: Gas)
        requires
            self.config.gf.0 == self.config.gf.1,
            self.settled(),
        ensures
            self.recorded(depth, time, gas, Exposure::instant()).compartments == self.compartments,
            self.recorded(depth, time, gas, Exposure::instant()).actual_ceiling()
                == self.actual_ceiling(),
            self.sim ==> self.recorded(depth, time, gas, Exposure::instant()).ceiling()
                == self.ceiling(),
    {
        let after = self.recorded(depth, time, gas, Exposure::instant());
        let record = RecordData { depth, time, gas };
        self.recorded_with_equal_gradient_factors(depth, time, gas, Exposure::instant());
        assert forall|i: int| 0 <= i < 16 implies #[trigger] after.compartments[i]
            == self.compartments[i] by {
            assert(Exposure::instant().saturation.n2[i] == 0);
            assert(Exposure::instant().saturation.he[i] == 0);
            self.compartments[i].regraded_is_recalculated_in_no_time(
                record,
                self.config.gf.1,
                self.config.surface_pressure,
            );
        }
        assert(after.compartments =~= self.compartments);
        if self.sim {
            reveal_with_fuel(ModelView::ceiling, 1);
        }
    }
}

} // verus!
