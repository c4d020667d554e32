//! The model: sixteen tissues, the state of the dive, and what a record, a
//! travel, the ceiling and the no-decompression limit are.
//!
//! A model is described twice: as `ModelView`, a mathematical value with
//! the functions that say what every operation comes to, and as
//! `BuehlmannModel`, which carries the operations out.
use vstd::prelude::*;
use crate::buehlmann::buehlmann_config::BuehlmannConfig;
use crate::buehlmann::compartment::{Compartment, Supersaturation};
use crate::buehlmann::kinetics::{Exposure, Kinetics, Saturation};
use crate::buehlmann::zhl_values::{zhl_16c, zhl_16c_n2_16a_he_values};
use crate::common::deco::{
    runtime_spec,
    Deco,
    DecoCalculationError,
    DecoRuntime,
    DecoRuntimeView,
};
use crate::common::deco_model::{ConfigValidationErr, DecoModel, DecoModelConfig, DiveState};
use crate::common::depth::Depth;
use crate::common::fixed::{
    ceil_to,
    ceil_to_at_least,
    from_int,
    minus,
    over,
    plus,
    saturate,
    scaled,
    whole,
    Fixed,
    SCALE,
};
use crate::common::gas::Gas;
use crate::common::global_types::{
    AscentRatePerMinute,
    CeilingType,
    Cns,
    GradientFactor,
    GradientFactors,
    Otu,
    Pressure,
};
use crate::common::ox_tox::{OxTox, OxygenTerms};
use crate::common::record::RecordData;
use crate::common::sim::Sim;
use crate::common::time::Time;

verus! {

/// Longest no-decompression limit that is looked for, in minutes.
pub const NDL_CUT_OFF_MINS: u8 = 99;

/// What changes over a dive besides the tissues.
#[derive(Clone, Copy, Debug, PartialEq, Eq)]
pub struct BuehlmannState {
    pub depth: Depth,
    pub time: Time,
    pub gas: Gas,
    /// Depth at which the low gradient factor applies; found once, when a
    /// ceiling first shows, and kept.
    pub gf_low_depth: Option<Depth>,
    pub ox_tox: OxTox,
}

/// The ZH-L16C model with gradient factors: sixteen tissues and the state
/// of the dive.
#[derive(Clone, Copy, Debug)]
pub struct BuehlmannModel {
    pub config: BuehlmannConfig,
    pub compartments: [Compartment; 16],
    pub state: BuehlmannState,
    /// Set on a simulation twin: its oxygen exposure stands still and its
    /// ceiling is always the actual one.
    pub sim: bool,
    pub kinetics: Kinetics,
}

/// A model as a mathematical value.
pub struct ModelView {
    pub config: BuehlmannConfig,
    pub kinetics: Kinetics,
    pub sim: bool,
    pub compartments: Seq<Compartment>,
    pub state: BuehlmannState,
}

impl View for BuehlmannModel {
    type V = ModelView;

    open spec fn view(&self) -> ModelView {
        ModelView {
            config: self.config,
            kinetics: self.kinetics,
            sim: self.sim,
            compartments: self.compartments@,
            state: self.state,
        }
    }
}

/// Index of the leading tissue among the first `n`: the one that tolerates
/// the least, that is, has the greatest tolerated ambient pressure; of
/// several the first.
pub open spec fn leading_upto(comps: Seq<Compartment>, n: int) -> int
    decreases n,
{
    if n <= 1 {
        0
    } else {
        let lead = leading_upto(comps, n - 1);
        if comps[n - 1].min_tolerable_amb_pressure > comps[lead].min_tolerable_amb_pressure {
            n - 1
        } else {
            lead
        }
    }
}

/// What `leading_upto` finds: no tissue before `n` tolerates less, and none
/// before the one found tolerates as little.
pub proof fn leading_upto_is_first_greatest(comps: Seq<Compartment>, n: int)
    requires
        1 <= n <= comps.len(),
    ensures
        0 <= leading_upto(comps, n) < n,
        forall|j: int|
            0 <= j < n ==> (#[trigger] comps[j]).min_tolerable_amb_pressure <= comps[leading_upto(
                comps,
                n,
            )].min_tolerable_amb_pressure,
        forall|j: int|
            0 <= j < leading_upto(comps, n) ==> (#[trigger] comps[j]).min_tolerable_amb_pressure
                < comps[leading_upto(comps, n)].min_tolerable_amb_pressure,
    decreases n,
{
    if n > 1 {
        leading_upto_is_first_greatest(comps, n - 1);
    }
}

/// Greatest supersaturation at `depth` among the first `n` tissues, and not
/// below zero.
pub open spec fn gf_99_upto(
    comps: Seq<Compartment>,
    surface_pressure: u16,
    depth: Depth,
    n: int,
) -> Fixed
    decreases n,
{
    if n <= 0 {
        0
    } else {
        let rest = gf_99_upto(comps, surface_pressure, depth, n - 1);
        let here = comps[n - 1].supersaturation(surface_pressure, depth).gf_99;
        if here > rest {
            here
        } else {
            rest
        }
    }
}

/// Greatest supersaturation on surfacing among the first `n` tissues, and
/// not below zero.
pub open spec fn gf_surf_upto(
    comps: Seq<Compartment>,
    surface_pressure: u16,
    depth: Depth,
    n: int,
) -> Fixed
    decreases n,
{
    if n <= 0 {
        0
    } else {
        let rest = gf_surf_upto(comps, surface_pressure, depth, n - 1);
        let here = comps[n - 1].supersaturation(surface_pressure, depth).gf_surf;
        if here > rest {
            here
        } else {
            rest
        }
    }
}

/// One metre up from `depth`, and not above the surface.
pub open spec fn one_meter_up(depth: Depth) -> Depth {
    let up = minus(depth.m, SCALE);
    Depth { m: if up < 0 { 0 } else { up } }
}

/// The gradient factor on the line from `gf_high` at the surface to
/// `gf_low` at `gf_low_depth`, cut to a whole percent.
pub open spec fn gf_slope_point_spec(
    gf: GradientFactors,
    gf_low_depth: Depth,
    depth: Depth,
) -> GradientFactor {
    let fall = scaled(from_int((gf.1 - gf.0) as i32), depth.m, gf_low_depth.m);
    let point = whole(minus(from_int(gf.1 as i32), fall));
    if point < 0 {
        0
    } else if point > 255 {
        255
    } else {
        point as u8
    }
}

/// Number of one-second slices of a travel: the whole seconds of its time.
pub open spec fn travel_steps(time: Time) -> int {
    let n = whole(time.s);
    if n < 0 {
        0
    } else if n > i32::MAX {
        i32::MAX as int
    } else {
        n as int
    }
}

/// Time needed for a distance at a rate in metres per minute.
pub open spec fn travel_time_spec(from: Depth, to: Depth, rate: AscentRatePerMinute) -> Time {
    let distance = minus(to.m, from.m);
    let length = if distance < 0 { minus(0, distance) } else { distance };
    Time { s: scaled(length, (60 * SCALE) as i64, rate) }
}

/// Time needed for a distance at a rate in metres per minute.
#[verifier::when_used_as_spec(travel_time_spec)]
pub fn travel_time(from: Depth, to: Depth, rate: AscentRatePerMinute) -> (r: Time)
    ensures
        r == travel_time_spec(from, to, rate),
{
    let mut distance: i64 = to.minus(from).m;
    if distance < 0 {
        distance = minus(0, distance);
    }
    Time::from_seconds(scaled(distance, 60 * SCALE, rate))
}

/// Depth of a travel after `done` slices: each slice moves on by
/// `dist_rate`.
pub open spec fn travel_depth(start: Depth, dist_rate: Fixed, done: nat) -> Depth
    decreases done,
{
    if done == 0 {
        start
    } else {
        Depth { m: plus(travel_depth(start, dist_rate, (done - 1) as nat).m, dist_rate) }
    }
}

/// Oxygen terms for a record whose oxygen exposure is not kept.
pub open spec fn no_oxygen() -> OxygenTerms {
    OxygenTerms { cns_retention: SCALE, otu_per_minute: 0 }
}

impl ModelView {
    /// One for a model, nought for a simulation twin.
    pub open spec fn level(self) -> nat {
        if self.sim {
            0
        } else {
            1
        }
    }

    pub open spec fn forked(self) -> ModelView {
        ModelView { sim: true, ..self }
    }

    pub open spec fn leading(self) -> int {
        leading_upto(self.compartments, 16)
    }

    pub open spec fn supersaturation(self) -> Supersaturation {
        Supersaturation {
            gf_99: gf_99_upto(
                self.compartments,
                self.config.surface_pressure,
                self.state.depth,
                16,
            ),
            gf_surf: gf_surf_upto(
                self.compartments,
                self.config.surface_pressure,
                self.state.depth,
                16,
            ),
        }
    }

    /// A ceiling as the settings want it: rounded up to whole metres or as
    /// it is.
    pub open spec fn rounded(self, ceiling: Depth) -> Depth {
        if self.config.round_ceiling {
            Depth { m: ceil_to(ceiling.m, SCALE) }
        } else {
            ceiling
        }
    }

    /// Ceiling of the leading tissue.
    pub open spec fn actual_ceiling(self) -> Depth {
        self.compartments[self.leading()].ceiling(self.config.surface_pressure)
    }

    /// The depth to which the low gradient factor is anchored, searched
    /// upwards from `target` in steps of one metre: the first depth from
    /// which one metre up some tissue is supersaturated by `gf_low` or more;
    /// the surface if there is none.
    pub open spec fn gf_low_depth_from(self, target: Depth, gf_low: GradientFactor) -> Depth
        decreases target.m,
    {
        if target.m <= 0 {
            target
        } else {
            let up = one_meter_up(target);
            if gf_99_upto(self.compartments, self.config.surface_pressure, up, 16) >= from_int(
                gf_low as i32,
            ) {
                target
            } else {
                self.gf_low_depth_from(up, gf_low)
            }
        }
    }

    /// The ceiling: that of the leading tissue, or for a model with the
    /// adaptive policy the one its twin finds while ascending.
    #[verifier::opaque]
    pub open spec fn ceiling(self) -> Depth
        decreases self.level(), 4nat, 0nat,
    {
        if self.sim || self.config.ceiling_type == CeilingType::Actual {
            self.rounded(self.actual_ceiling())
        } else {
            self.rounded(self.forked().adaptive_ceiling())
        }
    }

    /// The ceiling at which an ascent towards the ceiling comes to rest:
    /// ascend to the ceiling, take the ceiling anew, until the depth is not
    /// below it.
    pub open spec fn adaptive_ceiling(self) -> Depth
        decreases self.level(), 12nat, self.state.depth.m,
    {
        let calculated = self.ceiling();
        if self.state.depth.m <= 0 || self.state.depth.m <= calculated.m || calculated.m < 0 {
            calculated
        } else {
            let risen = self.traveled_with_rate(
                calculated,
                self.config.deco_ascent_rate,
                self.state.gas,
                Seq::empty(),
            );
            ModelView {
                compartments: risen.compartments,
                state: BuehlmannState { depth: calculated, ..risen.state },
                ..self
            }.adaptive_ceiling()
        }
    }

    /// The gradient factor that holds at `depth`, and the model with the
    /// anchor depth of the low factor set if it had to be found.
    pub open spec fn max_gf(self, gf: GradientFactors, depth: Depth) -> (GradientFactor, ModelView)
        decreases self.level(), 5nat, 0nat,
    {
        if self.ceiling().m <= 0 {
            (gf.1, self)
        } else {
            let gf_low_depth = match self.state.gf_low_depth {
                Some(d) => d,
                None => self.gf_low_depth_from(self.state.depth, gf.0),
            };
            let latched = ModelView {
                state: BuehlmannState { gf_low_depth: Some(gf_low_depth), ..self.state },
                ..self
            };
            if depth.m > gf_low_depth.m {
                (gf.0, latched)
            } else {
                (gf_slope_point_spec(gf, gf_low_depth, depth), latched)
            }
        }
    }

    /// The tissues after a record under the high gradient factor.
    pub open spec fn loaded(self, record: RecordData, saturation: Saturation) -> Seq<Compartment> {
        Seq::new(
            16,
            |i: int|
                self.compartments[i].recalculated(
                    record,
                    self.config.gf.1,
                    self.config.surface_pressure,
                    saturation.n2[i],
                    saturation.he[i],
                ),
        )
    }

    /// All tissues after a record. Where the gradient factors differ, the
    /// tolerated pressure is then taken anew under the factor that holds at
    /// the record's depth: of every tissue on a model that is set so, else
    /// of the leading one.
    pub open spec fn recalculate_compartments(
        self,
        record: RecordData,
        saturation: Saturation,
    ) -> ModelView
        decreases self.level(), 6nat, 0nat,
    {
        let loaded = ModelView { compartments: self.loaded(record, saturation), ..self };
        if self.config.gf.1 != self.config.gf.0 {
            let (max_gf, latched) = loaded.max_gf(self.config.gf, record.depth);
            let compartments = if !self.sim && self.config.recalc_all_tissues_m_values {
                Seq::new(16, |i: int| latched.compartments[i].regraded(max_gf))
            } else {
                latched.compartments.update(
                    latched.leading(),
                    latched.compartments[latched.leading()].regraded(max_gf),
                )
            };
            ModelView { compartments, state: latched.state, ..self }
        } else {
            loaded
        }
    }

    /// Tissues and, on a model, oxygen exposure after a record.
    pub open spec fn recalculate(
        self,
        record: RecordData,
        saturation: Saturation,
        oxygen: OxygenTerms,
    ) -> ModelView
        decreases self.level(), 7nat, 0nat,
    {
        let tissues = self.recalculate_compartments(record, saturation);
        if self.sim {
            ModelView { compartments: tissues.compartments, state: tissues.state, ..self }
        } else {
            ModelView {
                compartments: tissues.compartments,
                state: BuehlmannState {
                    ox_tox: tissues.state.ox_tox.recalculated(
                        record,
                        self.config.surface_pressure,
                        oxygen,
                    ),
                    ..tissues.state
                },
                ..self
            }
        }
    }

    /// The model after a time at a depth on a gas.
    #[verifier::opaque]
    pub open spec fn recorded(
        self,
        depth: Depth,
        time: Time,
        gas: Gas,
        exposure: Exposure,
    ) -> ModelView
        decreases self.level(), 8nat, 0nat,
    {
        let moved = ModelView {
            state: BuehlmannState {
                depth,
                gas,
                time: self.state.time.plus(time),
                ..self.state
            },
            ..self
        };
        let after = moved.recalculate(
            RecordData { depth, time, gas },
            exposure.saturation,
            exposure.oxygen,
        );
        ModelView { compartments: after.compartments, state: after.state, ..self }
    }

    /// The model after one second of a travel, spent at `depth`.
    pub open spec fn slice(self, depth: Depth, gas: Gas, oxygen: OxygenTerms) -> ModelView
        decreases self.level(), 8nat, 0nat,
    {
        let moved = ModelView {
            state: BuehlmannState {
                time: self.state.time.plus(Time { s: SCALE }),
                ..self.state
            },
            ..self
        };
        let after = moved.recalculate(
            RecordData { depth, time: Time { s: SCALE }, gas },
            self.kinetics.second,
            oxygen,
        );
        ModelView { compartments: after.compartments, state: after.state, ..self }
    }

    /// The model after the slices `done..steps` of a travel that stands at
    /// `current` and moves by `dist_rate` each second.
    pub open spec fn slices(
        self,
        current: Depth,
        dist_rate: Fixed,
        gas: Gas,
        oxygen: Seq<OxygenTerms>,
        done: int,
        steps: int,
    ) -> ModelView
        decreases self.level(), 9nat, steps - done,
    {
        if done >= steps {
            self
        } else {
            let next = Depth { m: plus(current.m, dist_rate) };
            let terms = if self.sim || done < 0 || done >= oxygen.len() {
                no_oxygen()
            } else {
                oxygen[done]
            };
            let stepped = self.slice(next, gas, terms);
            let after = ModelView {
                compartments: stepped.compartments,
                state: stepped.state,
                ..self
            }.slices(next, dist_rate, gas, oxygen, done + 1, steps);
            ModelView { compartments: after.compartments, state: after.state, ..self }
        }
    }

    /// The model after a travel to `target_depth` in `time`, taken in
    /// slices of one second at evenly spaced depths.
    pub open spec fn traveled(
        self,
        target_depth: Depth,
        time: Time,
        gas: Gas,
        oxygen: Seq<OxygenTerms>,
    ) -> ModelView
        decreases self.level(), 10nat, 0nat,
    {
        let start = ModelView { state: BuehlmannState { gas, ..self.state }, ..self };
        let dist_rate = over(minus(target_depth.m, self.state.depth.m), time.s);
        let after = start.slices(self.state.depth, dist_rate, gas, oxygen, 0, travel_steps(time));
        ModelView {
            compartments: after.compartments,
            state: BuehlmannState { depth: target_depth, ..after.state },
            ..self
        }
    }

    /// The model after a travel to `target_depth` at `rate`.
    #[verifier::opaque]
    pub open spec fn traveled_with_rate(
        self,
        target_depth: Depth,
        rate: AscentRatePerMinute,
        gas: Gas,
        oxygen: Seq<OxygenTerms>,
    ) -> ModelView
        decreases self.level(), 11nat, 0nat,
    {
        let after = self.traveled(
            target_depth,
            travel_time(self.state.depth, target_depth, rate),
            gas,
            oxygen,
        );
        ModelView { compartments: after.compartments, state: after.state, ..self }
    }

    /// A model at the surface in balance with air.
    pub open spec fn new(config: BuehlmannConfig, kinetics: Kinetics) -> ModelView {
        ModelView {
            config,
            kinetics,
            sim: false,
            compartments: Seq::new(16, |i: int| Compartment::new((i + 1) as u8, zhl_16c(i), config)),
            state: BuehlmannState {
                depth: Depth { m: 0 },
                time: Time { s: 0 },
                gas: Gas::air_spec(),
                gf_low_depth: None,
                ox_tox: OxTox { cns: 0, otu: 0 },
            },
        }
    }
}

impl Default for BuehlmannState {
    fn default() -> (r: Self)
        ensures
            r.depth.m == 0,
            r.time.s == 0,
            r.gas == Gas::air_spec(),
            r.gf_low_depth.is_none(),
            r.ox_tox == (OxTox { cns: 0, otu: 0 }),
    {
        Self {
            depth: Depth::zero(),
            time: Time::zero(),
            gas: Gas::air(),
            gf_low_depth: None,
            ox_tox: OxTox::default(),
        }
    }
}

impl Sim for BuehlmannModel {
    /// A simulation twin: the same tissues and state, marked as a twin.
    fn fork(&self) -> (r: Self)
        ensures
            r@ == self@.forked(),
    {
        BuehlmannModel {
            config: self.config,
            compartments: self.compartments,
            state: self.state,
            sim: true,
            kinetics: self.kinetics,
        }
    }

    fn is_sim(&self) -> (r: bool)
        ensures
            r == self.sim,
    {
        self.sim
    }
}

impl BuehlmannModel {
    /// A model at the surface, in balance with air, under `config`.
    /// `kinetics` holds the saturation fractions of the spans by which the
    /// model steps on its own.
    pub fn new(config: BuehlmannConfig, kinetics: Kinetics) -> (r: Self)
        requires
            config.is_valid(),
        ensures
            r@ == ModelView::new(config, kinetics),
    {
        let initial_model_state = BuehlmannState::default();
        let blank = Compartment::new(0, zhl_16c_n2_16a_he_values()[0], config);
        let mut model = Self {
            config,
            compartments: [blank; 16],
            state: initial_model_state,
            sim: false,
            kinetics,
        };
        model.create_compartments(zhl_16c_n2_16a_he_values(), config);
        assert(model@.compartments =~= ModelView::new(config, kinetics).compartments);
        model
    }

    /// A model under the default settings.
    pub fn default(kinetics: Kinetics) -> (r: Self)
        ensures
            r@ == ModelView::new(BuehlmannConfig::default_spec(), kinetics),
    {
        Self::new(BuehlmannConfig::default(), kinetics)
    }

    pub fn config(&self) -> (r: BuehlmannConfig)
        ensures
            r == self.config,
    {
        self.config
    }

    pub fn dive_state(&self) -> (r: DiveState)
        ensures
            r.depth == self.state.depth,
            r.time == self.state.time,
            r.gas == self.state.gas,
            r.ox_tox == self.state.ox_tox,
    {
        let BuehlmannState { depth, time, gas, ox_tox, .. } = self.state;
        DiveState { depth, time, gas, ox_tox }
    }

    pub fn cns(&self) -> (r: Cns)
        ensures
            r == self.state.ox_tox.cns,
    {
        self.state.ox_tox.cns()
    }

    pub fn otu(&self) -> (r: Otu)
        ensures
            r == self.state.ox_tox.otu,
    {
        self.state.ox_tox.otu()
    }

    pub fn tissues(&self) -> (r: [Compartment; 16])
        ensures
            r == self.compartments,
    {
        self.compartments
    }

    /// Takes over new settings if they are valid; else nothing changes.
    pub fn update_config(&mut self, new_config: BuehlmannConfig) -> (r: Result<
        (),
        ConfigValidationErr,
    >)
        ensures
            r == new_config.validation(),
            r.is_ok() <==> new_config.is_valid(),
            r.is_ok() ==> *final(self) == (BuehlmannModel { config: new_config, ..*old(self) }),
            r.is_err() ==> *final(self) == *old(self),
    {
        match new_config.validate() {
            Err(e) => Err(e),
            Ok(_) => {
                self.config = new_config;
                Ok(())
            },
        }
    }

    /// Greatest supersaturation over all tissues, at the current depth and
    /// on surfacing; neither is given below zero.
    pub fn supersaturation(&self) -> (r: Supersaturation)
        ensures
            r == self@.supersaturation(),
    {
        let mut acc_gf_99: i64 = 0;
        let mut acc_gf_surf: i64 = 0;
        let mut i: usize = 0;
        while i < 16
            invariant
                i <= 16,
                acc_gf_99 == gf_99_upto(
                    self.compartments@,
                    self.config.surface_pressure,
                    self.state.depth,
                    i as int,
                ),
                acc_gf_surf == gf_surf_upto(
                    self.compartments@,
                    self.config.surface_pressure,
                    self.state.depth,
                    i as int,
                ),
            decreases 16 - i,
        {
            let Supersaturation { gf_99, gf_surf } = self.compartments[i].supersaturation(
                self.config.surface_pressure,
                self.state.depth,
            );
            if gf_99 > acc_gf_99 {
                acc_gf_99 = gf_99;
            }
            if gf_surf > acc_gf_surf {
                acc_gf_surf = gf_surf;
            }
            i += 1;
        }
        Supersaturation { gf_99: acc_gf_99, gf_surf: acc_gf_surf }
    }

    /// The leading tissue: the one with the greatest tolerated ambient
    /// pressure, and of several such the first.
    pub fn leading_comp(&self) -> (r: &Compartment)
        ensures
            *r == self.compartments[self@.leading()],
            0 <= self@.leading() < 16,
            forall|j: int|
                0 <= j < 16 ==> (#[trigger] self.compartments[j]).min_tolerable_amb_pressure
                    <= r.min_tolerable_amb_pressure,
            forall|j: int|
                0 <= j < self@.leading() ==> (
                #[trigger] self.compartments[j]).min_tolerable_amb_pressure
                    < r.min_tolerable_amb_pressure,
    {
        let i = self.leading_comp_index();
        &self.compartments[i]
    }

    fn leading_comp_index(&self) -> (lead: usize)
        ensures
            lead == self@.leading(),
            0 <= lead < 16,
            forall|j: int|
                0 <= j < 16 ==> (#[trigger] self.compartments[j]).min_tolerable_amb_pressure
                    <= self.compartments[lead as int].min_tolerable_amb_pressure,
            forall|j: int|
                0 <= j < lead ==> (#[trigger] self.compartments[j]).min_tolerable_amb_pressure
                    < self.compartments[lead as int].min_tolerable_amb_pressure,
    {
        let mut lead: usize = 0;
        let mut i: usize = 1;
        while i < 16
            invariant
                1 <= i <= 16,
                lead == leading_upto(self.compartments@, i as int),
                0 <= lead < i,
            decreases 16 - i,
        {
            if self.compartments[i].min_tolerable_amb_pressure
                > self.compartments[lead].min_tolerable_amb_pressure {
                lead = i;
            }
            i += 1;
        }
        proof {
            leading_upto_is_first_greatest(self.compartments@, 16);
        }
        lead
    }

    fn create_compartments(
        &mut self,
        zhl_values: [crate::buehlmann::zhl_values::ZHLParams; 16],
        config: BuehlmannConfig,
    )
        requires
            forall|i: int| 0 <= i < 16 ==> zhl_values[i] == zhl_16c(i),
        ensures
            forall|i: int|
                0 <= i < 16 ==> final(self).compartments[i] == Compartment::new(
                    (i + 1) as u8,
                    zhl_16c(i),
                    config,
                ),
            final(self).config == old(self).config,
            final(self).state == old(self).state,
            final(self).sim == old(self).sim,
            final(self).kinetics == old(self).kinetics,
    {
        let mut i: usize = 0;
        while i < 16
            invariant
                i <= 16,
                forall|j: int| 0 <= j < 16 ==> zhl_values[j] == zhl_16c(j),
                forall|j: int|
                    0 <= j < i ==> self.compartments[j] == Compartment::new(
                        (j + 1) as u8,
                        zhl_16c(j),
                        config,
                    ),
                self.config == old(self).config,
                self.state == old(self).state,
                self.sim == old(self).sim,
                self.kinetics == old(self).kinetics,
            decreases 16 - i,
        {
            let compartment = Compartment::new(i as u8 + 1, zhl_values[i], config);
            self.compartments[i] = compartment;
            i += 1;
        }
    }

    /// Greatest supersaturation at `depth` over all tissues, not below zero.
    fn gf_99_at(&self, depth: Depth) -> (r: Fixed)
        ensures
            r == gf_99_upto(self.compartments@, self.config.surface_pressure, depth, 16),
    {
        let mut acc: i64 = 0;
        let mut i: usize = 0;
        while i < 16
            invariant
                i <= 16,
                acc == gf_99_upto(
                    self.compartments@,
                    self.config.surface_pressure,
                    depth,
                    i as int,
                ),
            decreases 16 - i,
        {
            let gf_99: i64 = self.compartments[i].supersaturation(
                self.config.surface_pressure,
                depth,
            ).gf_99;
            if gf_99 > acc {
                acc = gf_99;
            }
            i += 1;
        }
        acc
    }

    /// Searches the depth at which the low gradient factor applies: from the
    /// current depth upwards by one metre at a time, until one metre further
    /// up a tissue would be supersaturated by `gf_low` percent or more.
    fn find_gf_low_depth(&self, gf_low: GradientFactor) -> (r: Depth)
        ensures
            r == self@.gf_low_depth_from(self.state.depth, gf_low),
    {
        let mut target_depth = self.state.depth;
        while target_depth.m > 0
            invariant
                self@.gf_low_depth_from(self.state.depth, gf_low) == self@.gf_low_depth_from(
                    target_depth,
                    gf_low,
                ),
            ensures
                self@.gf_low_depth_from(self.state.depth, gf_low) == target_depth,
            decreases target_depth.m,
        {
            let up: i64 = minus(target_depth.m, SCALE);
            let sim_record_depth = Depth { m: if up < 0 { 0 } else { up } };
            let gf_99: i64 = self.gf_99_at(sim_record_depth);
            if gf_99 >= from_int(gf_low as i32) {
                break ;
            }
            target_depth = sim_record_depth;
        }
        target_depth
    }

    /// The gradient factor on the line between the surface and the anchor
    /// depth of the low factor: `gf_high - (gf_high - gf_low) * depth /
    /// gf_low_depth`, cut to a whole percent.
    pub fn gf_slope_point(&self, gf: GradientFactors, gf_low_depth: Depth, depth: Depth) -> (r:
        GradientFactor)
        ensures
            r == gf_slope_point_spec(gf, gf_low_depth, depth),
    {
        let (gf_low, gf_high) = gf;
        let fall: i64 = scaled(from_int(gf_high as i32 - gf_low as i32), depth.m, gf_low_depth.m);
        let point: i64 = whole(minus(from_int(gf_high as i32), fall));
        if point < 0 {
            0
        } else if point > 255 {
            255
        } else {
            point as u8
        }
    }
}

impl BuehlmannModel {
    /// The shallowest depth that the tissues tolerate now. A model with the
    /// adaptive policy lets a twin ascend towards the ceiling at the ascent
    /// rate of the settings and takes the ceiling at which the twin comes to
    /// rest; a twin always gives the ceiling of its leading tissue.
    pub fn ceiling(&self) -> (r: Depth)
        ensures
            r == self@.ceiling(),
            r.m >= 0,
        decreases self@.level(), 4nat, 0nat,
    {
        proof {
            reveal_with_fuel(ModelView::ceiling, 1);
            reveal_with_fuel(ModelView::traveled_with_rate, 1);
        }
        let adaptive = !self.sim && match self.config.ceiling_type {
            CeilingType::Actual => false,
            CeilingType::Adaptive => true,
        };
        let mut ceiling = if !adaptive {
            self.leading_comp().ceiling(self.config.surface_pressure)
        } else {
            let mut sim_model = self.fork();
            let sim_gas = sim_model.state.gas;
            let no_terms: Vec<OxygenTerms> = Vec::new();
            let mut calculated_ceiling = sim_model.ceiling();
            loop
                invariant
                    !self.sim,
                    sim_model.sim,
                    sim_model.config == self.config,
                    sim_model.kinetics == self.kinetics,
                    sim_model.state.gas == sim_gas,
                    no_terms@.len() == 0,
                    calculated_ceiling == sim_model@.ceiling(),
                    calculated_ceiling.m >= 0,
                    self@.forked().adaptive_ceiling() == sim_model@.adaptive_ceiling(),
                ensures
                    calculated_ceiling == self@.forked().adaptive_ceiling(),
                    calculated_ceiling.m >= 0,
                decreases sim_model.state.depth.m,
            {
                proof {
                    reveal_with_fuel(ModelView::ceiling, 1);
                    reveal_with_fuel(ModelView::traveled_with_rate, 1);
                }
                let sim_depth = sim_model.state.depth;
                if sim_depth.m <= 0 || sim_depth.m <= calculated_ceiling.m {
                    break ;
                }
                proof {
                    assert(no_terms@ =~= Seq::<OxygenTerms>::empty());
                }
                sim_model.record_travel_with_rate(
                    calculated_ceiling,
                    self.config.deco_ascent_rate,
                    &sim_gas,
                    &no_terms,
                );
                calculated_ceiling = sim_model.ceiling();
            }
            calculated_ceiling
        };
        if self.config.round_ceiling {
            proof {
                ceil_to_at_least(ceiling.m, SCALE);
            }
            ceiling = Depth { m: ceil_to(ceiling.m, SCALE) };
        }
        ceiling
    }

    /// The gradient factor that holds at `depth`: the high one while there
    /// is no ceiling; else the low one below its anchor depth and a point on
    /// the line towards the high one above. The anchor depth is searched the
    /// first time it is needed and kept.
    pub fn max_gf(&mut self, gf: GradientFactors, depth: Depth) -> (r: GradientFactor)
        ensures
            (r, final(self)@) == old(self)@.max_gf(gf, depth),
        decreases old(self)@.level(), 5nat, 0nat,
    {
        proof {
            reveal_with_fuel(ModelView::ceiling, 1);
            reveal_with_fuel(ModelView::traveled_with_rate, 1);
        }
        let (gf_low, gf_high) = gf;
        let in_deco = self.ceiling().m > 0;
        if !in_deco {
            return gf_high;
        }
        let gf_low_depth = match self.state.gf_low_depth {
            Some(gf_low_depth) => gf_low_depth,
            None => self.find_gf_low_depth(gf_low),
        };
        self.state.gf_low_depth = Some(gf_low_depth);
        if depth.m > gf_low_depth.m {
            return gf_low;
        }
        self.gf_slope_point(gf, gf_low_depth, depth)
    }

    fn recalculate_compartments(&mut self, record: &RecordData, saturation: &Saturation)
        ensures
            final(self)@ == old(self)@.recalculate_compartments(*record, *saturation),
        decreases old(self)@.level(), 6nat, 0nat,
    {
        proof {
            reveal_with_fuel(ModelView::ceiling, 1);
            reveal_with_fuel(ModelView::traveled_with_rate, 1);
        }
        let (gf_low, gf_high) = self.config.gf;
        let mut i: usize = 0;
        while i < 16
            invariant
                i <= 16,
                self.config == old(self).config,
                self.state == old(self).state,
                self.sim == old(self).sim,
                self.kinetics == old(self).kinetics,
                gf_high == self.config.gf.1,
                forall|j: int|
                    0 <= j < i ==> self.compartments[j] == old(self).compartments[j].recalculated(
                        *record,
                        gf_high,
                        self.config.surface_pressure,
                        saturation.n2[j],
                        saturation.he[j],
                    ),
                forall|j: int| i <= j < 16 ==> self.compartments[j] == old(self).compartments[j],
            decreases 16 - i,
        {
            self.compartments[i].recalculate(
                record,
                gf_high,
                self.config.surface_pressure,
                saturation.n2[i],
                saturation.he[i],
            );
            i += 1;
        }
        assert(self@.compartments =~= old(self)@.loaded(*record, *saturation));
        if gf_high != gf_low {
            let max_gf = self.max_gf(self.config.gf, record.depth);
            let should_recalc_all_tissues = !self.sim && self.config.recalc_all_tissues_m_values;
            if should_recalc_all_tissues {
                self.recalculate_all_tisues_with_gf(record, max_gf);
            } else {
                self.recalculate_leading_compartment_with_gf(record, max_gf);
            }
        }
    }

    fn recalculate_all_tisues_with_gf(&mut self, record: &RecordData, max_gf: GradientFactor)
        ensures
            final(self)@ == (ModelView {
                compartments: Seq::new(16, |i: int| old(self)@.compartments[i].regraded(max_gf)),
                ..old(self)@
            }),
    {
        let mut i: usize = 0;
        while i < 16
            invariant
                i <= 16,
                self.config == old(self).config,
                self.state == old(self).state,
                self.sim == old(self).sim,
                self.kinetics == old(self).kinetics,
                forall|j: int|
                    0 <= j < i ==> self.compartments[j] == old(self).compartments[j].regraded(
                        max_gf,
                    ),
                forall|j: int| i <= j < 16 ==> self.compartments[j] == old(self).compartments[j],
            decreases 16 - i,
        {
            self.compartments[i].regrade(max_gf);
            i += 1;
        }
        assert(self@.compartments =~= Seq::new(
            16,
            |i: int| old(self)@.compartments[i].regraded(max_gf),
        ));
    }

    fn recalculate_leading_compartment_with_gf(
        &mut self,
        record: &RecordData,
        max_gf: GradientFactor,
    )
        ensures
            final(self)@ == (ModelView {
                compartments: old(self)@.compartments.update(
                    old(self)@.leading(),
                    old(self)@.compartments[old(self)@.leading()].regraded(max_gf),
                ),
                ..old(self)@
            }),
    {
        let lead = self.leading_comp_index();
        self.compartments[lead].regrade(max_gf);
        assert(self@.compartments =~= old(self)@.compartments.update(
            old(self)@.leading(),
            old(self)@.compartments[old(self)@.leading()].regraded(max_gf),
        ));
    }

    fn recalculate_ox_tox(&mut self, record: &RecordData, oxygen: OxygenTerms)
        ensures
            *final(self) == (BuehlmannModel {
                state: BuehlmannState {
                    ox_tox: old(self).state.ox_tox.recalculated(
                        *record,
                        old(self).config.surface_pressure,
                        oxygen,
                    ),
                    ..old(self).state
                },
                ..*old(self)
            }),
    {
        self.state.ox_tox.recalculate(record, self.config.surface_pressure, oxygen);
    }

    fn recalculate(&mut self, record: RecordData, saturation: &Saturation, oxygen: OxygenTerms)
        ensures
            final(self)@ == old(self)@.recalculate(record, *saturation, oxygen),
        decreases old(self)@.level(), 7nat, 0nat,
    {
        proof {
            reveal_with_fuel(ModelView::ceiling, 1);
            reveal_with_fuel(ModelView::traveled_with_rate, 1);
        }
        self.recalculate_compartments(&record, saturation);
        if !self.is_sim() {
            self.recalculate_ox_tox(&record, oxygen);
        }
    }

    /// Records a time spent at a depth on a gas: the dive moves on by
    /// `time`, the tissues take up gas, and on a model that is no twin the
    /// oxygen exposure grows. `exposure` holds what belongs to `time`,
    /// `depth` and `gas` of the saturation fractions and the oxygen terms.
    pub fn record(&mut self, depth: Depth, time: Time, gas: &Gas, exposure: &Exposure)
        requires
            depth.m >= 0,
        ensures
            final(self)@ == old(self)@.recorded(depth, time, *gas, *exposure),
            final(self).state.depth == depth,
            final(self).state.gas == *gas,
            final(self).state.time == old(self).state.time.plus(time),
            final(self).config == old(self).config,
            final(self).sim == old(self).sim,
            final(self).kinetics == old(self).kinetics,
        decreases old(self)@.level(), 8nat, 0nat,
    {
        proof {
            reveal_with_fuel(ModelView::ceiling, 1);
            reveal_with_fuel(ModelView::traveled_with_rate, 1);
            reveal(ModelView::recorded);
        }
        self.state.depth = depth;
        self.state.gas = *gas;
        self.state.time = self.state.time.plus(time);
        let record = RecordData { depth, time, gas: *gas };
        self.recalculate(record, &exposure.saturation, exposure.oxygen);
        proof {
            old(self)@.recorded_keeps(depth, time, *gas, *exposure);
        }
    }

    /// Records a travel to `target_depth` in `time`, as one-second slices at
    /// evenly spaced depths; at its end the depth is the target exactly.
    /// Only whole seconds are travelled. `oxygen` holds the oxygen terms of
    /// the slices in their order; a twin reads none, and a slice beyond the
    /// list adds no tolerance units.
    pub fn record_travel(
        &mut self,
        target_depth: Depth,
        time: Time,
        gas: &Gas,
        oxygen: &Vec<OxygenTerms>,
    )
        requires
            target_depth.m >= 0,
        ensures
            final(self)@ == old(self)@.traveled(target_depth, time, *gas, oxygen@),
            final(self).state.depth == target_depth,
            final(self).state.gas == *gas,
            final(self).state.time.s == saturate(
                old(self).state.time.s + travel_steps(time) * SCALE,
            ),
            final(self).config == old(self).config,
            final(self).sim == old(self).sim,
            final(self).kinetics == old(self).kinetics,
        decreases old(self)@.level(), 10nat, 0nat,
    {
        proof {
            reveal_with_fuel(ModelView::ceiling, 1);
            reveal_with_fuel(ModelView::traveled_with_rate, 1);
        }
        self.state.gas = *gas;
        let mut current_depth = self.state.depth;
        let distance = target_depth.minus(current_depth);
        let dist_rate: i64 = over(distance.m, time.s);
        let seconds: i64 = whole(time.s);
        let steps: i32 = if seconds < 0 {
            0
        } else if seconds > i32::MAX as i64 {
            i32::MAX
        } else {
            seconds as i32
        };
        let ghost start = self@;
        let mut i: i32 = 0;
        while i < steps
            invariant
                0 <= i <= steps,
                steps == travel_steps(time),
                self.config == old(self).config,
                self.sim == old(self).sim,
                self.kinetics == old(self).kinetics,
                start.config == old(self).config,
                start.sim == old(self).sim,
                start.kinetics == old(self).kinetics,
                self.state.gas == *gas,
                self.state.time.s == saturate(old(self).state.time.s + i * SCALE),
                start.slices(old(self).state.depth, dist_rate, *gas, oxygen@, 0, steps as int)
                    == self@.slices(current_depth, dist_rate, *gas, oxygen@, i as int, steps as int),
            decreases steps - i,
        {
            proof {
                reveal_with_fuel(ModelView::ceiling, 1);
                reveal_with_fuel(ModelView::traveled_with_rate, 1);
            }
            let ghost before = self@;
            self.state.time = self.state.time.plus(Time::from_seconds(SCALE));
            current_depth = Depth { m: plus(current_depth.m, dist_rate) };
            let record = RecordData { depth: current_depth, time: Time::from_seconds(SCALE), gas: *gas };
            let terms = if self.sim || i as usize >= oxygen.len() {
                OxygenTerms { cns_retention: SCALE, otu_per_minute: 0 }
            } else {
                oxygen[i as usize]
            };
            let second = self.kinetics.second;
            proof {
                self@.recalculate_keeps(record, second, terms);
            }
            self.recalculate(record, &second, terms);
            proof {
                assert(self@ == (ModelView {
                    compartments: before.slice(current_depth, *gas, terms).compartments,
                    state: before.slice(current_depth, *gas, terms).state,
                    ..before
                }));
                self@.slices_keeps(current_depth, dist_rate, *gas, oxygen@, i + 1, steps as int);
            }
            i += 1;
        }
        self.state.depth = target_depth;
    }

    /// Records a travel to `target_depth` at `rate` metres per minute.
    pub fn record_travel_with_rate(
        &mut self,
        target_depth: Depth,
        rate: AscentRatePerMinute,
        gas: &Gas,
        oxygen: &Vec<OxygenTerms>,
    )
        requires
            target_depth.m >= 0,
        ensures
            final(self)@ == old(self)@.traveled_with_rate(target_depth, rate, *gas, oxygen@),
            final(self).state.depth == target_depth,
            final(self).state.gas == *gas,
            final(self).state.time.s == saturate(
                old(self).state.time.s + travel_steps(
                    travel_time(old(self).state.depth, target_depth, rate),
                ) * SCALE,
            ),
            final(self).config == old(self).config,
            final(self).sim == old(self).sim,
            final(self).kinetics == old(self).kinetics,
        decreases old(self)@.level(), 11nat, 0nat,
    {
        proof {
            reveal_with_fuel(ModelView::ceiling, 1);
            reveal_with_fuel(ModelView::traveled_with_rate, 1);
        }
        let time = travel_time(self.state.depth, target_depth, rate);
        self.record_travel(target_depth, time, gas, oxygen);
    }
}

impl ModelView {
    /// Finding the gradient factor changes nothing but the anchor depth of
    /// the low factor.
    pub proof fn max_gf_keeps(self, gf: GradientFactors, depth: Depth)
        ensures
            self.max_gf(gf, depth).1 == (ModelView {
                state: BuehlmannState {
                    gf_low_depth: self.max_gf(gf, depth).1.state.gf_low_depth,
                    ..self.state
                },
                ..self
            }),
    {
        reveal_with_fuel(ModelView::ceiling, 1);
        reveal_with_fuel(ModelView::traveled_with_rate, 1);
    }

    /// Taking the tissues anew leaves depth, time, gas and oxygen exposure
    /// as they are.
    pub proof fn recalculate_compartments_keeps(self, record: RecordData, saturation: Saturation)
        ensures
            self.recalculate_compartments(record, saturation).state == (BuehlmannState {
                gf_low_depth: self.recalculate_compartments(record, saturation).state.gf_low_depth,
                ..self.state
            }),
    {
        reveal_with_fuel(ModelView::ceiling, 1);
        reveal_with_fuel(ModelView::traveled_with_rate, 1);
        let loaded = ModelView { compartments: self.loaded(record, saturation), ..self };
        loaded.max_gf_keeps(self.config.gf, record.depth);
    }

    /// A recalculation leaves depth, time and gas as they are.
    pub proof fn recalculate_keeps(
        self,
        record: RecordData,
        saturation: Saturation,
        oxygen: OxygenTerms,
    )
        ensures
            self.recalculate(record, saturation, oxygen).state.depth == self.state.depth,
            self.recalculate(record, saturation, oxygen).state.time == self.state.time,
            self.recalculate(record, saturation, oxygen).state.gas == self.state.gas,
    {
        reveal_with_fuel(ModelView::ceiling, 1);
        reveal_with_fuel(ModelView::traveled_with_rate, 1);
        self.recalculate_compartments_keeps(record, saturation);
    }

    /// A record sets depth and gas as asked and moves the time on.
    pub proof fn recorded_keeps(self, depth: Depth, time: Time, gas: Gas, exposure: Exposure)
        ensures
            self.recorded(depth, time, gas, exposure).state.depth == depth,
            self.recorded(depth, time, gas, exposure).state.gas == gas,
            self.recorded(depth, time, gas, exposure).state.time == self.state.time.plus(time),
    {
        reveal_with_fuel(ModelView::ceiling, 1);
        reveal_with_fuel(ModelView::traveled_with_rate, 1);
        reveal(ModelView::recorded);
        let moved = ModelView {
            state: BuehlmannState {
                depth,
                gas,
                time: self.state.time.plus(time),
                ..self.state
            },
            ..self
        };
        moved.recalculate_keeps(RecordData { depth, time, gas }, exposure.saturation, exposure.oxygen);
    }

    /// The slices of a travel leave settings, kinetics and the twin mark as
    /// they are.
    pub proof fn slices_keeps(
        self,
        current: Depth,
        dist_rate: Fixed,
        gas: Gas,
        oxygen: Seq<OxygenTerms>,
        done: int,
        steps: int,
    )
        ensures
            self.slices(current, dist_rate, gas, oxygen, done, steps).config == self.config,
            self.slices(current, dist_rate, gas, oxygen, done, steps).kinetics == self.kinetics,
            self.slices(current, dist_rate, gas, oxygen, done, steps).sim == self.sim,
    {
        reveal_with_fuel(ModelView::ceiling, 1);
        reveal_with_fuel(ModelView::traveled_with_rate, 1);
    }
}

/// One minute.
pub open spec fn one_minute() -> Time {
    Time { s: (60 * SCALE) as i64 }
}

impl ModelView {
    /// Sixteen times the gas that is breathed now.
    pub open spec fn current_gas_only(self) -> Seq<Gas> {
        Seq::new(16, |i: int| self.state.gas)
    }

    /// Whether decompression is owed. Under the actual ceiling policy that
    /// is so while there is a ceiling; under the adaptive one while the plan
    /// on the current gas has more than a single stage, and where no plan
    /// can be made, while there is a ceiling.
    pub open spec fn in_deco(self) -> bool {
        match self.config.ceiling_type {
            CeilingType::Actual => self.ceiling().m > 0,
            CeilingType::Adaptive => match runtime_spec(self, self.current_gas_only(), false) {
                Ok(runtime) => runtime.deco_stages.len() > 1,
                Err(_) => self.ceiling().m > 0,
            },
        }
    }

    /// The no-decompression limit as a twin finds it that has stayed for
    /// `minutes` minutes already: the minutes after which one more minute at
    /// `depth` on `gas` brings it into decompression, and 99 minutes if none
    /// of them does.
    pub open spec fn ndl_from(self, depth: Depth, gas: Gas, minutes: nat) -> Time
        decreases NDL_CUT_OFF_MINS - minutes,
    {
        if minutes >= NDL_CUT_OFF_MINS {
            Time { s: (NDL_CUT_OFF_MINS * 60 * SCALE) as i64 }
        } else {
            let next = self.recorded(depth, one_minute(), gas, Exposure::of(self.kinetics.minute));
            if next.in_deco() {
                Time { s: (minutes * 60 * SCALE) as i64 }
            } else {
                next.ndl_from(depth, gas, minutes + 1)
            }
        }
    }

    /// The no-decompression limit: nought in decompression, else what a
    /// twin finds that stays at the current depth on the current gas.
    pub open spec fn ndl(self) -> Time {
        if self.in_deco() {
            Time { s: 0 }
        } else {
            self.forked().ndl_from(self.state.depth, self.state.gas, 0)
        }
    }
}

impl BuehlmannModel {
    /// Plans the ascent to the surface over the gas mixes given, on a twin;
    /// the model itself stays as it is.
    pub fn deco(&self, gas_mixes: [Gas; 16]) -> (r: Result<DecoRuntime, DecoCalculationError>)
        requires
            self.state.depth.m >= 0,
        ensures
            match r {
                Ok(runtime) => runtime_spec(self@, gas_mixes@, false) == Ok::<
                    DecoRuntimeView,
                    DecoCalculationError,
                >(runtime@),
                Err(e) => runtime_spec(self@, gas_mixes@, false) == Err::<
                    DecoRuntimeView,
                    DecoCalculationError,
                >(e),
            },
            r matches Ok(runtime) ==> {
                &&& crate::common::deco::stages_ok(runtime.deco_stages@)
                &&& runtime.tts.s == saturate(
                    crate::common::deco::total_duration(runtime.deco_stages@),
                )
                &&& runtime.deco_stages@.len() > 0 ==> runtime.deco_stages@.last().end_depth.m == 0
            },
    {
        let mut deco = Deco::default();
        assert(self@.forked().forked() == self@.forked());
        deco.calc(self.fork(), gas_mixes)
    }

    /// Whether decompression is owed.
    pub fn in_deco(&self) -> (r: bool)
        requires
            self.state.depth.m >= 0,
        ensures
            r == self@.in_deco(),
    {
        match self.config.ceiling_type {
            CeilingType::Actual => self.ceiling().m > 0,
            CeilingType::Adaptive => {
                let current_gas = self.state.gas;
                let g = current_gas;
                let gas_mixes = [g, g, g, g, g, g, g, g, g, g, g, g, g, g, g, g];
                assert(gas_mixes@ =~= self@.current_gas_only());
                match self.deco(gas_mixes) {
                    Ok(runtime) => runtime.deco_stages.len() > 1,
                    Err(_) => self.ceiling().m > 0,
                }
            },
        }
    }

    /// The no-decompression limit in whole minutes, and 99 minutes at most:
    /// nought in decompression; else the number of minutes that a twin can
    /// stay before one more minute brings it into decompression.
    pub fn ndl(&self) -> (r: Time)
        requires
            self.state.depth.m >= 0,
        ensures
            r == self@.ndl(),
    {
        if self.in_deco() {
            return Time::zero();
        }
        let mut sim_model = self.fork();
        let interval = Time::from_seconds(60 * SCALE);
        let minute = Exposure::of(self.kinetics.minute);
        let mut i: u8 = 0;
        while i < NDL_CUT_OFF_MINS
            invariant
                i <= NDL_CUT_OFF_MINS,
                !self@.in_deco(),
                interval == one_minute(),
                minute == Exposure::of(self.kinetics.minute),
                sim_model.kinetics == self.kinetics,
                self.state.depth.m >= 0,
                self@.forked().ndl_from(self.state.depth, self.state.gas, 0) == sim_model@.ndl_from(
                    self.state.depth,
                    self.state.gas,
                    i as nat,
                ),
            decreases NDL_CUT_OFF_MINS - i,
        {
            let ghost before = sim_model@;
            sim_model.record(self.state.depth, interval, &self.state.gas, &minute);
            if sim_model.in_deco() {
                assert(i * 60 * SCALE == i * (60 * SCALE)) by (nonlinear_arith);
                return Time::from_seconds(i as i64 * (60 * SCALE));
            }
            i += 1;
        }
        Time::from_seconds(NDL_CUT_OFF_MINS as i64 * (60 * SCALE))
    }
}

impl BuehlmannModel {
    /// Inspired oxygen pressure of every one-second slice of a travel from
    /// the current depth to `target_depth` in `time`, in the order of the
    /// slices: what a caller needs to work out the oxygen terms of the
    /// travel.
    pub fn travel_pp_o2(&self, target_depth: Depth, time: Time, gas: &Gas) -> (r: Vec<Pressure>)
        ensures
            r@.len() == travel_steps(time),
            forall|i: int|
                0 <= i < r@.len() ==> #[trigger] r@[i] == gas.inspired_partial_pressures(
                    travel_depth(
                        self.state.depth,
                        over(minus(target_depth.m, self.state.depth.m), time.s),
                        (i + 1) as nat,
                    ),
                    self.config.surface_pressure,
                ).o2,
    {
        let dist_rate: i64 = over(target_depth.minus(self.state.depth).m, time.s);
        let seconds: i64 = whole(time.s);
        let steps: i32 = if seconds < 0 {
            0
        } else if seconds > i32::MAX as i64 {
            i32::MAX
        } else {
            seconds as i32
        };
        let mut pressures: Vec<Pressure> = Vec::new();
        let mut current_depth = self.state.depth;
        let mut i: i32 = 0;
        while i < steps
            invariant
                0 <= i <= steps,
                pressures@.len() == i,
                current_depth == travel_depth(self.state.depth, dist_rate, i as nat),
                forall|j: int|
                    0 <= j < i ==> #[trigger] pressures@[j] == gas.inspired_partial_pressures(
                        travel_depth(self.state.depth, dist_rate, (j + 1) as nat),
                        self.config.surface_pressure,
                    ).o2,
            decreases steps - i,
        {
            current_depth = Depth { m: plus(current_depth.m, dist_rate) };
            pressures.push(
                gas.inspired_partial_pressures(current_depth, self.config.surface_pressure).o2,
            );
            i += 1;
        }
        pressures
    }
}

impl DecoModel for BuehlmannModel {
    type ConfigType = BuehlmannConfig;

    open spec fn depth(&self) -> Depth {
        self.state.depth
    }

    fn config(&self) -> (r: BuehlmannConfig)
        ensures
            r == self.config,
    {
        self.config
    }

    fn dive_state(&self) -> (r: DiveState)
        ensures
            r.time == self.state.time,
            r.gas == self.state.gas,
            r.ox_tox == self.state.ox_tox,
    {
        BuehlmannModel::dive_state(self)
    }

    fn record(&mut self, depth: Depth, time: Time, gas: &Gas, exposure: &Exposure)
        ensures
            final(self)@ == old(self)@.recorded(depth, time, *gas, *exposure),
    {
        BuehlmannModel::record(self, depth, time, gas, exposure)
    }

    fn record_travel(
        &mut self,
        target_depth: Depth,
        time: Time,
        gas: &Gas,
        oxygen: &Vec<OxygenTerms>,
    )
        ensures
            final(self)@ == old(self)@.traveled(target_depth, time, *gas, oxygen@),
    {
        BuehlmannModel::record_travel(self, target_depth, time, gas, oxygen)
    }

    fn record_travel_with_rate(
        &mut self,
        target_depth: Depth,
        rate: AscentRatePerMinute,
        gas: &Gas,
        oxygen: &Vec<OxygenTerms>,
    )
        ensures
            final(self)@ == old(self)@.traveled_with_rate(target_depth, rate, *gas, oxygen@),
    {
        BuehlmannModel::record_travel_with_rate(self, target_depth, rate, gas, oxygen)
    }

    fn ndl(&self) -> (r: Time)
        ensures
            r == self@.ndl(),
    {
        BuehlmannModel::ndl(self)
    }

    fn ceiling(&self) -> (r: Depth)
        ensures
            r == self@.ceiling(),
    {
        BuehlmannModel::ceiling(self)
    }

    fn deco(&self, gas_mixes: [Gas; 16]) -> (r: Result<DecoRuntime, DecoCalculationError>)
        ensures
            match r {
                Ok(runtime) => runtime_spec(self@, gas_mixes@, false) == Ok::<
                    DecoRuntimeView,
                    DecoCalculationError,
                >(runtime@),
                Err(e) => runtime_spec(self@, gas_mixes@, false) == Err::<
                    DecoRuntimeView,
                    DecoCalculationError,
                >(e),
            },
    {
        BuehlmannModel::deco(self, gas_mixes)
    }

    fn cns(&self) -> (r: Cns)
        ensures
            r == self.state.ox_tox.cns,
    {
        BuehlmannModel::cns(self)
    }

    fn otu(&self) -> (r: Otu)
        ensures
            r == self.state.ox_tox.otu,
    {
        BuehlmannModel::otu(self)
    }

    fn in_deco(&self) -> (r: bool)
        ensures
            r == self@.in_deco(),
    {
        BuehlmannModel::in_deco(self)
    }
}

} // verus!
