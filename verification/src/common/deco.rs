//! The planner of the ascent: the decision what to do next, the stages it
//! makes, and the plan as a whole.
use vstd::prelude::*;
use crate::buehlmann::buehlmann_model::{BuehlmannModel, ModelView};
use crate::buehlmann::kinetics::Exposure;
use crate::common::depth::Depth;
use crate::common::fixed::{
    ceil_to,
    ceil_to_at_least,
    ceil_to_is_least_multiple,
    from_int,
    over_fraction_at_least,
    over_spec,
    saturate,
    scaled_by_whole,
    SCALE,
};
use crate::common::gas::Gas;
use crate::common::global_types::{DepthType, Pressure};
use crate::common::ox_tox::OxygenTerms;
use crate::common::sim::Sim;
use crate::common::time::Time;

verus! {

/// Most gas mixes a plan can choose from.
pub const MAX_GASSES: usize = 16;

/// Most stages a plan can hold.
pub const MAX_DECO_STAGE: usize = 16;

/// Most steps a plan may take: a day of one-second stops.
pub const MAX_DECO_STEPS: u32 = 86_400;

/// Spacing of the stop depths, in metres.
pub const DEFAULT_CEILING_WINDOW: DepthType = 3_000_000_000;

/// Deepest equivalent narcotic depth at which a gas is switched to.
pub const DEFAULT_MAX_END_DEPTH: DepthType = 30_000_000_000;

/// Oxygen pressure that bounds the depth of a decompression gas, in bar.
pub const DECO_PP_O2_LIMIT: Pressure = 1_600_000_000;

/// Length of the hold after which the time to surface is planned again.
pub const TTS_LOOKAHEAD_MINUTES: i32 = 5;

#[derive(Clone, Copy, Debug, PartialEq, Eq, Structural)]
pub enum DecoAction {
    AscentToCeil,
    AscentToGasSwitchDepth,
    SwitchGas,
    Stop,
}

#[derive(Clone, Copy, Debug, PartialEq, Eq, Structural)]
pub enum DecoStageType {
    Ascent,
    DecoStop,
    GasSwitch,
}

#[derive(Clone, Copy, Debug, PartialEq, Eq, Structural)]
pub struct DecoStage {
    pub stage_type: DecoStageType,
    pub start_depth: Depth,
    pub end_depth: Depth,
    pub duration: Time,
    pub gas: Gas,
    /// Set on every stage of a plan; unset on the default stage.
    pub valid: bool,
}

/// The planner: the stages found so far and their total time.
#[derive(Clone, Debug)]
pub struct Deco {
    pub deco_stages: Vec<DecoStage>,
    pub tts: Time,
    /// Set on the planner that plans the time to surface after five more
    /// minutes; it looks no further ahead itself.
    pub sim: bool,
}

#[derive(Clone, Debug, PartialEq, Eq)]
pub struct DecoRuntime {
    /// The stages in their order.
    pub deco_stages: Vec<DecoStage>,
    /// Time to surface.
    pub tts: Time,
    /// Time to surface after five more minutes at the current depth on the
    /// current gas.
    pub tts_at_5: Time,
    /// Change of the time to surface over those five minutes.
    pub tts_delta_at_5: Time,
}

/// The current depth is shallower than the stop that the ceiling asks for.
#[derive(Clone, Copy, Debug, PartialEq, Eq, Structural)]
pub struct MissedDecoStopViolation;

#[derive(Clone, Copy, Debug, PartialEq, Eq, Structural)]
pub enum DecoCalculationError {
    /// No valid gas mix was given.
    EmptyGasList,
    /// The gas that the model breathes is not among the mixes given.
    CurrentGasNotInList,
    /// The plan needs more than sixteen stages.
    StageLimitExceeded,
    /// The plan did not reach the surface within the allowed steps.
    StepLimitExceeded,
}

/// A plan as a mathematical value.
pub struct DecoRuntimeView {
    pub deco_stages: Seq<DecoStage>,
    pub tts: Time,
    pub tts_at_5: Time,
    pub tts_delta_at_5: Time,
}

impl View for DecoRuntime {
    type V = DecoRuntimeView;

    open spec fn view(&self) -> DecoRuntimeView {
        DecoRuntimeView {
            deco_stages: self.deco_stages@,
            tts: self.tts,
            tts_at_5: self.tts_at_5,
            tts_delta_at_5: self.tts_delta_at_5,
        }
    }
}

/// A planner at work: its twin of the model and what it has found so far.
pub struct PlanView {
    pub sim: ModelView,
    pub stages: Seq<DecoStage>,
    pub tts: Time,
}

/// What one step of the planner comes to.
pub enum StepOutcome {
    /// The surface is reached and no ceiling is left.
    Surfaced,
    Next(PlanView),
    Failed(DecoCalculationError),
}

/// The stop depth for a ceiling: the ceiling rounded up to a multiple of
/// three metres.
pub open spec fn deco_stop_depth_spec(ceiling: Depth) -> Depth {
    Depth { m: ceil_to(ceiling.m, DEFAULT_CEILING_WINDOW) }
}

/// Deepest depth at which a gas is breathed during decompression.
#[verifier::opaque]
pub open spec fn deco_mod(gas: Gas) -> Depth {
    gas.max_operating_depth(DECO_PP_O2_LIMIT)
}

/// Whether `gas` can follow `current`: it is a valid mix with more oxygen.
pub open spec fn switch_candidate(gas: Gas, current: Gas) -> bool {
    gas.is_valid() && gas.o2_pp > current.o2_pp
}

/// Whether `gas` can be breathed at `depth`: its operating depth is not
/// above.
pub open spec fn switch_in_reach(gas: Gas, depth: Depth) -> bool {
    deco_mod(gas).m >= depth.m
}

/// Whether `a` is preferred to `b` as the next gas at `depth`. A gas that
/// can be breathed there goes before one that cannot. Of two that can, the
/// one with the lower operating depth goes first; of two that cannot, the
/// one with the higher, which is reached first on the way up. Where the
/// operating depths are equal, the higher oxygen fraction goes first.
pub open spec fn switch_better(a: Gas, b: Gas, depth: Depth) -> bool {
    if switch_in_reach(a, depth) != switch_in_reach(b, depth) {
        switch_in_reach(a, depth)
    } else if deco_mod(a).m != deco_mod(b).m {
        if switch_in_reach(a, depth) {
            deco_mod(a).m < deco_mod(b).m
        } else {
            deco_mod(a).m > deco_mod(b).m
        }
    } else {
        a.o2_pp > b.o2_pp
    }
}

/// Index of the next gas among the first `n` mixes, or -1 if none of them
/// can follow.
pub open spec fn switch_index_upto(gas_mixes: Seq<Gas>, current: Gas, depth: Depth, n: int) -> int
    decreases n,
{
    if n <= 0 {
        -1
    } else {
        let best = switch_index_upto(gas_mixes, current, depth, n - 1);
        if switch_candidate(gas_mixes[n - 1], current) && (best < 0 || switch_better(
            gas_mixes[n - 1],
            gas_mixes[best],
            depth,
        )) {
            n - 1
        } else {
            best
        }
    }
}

/// What `switch_index_upto` finds: none if no mix can follow; else the
/// first mix that can follow and to which no other such mix is preferred.
pub proof fn switch_index_is_first_best(gas_mixes: Seq<Gas>, current: Gas, depth: Depth, n: int)
    requires
        0 <= n <= gas_mixes.len(),
    ensures
        -1 <= switch_index_upto(gas_mixes, current, depth, n) < n,
        switch_index_upto(gas_mixes, current, depth, n) < 0 ==> forall|j: int|
            0 <= j < n ==> !switch_candidate(#[trigger] gas_mixes[j], current),
        switch_index_upto(gas_mixes, current, depth, n) >= 0 ==> {
            let best = switch_index_upto(gas_mixes, current, depth, n);
            &&& switch_candidate(gas_mixes[best], current)
            &&& forall|j: int|
                0 <= j < n && switch_candidate(#[trigger] gas_mixes[j], current) ==> !switch_better(
                    gas_mixes[j],
                    gas_mixes[best],
                    depth,
                )
            &&& forall|j: int|
                0 <= j < best && switch_candidate(#[trigger] gas_mixes[j], current)
                    ==> switch_better(gas_mixes[best], gas_mixes[j], depth)
        },
    decreases n,
{
    if n > 0 {
        switch_index_is_first_best(gas_mixes, current, depth, n - 1);
    }
}

/// The gas to switch to next at `depth`: of the valid mixes with more
/// oxygen than the current one, the one that is preferred to the others,
/// and of several such the first. Among the mixes that can be breathed at
/// `depth` that is the one with the lowest operating depth; if none can be
/// breathed yet, it is the one that can be breathed first on the way up.
pub open spec fn next_switch_gas_spec(depth: Depth, current: Gas, gas_mixes: Seq<Gas>) -> Option<
    Gas,
> {
    let best = switch_index_upto(gas_mixes, current, depth, 16);
    if best < 0 {
        None
    } else {
        Some(gas_mixes[best])
    }
}

/// What to do next at `depth` under `ceiling` on `current_gas`.
pub open spec fn next_deco_action_spec(
    depth: Depth,
    ceiling: Depth,
    current_gas: Gas,
    gas_mixes: Seq<Gas>,
) -> Result<(Option<DecoAction>, Option<Gas>), MissedDecoStopViolation> {
    let switch = next_switch_gas_spec(depth, current_gas, gas_mixes);
    if depth.m <= 0 && ceiling.m <= 0 {
        Ok((None, None))
    } else if ceiling.m <= 0 {
        Ok((Some(DecoAction::AscentToCeil), None))
    } else if depth.m < deco_stop_depth_spec(ceiling).m {
        Err(MissedDecoStopViolation)
    } else if switch.is_some() && switch.unwrap() != current_gas && depth.m <= deco_mod(
        switch.unwrap(),
    ).m && switch.unwrap().equivalent_narcotic_depth(depth).m <= DEFAULT_MAX_END_DEPTH {
        Ok((Some(DecoAction::SwitchGas), switch))
    } else if depth.minus(ceiling).m <= DEFAULT_CEILING_WINDOW {
        Ok((Some(DecoAction::Stop), None))
    } else if switch.is_some() && deco_mod(switch.unwrap()).m >= ceiling.m {
        Ok((Some(DecoAction::AscentToGasSwitchDepth), switch))
    } else {
        Ok((Some(DecoAction::AscentToCeil), None))
    }
}

/// The stages after one more: a stage of the kind and gas of the last one
/// is merged into it, any other is appended. `None` if there is no room.
pub open spec fn registered(stages: Seq<DecoStage>, stage: DecoStage) -> Option<Seq<DecoStage>> {
    if stages.len() > 0 && stages.last().stage_type == stage.stage_type && stages.last().gas
        == stage.gas {
        Some(
            stages.update(
                stages.len() - 1,
                DecoStage {
                    duration: stages.last().duration.plus(stage.duration),
                    end_depth: stage.end_depth,
                    ..stages.last()
                },
            ),
        )
    } else if stages.len() < MAX_DECO_STAGE {
        Some(stages.push(stage))
    } else {
        None
    }
}

/// The planner after a stage that ends in `sim`.
pub open spec fn after_stage(plan: PlanView, sim: ModelView, stage: DecoStage) -> StepOutcome {
    match registered(plan.stages, stage) {
        Some(stages) => StepOutcome::Next(
            PlanView { sim, stages, tts: plan.tts.plus(stage.duration) },
        ),
        None => StepOutcome::Failed(DecoCalculationError::StageLimitExceeded),
    }
}

/// What the gas mixes given to the planner are good for.
pub open spec fn gas_mixes_check(current: Gas, gas_mixes: Seq<Gas>) -> Result<
    (),
    DecoCalculationError,
> {
    if forall|i: int| 0 <= i < 16 ==> !(#[trigger] gas_mixes[i]).is_valid() {
        Err(DecoCalculationError::EmptyGasList)
    } else if forall|i: int| 0 <= i < 16 ==> (#[trigger] gas_mixes[i]) != current {
        Err(DecoCalculationError::CurrentGasNotInList)
    } else {
        Ok(())
    }
}

/// Sum of the durations of the stages, in units of time.
pub open spec fn total_duration(stages: Seq<DecoStage>) -> int
    decreases stages.len(),
{
    if stages.len() == 0 {
        0
    } else {
        total_duration(stages.drop_last()) + stages.last().duration.s
    }
}

/// What holds of the stages of every plan, finished or not: there are at
/// most sixteen, all valid and none of negative duration; each starts at
/// the depth at which the one before it ends; and a gas is switched to at
/// or above its operating depth.
pub open spec fn stages_ok(stages: Seq<DecoStage>) -> bool {
    &&& stages.len() <= MAX_DECO_STAGE
    &&& forall|i: int| 0 <= i < stages.len() ==> (#[trigger] stages[i]).valid
    &&& forall|i: int| 0 <= i < stages.len() ==> (#[trigger] stages[i]).duration.s >= 0
    &&& forall|i: int, j: int|
        0 <= i && j == i + 1 && j < stages.len() ==> (#[trigger] stages[i]).end_depth == (
        #[trigger] stages[j]).start_depth
    &&& forall|i: int|
        0 <= i < stages.len() && (#[trigger] stages[i]).stage_type == DecoStageType::GasSwitch
            ==> stages[i].start_depth.m <= deco_mod(stages[i].gas).m
}

/// What holds of a planner between two steps.
pub open spec fn plan_ok(plan: PlanView) -> bool {
    &&& plan.sim.sim
    &&& plan.sim.state.depth.m >= 0
    &&& stages_ok(plan.stages)
    &&& plan.tts.s == saturate(total_duration(plan.stages))
    &&& plan.stages.len() > 0 ==> plan.stages.last().end_depth == plan.sim.state.depth
}

/// One step of the planner.
#[verifier::opaque]
pub open spec fn plan_step(plan: PlanView, gas_mixes: Seq<Gas>) -> StepOutcome {
    let sim = plan.sim;
    let depth = sim.state.depth;
    let time = sim.state.time;
    let gas = sim.state.gas;
    let ceiling = sim.ceiling();
    let rate = sim.config.deco_ascent_rate;
    match next_deco_action_spec(depth, ceiling, gas, gas_mixes) {
        Err(_) => StepOutcome::Next(
            PlanView {
                sim: sim.recorded(
                    deco_stop_depth_spec(ceiling),
                    Time { s: 0 },
                    gas,
                    Exposure::instant(),
                ),
                stages: Seq::empty(),
                tts: Time { s: 0 },
            },
        ),
        Ok((None, _)) => StepOutcome::Surfaced,
        Ok((Some(DecoAction::AscentToCeil), _)) => {
            let risen = sim.traveled_with_rate(
                deco_stop_depth_spec(ceiling),
                rate,
                gas,
                Seq::empty(),
            );
            after_stage(
                plan,
                risen,
                DecoStage {
                    stage_type: DecoStageType::Ascent,
                    start_depth: depth,
                    end_depth: risen.state.depth,
                    duration: risen.state.time.minus(time),
                    gas,
                    valid: true,
                },
            )
        },
        Ok((Some(DecoAction::AscentToGasSwitchDepth), Some(switch_gas))) => {
            let risen = sim.traveled_with_rate(deco_mod(switch_gas), rate, gas, Seq::empty());
            let switched = risen.recorded(
                risen.state.depth,
                Time { s: 0 },
                switch_gas,
                Exposure::instant(),
            );
            match after_stage(
                plan,
                risen,
                DecoStage {
                    stage_type: DecoStageType::Ascent,
                    start_depth: depth,
                    end_depth: risen.state.depth,
                    duration: risen.state.time.minus(time),
                    gas,
                    valid: true,
                },
            ) {
                StepOutcome::Next(ascended) => after_stage(
                    ascended,
                    switched,
                    DecoStage {
                        stage_type: DecoStageType::GasSwitch,
                        start_depth: risen.state.depth,
                        end_depth: switched.state.depth,
                        duration: switched.state.time.minus(risen.state.time),
                        gas: switch_gas,
                        valid: true,
                    },
                ),
                other => other,
            }
        },
        Ok((Some(DecoAction::AscentToGasSwitchDepth), None)) => StepOutcome::Next(plan),
        Ok((Some(DecoAction::SwitchGas), Some(switch_gas))) => {
            let switched = sim.recorded(depth, Time { s: 0 }, switch_gas, Exposure::instant());
            after_stage(
                plan,
                switched,
                DecoStage {
                    stage_type: DecoStageType::GasSwitch,
                    start_depth: depth,
                    end_depth: depth,
                    duration: Time { s: 0 },
                    gas: switch_gas,
                    valid: true,
                },
            )
        },
        Ok((Some(DecoAction::SwitchGas), None)) => StepOutcome::Next(plan),
        Ok((Some(DecoAction::Stop), _)) => {
            let held = sim.recorded(
                depth,
                Time { s: SCALE },
                gas,
                Exposure::of(sim.kinetics.second),
            );
            after_stage(
                plan,
                held,
                DecoStage {
                    stage_type: DecoStageType::DecoStop,
                    start_depth: depth,
                    end_depth: held.state.depth,
                    duration: held.state.time.minus(time),
                    gas: held.state.gas,
                    valid: true,
                },
            )
        },
    }
}

/// The planner after at most `fuel` further steps: where it surfaced, or
/// why it did not.
pub open spec fn plan_run(plan: PlanView, gas_mixes: Seq<Gas>, fuel: nat) -> Result<
    PlanView,
    DecoCalculationError,
>
    decreases fuel,
{
    match plan_step(plan, gas_mixes) {
        StepOutcome::Surfaced => Ok(plan),
        StepOutcome::Failed(e) => Err(e),
        StepOutcome::Next(next) => if fuel == 0 {
            Err(DecoCalculationError::StepLimitExceeded)
        } else {
            plan_run(next, gas_mixes, (fuel - 1) as nat)
        },
    }
}

/// The stages and the time to surface for a model: the plan of its twin.
pub open spec fn ascent_plan(model: ModelView, gas_mixes: Seq<Gas>) -> Result<
    PlanView,
    DecoCalculationError,
> {
    match gas_mixes_check(model.state.gas, gas_mixes) {
        Err(e) => Err(e),
        Ok(_) => plan_run(
            PlanView { sim: model.forked(), stages: Seq::empty(), tts: Time { s: 0 } },
            gas_mixes,
            MAX_DECO_STEPS as nat,
        ),
    }
}

/// The twin of a model after five more minutes at its depth on its gas.
pub open spec fn five_minutes_on(model: ModelView) -> ModelView {
    model.forked().recorded(
        model.state.depth,
        Time::from_minutes((TTS_LOOKAHEAD_MINUTES * SCALE) as i64),
        model.state.gas,
        Exposure::of(model.kinetics.five_minutes),
    )
}

/// The whole plan for a model. A planner that is itself looking ahead
/// (`lookahead`) gives no time to surface after five minutes.
pub open spec fn runtime_spec(model: ModelView, gas_mixes: Seq<Gas>, lookahead: bool) -> Result<
    DecoRuntimeView,
    DecoCalculationError,
> {
    match ascent_plan(model, gas_mixes) {
        Err(e) => Err(e),
        Ok(plan) => if lookahead {
            Ok(
                DecoRuntimeView {
                    deco_stages: plan.stages,
                    tts: plan.tts,
                    tts_at_5: Time { s: 0 },
                    tts_delta_at_5: Time { s: 0 },
                },
            )
        } else {
            match ascent_plan(five_minutes_on(model), gas_mixes) {
                Err(e) => Err(e),
                Ok(later) => Ok(
                    DecoRuntimeView {
                        deco_stages: plan.stages,
                        tts: plan.tts,
                        tts_at_5: later.tts,
                        tts_delta_at_5: later.tts.minus(plan.tts),
                    },
                ),
            }
        },
    }
}

/// The sum of the durations grows by the duration of a stage appended.
pub proof fn total_duration_push(stages: Seq<DecoStage>, stage: DecoStage)
    ensures
        total_duration(stages.push(stage)) == total_duration(stages) + stage.duration.s,
{
    assert(stages.push(stage).drop_last() =~= stages);
}

/// The sum of the durations follows a change of the last stage.
pub proof fn total_duration_update_last(stages: Seq<DecoStage>, stage: DecoStage)
    requires
        stages.len() > 0,
    ensures
        total_duration(stages.update(stages.len() - 1, stage)) == total_duration(stages)
            - stages.last().duration.s + stage.duration.s,
{
    assert(stages.update(stages.len() - 1, stage).drop_last() =~= stages.drop_last());
}

/// Durations that are not negative add up to a sum that is not negative.
pub proof fn total_duration_nonnegative(stages: Seq<DecoStage>)
    requires
        forall|i: int| 0 <= i < stages.len() ==> (#[trigger] stages[i]).duration.s >= 0,
    ensures
        total_duration(stages) >= 0,
    decreases stages.len(),
{
    if stages.len() > 0 {
        total_duration_nonnegative(stages.drop_last());
    }
}

/// Registering a stage that starts where the plan stands keeps the plan in
/// order and its time to surface the sum of its durations.
pub proof fn registered_keeps_ok(stages: Seq<DecoStage>, tts: Time, stage: DecoStage)
    requires
        stages_ok(stages),
        tts.s == saturate(total_duration(stages)),
        stage.valid,
        stage.duration.s >= 0,
        stages.len() > 0 ==> stages.last().end_depth == stage.start_depth,
        stage.stage_type == DecoStageType::GasSwitch ==> stage.start_depth.m <= deco_mod(
            stage.gas,
        ).m,
    ensures
        registered(stages, stage) matches Some(after) ==> {
            &&& stages_ok(after)
            &&& tts.plus(stage.duration).s == saturate(total_duration(after))
            &&& after.len() > 0
            &&& after.last().end_depth == stage.end_depth
        },
{
    total_duration_nonnegative(stages);
    if stages.len() > 0 && stages.last().stage_type == stage.stage_type && stages.last().gas
        == stage.gas {
        let last = stages.last();
        let merged = DecoStage {
            duration: last.duration.plus(stage.duration),
            end_depth: stage.end_depth,
            ..last
        };
        let after = stages.update(stages.len() - 1, merged);
        total_duration_update_last(stages, merged);
        total_duration_nonnegative(stages.drop_last());
        assert(total_duration(stages) == total_duration(stages.drop_last()) + last.duration.s);
        assert(last.duration.s >= 0);
        assert(merged.start_depth == last.start_depth);
        assert(merged.gas == last.gas);
        assert(merged.stage_type == last.stage_type);
        assert(after.len() == stages.len());
        assert forall|i: int| 0 <= i < after.len() implies (#[trigger] after[i]).valid by {
            assert(stages[i].valid);
        }
        assert forall|i: int| 0 <= i < after.len() implies (#[trigger] after[i]).duration.s
            >= 0 by {
            assert(stages[i].duration.s >= 0);
        }
        assert forall|i: int, j: int| 0 <= i && j == i + 1 && j < after.len() implies (
        #[trigger] after[i]).end_depth == (#[trigger] after[j]).start_depth by {
            assert(stages[i].end_depth == stages[j].start_depth);
        }
        assert forall|i: int|
            0 <= i < after.len() && (#[trigger] after[i]).stage_type
                == DecoStageType::GasSwitch implies after[i].start_depth.m <= deco_mod(
            after[i].gas,
        ).m by {
            assert(stages[i].stage_type == after[i].stage_type);
        }
    } else if stages.len() < MAX_DECO_STAGE {
        let after = stages.push(stage);
        total_duration_push(stages, stage);
        assert forall|i: int| 0 <= i < after.len() implies (#[trigger] after[i]).valid by {
            if i < stages.len() {
                assert(stages[i].valid);
            }
        }
        assert forall|i: int| 0 <= i < after.len() implies (#[trigger] after[i]).duration.s
            >= 0 by {
            if i < stages.len() {
                assert(stages[i].duration.s >= 0);
            }
        }
        assert forall|i: int, j: int| 0 <= i && j == i + 1 && j < after.len() implies (
        #[trigger] after[i]).end_depth == (#[trigger] after[j]).start_depth by {
            if j < stages.len() {
                assert(stages[i].end_depth == stages[j].start_depth);
            }
        }
        assert forall|i: int|
            0 <= i < after.len() && (#[trigger] after[i]).stage_type
                == DecoStageType::GasSwitch implies after[i].start_depth.m <= deco_mod(
            after[i].gas,
        ).m by {
            if i < stages.len() {
                assert(stages[i].stage_type == after[i].stage_type);
            }
        }
    }
}

impl Default for DecoStage {
    /// An empty slot: no stage at all.
    fn default() -> (r: Self)
        ensures
            !r.valid,
            r.stage_type == DecoStageType::Ascent,
            r.start_depth.m == 0,
            r.end_depth.m == 0,
            r.duration.s == 0,
            r.gas == Gas::air_spec(),
    {
        Self {
            stage_type: DecoStageType::Ascent,
            start_depth: Depth::zero(),
            end_depth: Depth::zero(),
            duration: Time::zero(),
            gas: Gas::air(),
            valid: false,
        }
    }
}

impl Default for Deco {
    fn default() -> (r: Self)
        ensures
            r.deco_stages@.len() == 0,
            r.tts.s == 0,
            !r.sim,
    {
        Deco { deco_stages: Vec::new(), tts: Time::zero(), sim: false }
    }
}

impl DecoCalculationError {
    /// The error in words.
    pub open spec fn message_spec(&self) -> Seq<char> {
        match self {
            DecoCalculationError::EmptyGasList => "At least one available gas mix required"@,
            DecoCalculationError::CurrentGasNotInList =>
                "Available gas mixes must include current gas mix used by deco model"@,
            DecoCalculationError::StageLimitExceeded =>
                "Decompression needs more stages than a runtime holds"@,
            DecoCalculationError::StepLimitExceeded =>
                "Decompression does not end within the longest planned time"@,
        }
    }

    /// The error in words.
    pub fn message(&self) -> (r: &'static str)
        ensures
            r@ == self.message_spec(),
    {
        match self {
            DecoCalculationError::EmptyGasList => "At least one available gas mix required",
            DecoCalculationError::CurrentGasNotInList =>
                "Available gas mixes must include current gas mix used by deco model",
            DecoCalculationError::StageLimitExceeded =>
                "Decompression needs more stages than a runtime holds",
            DecoCalculationError::StepLimitExceeded =>
                "Decompression does not end within the longest planned time",
        }
    }
}

fn copy_stages(stages: &Vec<DecoStage>) -> (r: Vec<DecoStage>)
    ensures
        r@ == stages@,
{
    let mut copy: Vec<DecoStage> = Vec::new();
    let mut i: usize = 0;
    while i < stages.len()
        invariant
            i <= stages.len(),
            copy@ == stages@.take(i as int),
        decreases stages.len() - i,
    {
        copy.push(stages[i]);
        assert(stages@.take(i + 1) =~= stages@.take(i as int).push(stages@[i as int]));
        i += 1;
    }
    assert(stages@.take(stages@.len() as int) =~= stages@);
    copy
}

impl Sim for Deco {
    fn fork(&self) -> (r: Self)
        ensures
            r.sim,
            r.deco_stages@ == self.deco_stages@,
            r.tts == self.tts,
    {
        Self { deco_stages: copy_stages(&self.deco_stages), tts: self.tts, sim: true }
    }

    fn is_sim(&self) -> (r: bool)
        ensures
            r == self.sim,
    {
        self.sim
    }
}

impl Deco {
    /// The planner this far.
    pub open spec fn plan(&self, sim_model: &BuehlmannModel) -> PlanView {
        PlanView { sim: sim_model@, stages: self.deco_stages@, tts: self.tts }
    }

    /// A planner that does not look ahead.
    pub fn new_sim() -> (r: Self)
        ensures
            r.sim,
            r.deco_stages@.len() == 0,
            r.tts.s == 0,
    {
        let deco = Self::default();
        deco.fork()
    }

    /// The depth of the stop for a ceiling: the next multiple of three
    /// metres at or below the ceiling.
    pub fn deco_stop_depth(&self, ceiling: Depth) -> (r: Depth)
        ensures
            r == deco_stop_depth_spec(ceiling),
            i64::MIN < ceiling.m <= i64::MAX - DEFAULT_CEILING_WINDOW ==> {
                &&& (r.m as int) % (DEFAULT_CEILING_WINDOW as int) == 0
                &&& ceiling.m <= r.m < ceiling.m + DEFAULT_CEILING_WINDOW
            },
    {
        proof {
            if i64::MIN < ceiling.m <= i64::MAX - DEFAULT_CEILING_WINDOW {
                ceil_to_is_least_multiple(ceiling.m, DEFAULT_CEILING_WINDOW);
            }
        }
        Depth::from_meters(ceil_to(ceiling.as_meters(), DEFAULT_CEILING_WINDOW))
    }

    /// The gas to switch to next at `current_depth` from `current_gas`: of
    /// the valid mixes with more oxygen, the one with the lowest operating
    /// depth at 1.6 bar of oxygen among those that can be breathed at the
    /// current depth; where none can be breathed yet, the one with the
    /// highest operating depth. Of two mixes with the same operating depth
    /// the one with more oxygen is taken, and of equal mixes the first.
    pub fn next_switch_gas(
        &self,
        current_depth: Depth,
        current_gas: &Gas,
        gas_mixes: &[Gas; 16],
    ) -> (r: Option<Gas>)
        ensures
            r == next_switch_gas_spec(current_depth, *current_gas, gas_mixes@),
            r.is_none() <==> forall|j: int|
                0 <= j < 16 ==> !switch_candidate(#[trigger] gas_mixes[j], *current_gas),
            r matches Some(gas) ==> {
                &&& switch_candidate(gas, *current_gas)
                &&& exists|i: int| 0 <= i < 16 && gas_mixes[i] == gas
                &&& forall|j: int|
                    0 <= j < 16 && switch_candidate(#[trigger] gas_mixes[j], *current_gas)
                        ==> !switch_better(gas_mixes[j], gas, current_depth)
            },
    {
        proof {
            reveal(deco_mod);
        }
        let mut best: Option<usize> = None;
        let mut i: usize = 0;
        while i < 16
            invariant
                i <= 16,
                forall|g: Gas| #[trigger] deco_mod(g) == g.max_operating_depth(DECO_PP_O2_LIMIT),
                match best {
                    Some(b) => b == switch_index_upto(
                        gas_mixes@,
                        *current_gas,
                        current_depth,
                        i as int,
                    ),
                    None => switch_index_upto(gas_mixes@, *current_gas, current_depth, i as int)
                        == -1,
                },
                best matches Some(b) ==> b < i,
            decreases 16 - i,
        {
            let gas = gas_mixes[i];
            if gas.is_valid() && gas.o2_pp > current_gas.o2_pp {
                let better = match best {
                    None => true,
                    Some(b) => {
                        let gas_mod: i64 = gas.max_operating_depth(DECO_PP_O2_LIMIT).m;
                        let best_mod: i64 = gas_mixes[b].max_operating_depth(DECO_PP_O2_LIMIT).m;
                        let gas_in_reach = gas_mod >= current_depth.m;
                        let best_in_reach = best_mod >= current_depth.m;
                        if gas_in_reach != best_in_reach {
                            gas_in_reach
                        } else if gas_mod != best_mod {
                            if gas_in_reach {
                                gas_mod < best_mod
                            } else {
                                gas_mod > best_mod
                            }
                        } else {
                            gas.o2_pp > gas_mixes[b].o2_pp
                        }
                    },
                };
                if better {
                    best = Some(i);
                }
            }
            i += 1;
        }
        proof {
            switch_index_is_first_best(gas_mixes@, *current_gas, current_depth, 16);
        }
        match best {
            Some(b) => Some(gas_mixes[b]),
            None => None,
        }
    }

    /// Decides the next step of an ascent from the state of the twin: done
    /// at the surface without a ceiling; straight up without a ceiling; a
    /// missed stop above the stop depth; else a gas switch where the next
    /// gas can be breathed, a stop within three metres of the ceiling, an
    /// ascent to the operating depth of the next gas if that is not above
    /// the ceiling, and an ascent to the stop depth otherwise.
    pub fn next_deco_action(&self, sim_model: &BuehlmannModel, gas_mixes: [Gas; 16]) -> (r: Result<
        (Option<DecoAction>, Option<Gas>),
        MissedDecoStopViolation,
    >)
        ensures
            r == next_deco_action_spec(
                sim_model.state.depth,
                sim_model@.ceiling(),
                sim_model.state.gas,
                gas_mixes@,
            ),
            r matches Ok((Some(DecoAction::SwitchGas), switch)) ==> switch.is_some(),
            r matches Ok((Some(DecoAction::AscentToGasSwitchDepth), switch)) ==> switch.is_some(),
            r matches Ok((_, Some(gas))) ==> switch_candidate(gas, sim_model.state.gas),
            r matches Ok((Some(DecoAction::SwitchGas), Some(gas))) ==> sim_model.state.depth.m
                <= deco_mod(gas).m,
            r matches Ok((Some(_), _)) ==> sim_model.state.depth.m >= 0,
    {
        let current_depth = sim_model.state.depth;
        let current_gas = sim_model.state.gas;
        let ceiling = sim_model.ceiling();
        proof {
            reveal(deco_mod);
            ceil_to_at_least(ceiling.m, DEFAULT_CEILING_WINDOW);
        }
        if current_depth.m <= 0 && ceiling.m <= 0 {
            return Ok((None, None));
        }
        if ceiling.m <= 0 {
            return Ok((Some(DecoAction::AscentToCeil), None));
        }
        if current_depth.m < self.deco_stop_depth(ceiling).m {
            return Err(MissedDecoStopViolation);
        }
        let next_switch_gas = self.next_switch_gas(current_depth, &current_gas, &gas_mixes);
        if let Some(switch_gas) = next_switch_gas {
            let gas_mod = switch_gas.max_operating_depth(DECO_PP_O2_LIMIT);
            let gas_end = switch_gas.equivalent_narcotic_depth(current_depth);
            if switch_gas != current_gas && current_depth.m <= gas_mod.m && gas_end.m
                <= DEFAULT_MAX_END_DEPTH {
                return Ok((Some(DecoAction::SwitchGas), Some(switch_gas)));
            }
        }
        let ceiling_padding = current_depth.minus(ceiling);
        if ceiling_padding.m <= DEFAULT_CEILING_WINDOW {
            Ok((Some(DecoAction::Stop), None))
        } else {
            if let Some(switch_gas) = next_switch_gas {
                if switch_gas.max_operating_depth(DECO_PP_O2_LIMIT).m >= ceiling.m {
                    return Ok((Some(DecoAction::AscentToGasSwitchDepth), Some(switch_gas)));
                }
            }
            Ok((Some(DecoAction::AscentToCeil), None))
        }
    }

    /// Takes a stage into the plan: merged into the last stage if that is of
    /// the same kind on the same gas, else appended. The time to surface
    /// grows by the stage's duration. Fails, and changes nothing, if the
    /// stage would be the seventeenth.
    pub fn register_deco_stage(&mut self, stage: DecoStage) -> (r: Result<(), DecoCalculationError>)
        ensures
            match registered(old(self).deco_stages@, stage) {
                Some(stages) => r.is_ok() && final(self).deco_stages@ == stages && final(self).tts
                    == old(self).tts.plus(stage.duration),
                None => r == Err::<(), DecoCalculationError>(
                    DecoCalculationError::StageLimitExceeded,
                ) && final(self).deco_stages@ == old(self).deco_stages@ && final(self).tts == old(self).tts,
            },
            final(self).sim == old(self).sim,
    {
        let n = self.deco_stages.len();
        let mut push_new = true;
        if n > 0 {
            let last_stage = self.deco_stages[n - 1];
            if last_stage.stage_type == stage.stage_type && last_stage.gas == stage.gas {
                let merged = DecoStage {
                    duration: last_stage.duration.plus(stage.duration),
                    end_depth: stage.end_depth,
                    ..last_stage
                };
                self.deco_stages.set(n - 1, merged);
                push_new = false;
            }
        }
        if push_new {
            if n >= MAX_DECO_STAGE {
                return Err(DecoCalculationError::StageLimitExceeded);
            }
            self.deco_stages.push(stage);
        }
        self.tts = self.tts.plus(stage.duration);
        Ok(())
    }

    /// Checks the gas mixes of a plan: one of them has to be valid, and the
    /// gas that the model breathes has to be among them.
    pub fn validate_gas_mixes(deco_model: &BuehlmannModel, gas_mixes: &[Gas; 16]) -> (r: Result<
        (),
        DecoCalculationError,
    >)
        ensures
            r == gas_mixes_check(deco_model.state.gas, gas_mixes@),
    {
        let current_gas = deco_model.state.gas;
        let mut any_valid = false;
        let mut current_found = false;
        let mut i: usize = 0;
        while i < 16
            invariant
                i <= 16,
                current_gas == deco_model.state.gas,
                any_valid <==> exists|j: int| 0 <= j < i && (#[trigger] gas_mixes[j]).is_valid(),
                current_found <==> exists|j: int|
                    0 <= j < i && (#[trigger] gas_mixes[j]) == current_gas,
            decreases 16 - i,
        {
            if gas_mixes[i].is_valid() {
                any_valid = true;
            }
            if gas_mixes[i] == current_gas {
                current_found = true;
            }
            i += 1;
        }
        if !any_valid {
            return Err(DecoCalculationError::EmptyGasList);
        }
        if !current_found {
            return Err(DecoCalculationError::CurrentGasNotInList);
        }
        Ok(())
    }
}

/// A valid gas has an operating depth that is not above the surface.
pub proof fn deco_mod_nonnegative(gas: Gas)
    requires
        gas.is_valid(),
    ensures
        deco_mod(gas).m >= 0,
{
    reveal(deco_mod);
    let quotient = over_spec(DECO_PP_O2_LIMIT, gas.o2_pp);
    if gas.o2_pp == 0 {
        reveal(over_spec);
        assert(DECO_PP_O2_LIMIT * SCALE > 0) by (nonlinear_arith);
    } else {
        over_fraction_at_least(DECO_PP_O2_LIMIT, gas.o2_pp);
    }
    scaled_by_whole(crate::common::fixed::minus_spec(quotient, SCALE), 10);
    assert(crate::common::fixed::minus_spec(quotient, SCALE) * 10 >= 0);
}

impl Deco {
    /// Takes one step of the plan on the twin: decides what to do, does it,
    /// and registers the stage that it makes. `Ok(true)` says that the
    /// surface is reached. After a missed stop the twin is put to the stop
    /// depth and the plan starts anew from there.
    pub fn step(&mut self, sim_model: &mut BuehlmannModel, gas_mixes: [Gas; 16]) -> (r: Result<
        bool,
        DecoCalculationError,
    >)
        requires
            plan_ok(old(self).plan(old(sim_model))),
        ensures
            match plan_step(old(self).plan(old(sim_model)), gas_mixes@) {
                StepOutcome::Surfaced => r == Ok::<bool, DecoCalculationError>(true) && final(self).plan(final(sim_model)) == old(self).plan(old(sim_model)) && old(sim_model).state.depth.m == 0,
                StepOutcome::Failed(e) => r == Err::<bool, DecoCalculationError>(e),
                StepOutcome::Next(next) => r == Ok::<bool, DecoCalculationError>(false) && final(self).plan(final(sim_model)) == next && plan_ok(next),
            },
            final(self).sim == old(self).sim,
    {
        proof {
            reveal(plan_step);
        }
        let pre_stage_depth = sim_model.state.depth;
        let pre_stage_time = sim_model.state.time;
        let pre_stage_gas = sim_model.state.gas;
        let ceiling = sim_model.ceiling();
        let ascent_rate = sim_model.config.deco_ascent_rate;
        let no_terms: Vec<OxygenTerms> = Vec::new();
        proof {
            assert(no_terms@ =~= Seq::<OxygenTerms>::empty());
            ceil_to_at_least(ceiling.m, DEFAULT_CEILING_WINDOW);
        }
        let next_deco_action = self.next_deco_action(sim_model, gas_mixes);
        let (deco_action, next_switch_gas) = match next_deco_action {
            Err(_) => {
                sim_model.record(
                    self.deco_stop_depth(ceiling),
                    Time::zero(),
                    &pre_stage_gas,
                    &Exposure::instant(),
                );
                self.deco_stages = Vec::new();
                self.tts = Time::zero();
                assert(self.deco_stages@ =~= Seq::<DecoStage>::empty());
                return Ok(false);
            },
            Ok(decided) => decided,
        };
        let deco_action = match deco_action {
            None => {
                return Ok(true);
            },
            Some(deco_action) => deco_action,
        };
        match deco_action {
            DecoAction::AscentToCeil => {
                sim_model.record_travel_with_rate(
                    self.deco_stop_depth(ceiling),
                    ascent_rate,
                    &pre_stage_gas,
                    &no_terms,
                );
                let stage = DecoStage {
                    stage_type: DecoStageType::Ascent,
                    start_depth: pre_stage_depth,
                    end_depth: sim_model.state.depth,
                    duration: sim_model.state.time.minus(pre_stage_time),
                    gas: pre_stage_gas,
                    valid: true,
                };
                proof {
                    registered_keeps_ok(self.deco_stages@, self.tts, stage);
                }
                match self.register_deco_stage(stage) {
                    Err(e) => Err(e),
                    Ok(_) => Ok(false),
                }
            },
            DecoAction::AscentToGasSwitchDepth => {
                match next_switch_gas {
                    None => Ok(false),
                    Some(switch_gas) => {
                        proof {
                            deco_mod_nonnegative(switch_gas);
                            reveal(deco_mod);
                        }
                        let switch_gas_mod = switch_gas.max_operating_depth(DECO_PP_O2_LIMIT);
                        sim_model.record_travel_with_rate(
                            switch_gas_mod,
                            ascent_rate,
                            &pre_stage_gas,
                            &no_terms,
                        );
                        let post_ascent_depth = sim_model.state.depth;
                        let post_ascent_time = sim_model.state.time;
                        let ghost risen = sim_model@;
                        let ascent = DecoStage {
                            stage_type: DecoStageType::Ascent,
                            start_depth: pre_stage_depth,
                            end_depth: post_ascent_depth,
                            duration: post_ascent_time.minus(pre_stage_time),
                            gas: pre_stage_gas,
                            valid: true,
                        };
                        sim_model.record(
                            post_ascent_depth,
                            Time::zero(),
                            &switch_gas,
                            &Exposure::instant(),
                        );
                        let switch = DecoStage {
                            stage_type: DecoStageType::GasSwitch,
                            start_depth: post_ascent_depth,
                            end_depth: sim_model.state.depth,
                            duration: sim_model.state.time.minus(post_ascent_time),
                            gas: switch_gas,
                            valid: true,
                        };
                        proof {
                            registered_keeps_ok(self.deco_stages@, self.tts, ascent);
                        }
                        match self.register_deco_stage(ascent) {
                            Err(e) => {
                                return Err(e);
                            },
                            Ok(_) => {},
                        }
                        proof {
                            registered_keeps_ok(self.deco_stages@, self.tts, switch);
                        }
                        match self.register_deco_stage(switch) {
                            Err(e) => Err(e),
                            Ok(_) => Ok(false),
                        }
                    },
                }
            },
            DecoAction::SwitchGas => {
                match next_switch_gas {
                    None => Ok(false),
                    Some(switch_gas) => {
                        sim_model.record(
                            pre_stage_depth,
                            Time::zero(),
                            &switch_gas,
                            &Exposure::instant(),
                        );
                        let stage = DecoStage {
                            stage_type: DecoStageType::GasSwitch,
                            start_depth: pre_stage_depth,
                            end_depth: pre_stage_depth,
                            duration: Time::zero(),
                            gas: switch_gas,
                            valid: true,
                        };
                        proof {
                            registered_keeps_ok(self.deco_stages@, self.tts, stage);
                        }
                        match self.register_deco_stage(stage) {
                            Err(e) => Err(e),
                            Ok(_) => Ok(false),
                        }
                    },
                }
            },
            DecoAction::Stop => {
                let second = Exposure::of(sim_model.kinetics.second);
                sim_model.record(
                    pre_stage_depth,
                    Time::from_seconds(SCALE),
                    &pre_stage_gas,
                    &second,
                );
                let stage = DecoStage {
                    stage_type: DecoStageType::DecoStop,
                    start_depth: pre_stage_depth,
                    end_depth: sim_model.state.depth,
                    duration: sim_model.state.time.minus(pre_stage_time),
                    gas: sim_model.state.gas,
                    valid: true,
                };
                proof {
                    registered_keeps_ok(self.deco_stages@, self.tts, stage);
                }
                match self.register_deco_stage(stage) {
                    Err(e) => Err(e),
                    Ok(_) => Ok(false),
                }
            },
        }
    }

    /// Plans the ascent of a model to the surface over the gas mixes given.
    ///
    /// The plan is made on a twin of the model, step by step, until the
    /// twin is at the surface with no ceiling left. Unless this planner is
    /// itself looking ahead, the time to surface is planned once more for
    /// the twin after five more minutes at its depth on its gas.
    pub fn calc(&mut self, deco_model: BuehlmannModel, gas_mixes: [Gas; 16]) -> (r: Result<
        DecoRuntime,
        DecoCalculationError,
    >)
        requires
            deco_model.state.depth.m >= 0,
        ensures
            match r {
                Ok(runtime) => runtime_spec(deco_model@, gas_mixes@, old(self).sim) == Ok::<
                    DecoRuntimeView,
                    DecoCalculationError,
                >(runtime@),
                Err(e) => runtime_spec(deco_model@, gas_mixes@, old(self).sim) == Err::<
                    DecoRuntimeView,
                    DecoCalculationError,
                >(e),
            },
            r matches Ok(runtime) ==> {
                &&& stages_ok(runtime.deco_stages@)
                &&& runtime.tts.s == saturate(total_duration(runtime.deco_stages@))
                &&& runtime.deco_stages@.len() > 0 ==> runtime.deco_stages@.last().end_depth.m == 0
                &&& final(self).deco_stages@ == runtime.deco_stages@
                &&& final(self).tts == runtime.tts
            },
            final(self).sim == old(self).sim,
        decreases
                (if old(self).sim {
                    0nat
                } else {
                    1nat
                }),
    {
        match Self::validate_gas_mixes(&deco_model, &gas_mixes) {
            Err(e) => {
                return Err(e);
            },
            Ok(_) => {},
        }
        self.deco_stages = Vec::new();
        self.tts = Time::zero();
        let mut sim_model = deco_model.fork();
        let mut fuel: u32 = MAX_DECO_STEPS;
        let ghost start = self.plan(&sim_model);
        proof {
            assert(self.deco_stages@ =~= Seq::<DecoStage>::empty());
            assert(total_duration(self.deco_stages@) == 0);
        }
        loop
            invariant
                self.sim == old(self).sim,
                plan_ok(self.plan(&sim_model)),
                ascent_plan(deco_model@, gas_mixes@) == plan_run(
                    start,
                    gas_mixes@,
                    MAX_DECO_STEPS as nat,
                ),
                plan_run(start, gas_mixes@, MAX_DECO_STEPS as nat) == plan_run(
                    self.plan(&sim_model),
                    gas_mixes@,
                    fuel as nat,
                ),
            ensures
                self.sim == old(self).sim,
                plan_ok(self.plan(&sim_model)),
                sim_model.state.depth.m == 0,
                plan_run(start, gas_mixes@, MAX_DECO_STEPS as nat) == Ok::<
                    PlanView,
                    DecoCalculationError,
                >(self.plan(&sim_model)),
            decreases fuel,
        {
            match self.step(&mut sim_model, gas_mixes) {
                Err(e) => {
                    return Err(e);
                },
                Ok(true) => {
                    break ;
                },
                Ok(false) => {
                    if fuel == 0 {
                        return Err(DecoCalculationError::StepLimitExceeded);
                    }
                    fuel -= 1;
                },
            }
        }
        let tts = self.tts;
        let mut tts_at_5 = Time::zero();
        let mut tts_delta_at_5 = Time::zero();
        if !self.is_sim() {
            let mut nested_sim_deco = Deco::new_sim();
            let mut nested_sim_model = deco_model.fork();
            let sim_depth = nested_sim_model.state.depth;
            let sim_gas = nested_sim_model.state.gas;
            let five_minutes = Exposure::of(nested_sim_model.kinetics.five_minutes);
            nested_sim_model.record(
                sim_depth,
                Time::from_minutes(from_int(TTS_LOOKAHEAD_MINUTES)),
                &sim_gas,
                &five_minutes,
            );
            assert(nested_sim_model@ == five_minutes_on(deco_model@));
            assert(nested_sim_model@.forked() == nested_sim_model@);
            match nested_sim_deco.calc(nested_sim_model, gas_mixes) {
                Err(e) => {
                    return Err(e);
                },
                Ok(nested_deco) => {
                    tts_at_5 = nested_deco.tts;
                    tts_delta_at_5 = tts_at_5.minus(tts);
                },
            }
        }
        Ok(DecoRuntime { deco_stages: copy_stages(&self.deco_stages), tts, tts_at_5, tts_delta_at_5 })
    }
}

} // verus!
