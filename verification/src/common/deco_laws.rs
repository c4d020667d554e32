//! What holds of every plan.
use vstd::prelude::*;
use crate::buehlmann::buehlmann_model::ModelView;
use crate::buehlmann::kinetics::Exposure;
use crate::common::deco::{
    ascent_plan,
    deco_mod,
    deco_mod_nonnegative,
    deco_stop_depth_spec,
    five_minutes_on,
    gas_mixes_check,
    next_deco_action_spec,
    plan_ok,
    plan_run,
    plan_step,
    registered,
    registered_keeps_ok,
    runtime_spec,
    stages_ok,
    switch_index_is_first_best,
    total_duration,
    DecoAction,
    DecoStage,
    DecoStageType,
    PlanView,
    StepOutcome,
    DEFAULT_CEILING_WINDOW,
    MAX_DECO_STEPS,
    TTS_LOOKAHEAD_MINUTES,
};
use crate::common::fixed::{ceil_to_at_least, ceil_to_is_least_multiple, saturate, SCALE};
use crate::common::gas::Gas;
use crate::common::time::Time;

verus! {

/// The time to surface after five minutes that a plan gives is the time to
/// surface of the plan that is made for the twin of the same model once it
/// has stayed five more minutes at its depth on its gas; and the change that
/// the plan gives is the difference of the two.
pub proof fn tts_at_5_is_tts_five_minutes_on(model: ModelView, gas_mixes: Seq<Gas>)
    ensures
        runtime_spec(model, gas_mixes, false) matches Ok(now) ==> {
            &&& runtime_spec(five_minutes_on(model), gas_mixes, true) matches Ok(later)
            &&& later.tts == now.tts_at_5
            &&& now.tts_delta_at_5 == later.tts.minus(now.tts)
        },
{
    assert(five_minutes_on(model).forked() == five_minutes_on(model)) by {
        reveal(ModelView::recorded);
    }
    assert(five_minutes_on(model).state.gas == model.state.gas) by {
        model.forked().recorded_keeps(
            model.state.depth,
            Time::from_minutes((TTS_LOOKAHEAD_MINUTES * SCALE) as i64),
            model.state.gas,
            Exposure::of(model.kinetics.five_minutes),
        );
    }
}

/// A plan that starts above the stop depth for its ceiling is the plan for
/// the twin put to that stop depth, with one step less to go.
pub proof fn missed_stop_plans_from_stop_depth(model: ModelView, gas_mixes: Seq<Gas>)
    requires
        gas_mixes_check(model.state.gas, gas_mixes).is_ok(),
        next_deco_action_spec(
            model.state.depth,
            model.forked().ceiling(),
            model.state.gas,
            gas_mixes,
        ).is_err(),
    ensures
        ascent_plan(model, gas_mixes) == plan_run(
            PlanView {
                sim: model.forked().recorded(
                    deco_stop_depth_spec(model.forked().ceiling()),
                    Time { s: 0 },
                    model.state.gas,
                    Exposure::instant(),
                ),
                stages: Seq::empty(),
                tts: Time { s: 0 },
            },
            gas_mixes,
            (MAX_DECO_STEPS - 1) as nat,
        ),
{
    reveal(plan_step);
}

/// A step keeps a planner in order, and the planner is done only at the
/// surface.
pub proof fn plan_step_keeps_ok(plan: PlanView, gas_mixes: Seq<Gas>)
    requires
        plan_ok(plan),
        gas_mixes.len() == 16,
    ensures
        match plan_step(plan, gas_mixes) {
            StepOutcome::Surfaced => plan.sim.state.depth.m == 0,
            StepOutcome::Next(next) => plan_ok(next),
            StepOutcome::Failed(_) => true,
        },
{
    reveal(plan_step);
    let sim = plan.sim;
    let depth = sim.state.depth;
    let time = sim.state.time;
    let gas = sim.state.gas;
    let ceiling = sim.ceiling();
    let rate = sim.config.deco_ascent_rate;
    sim.twin_ceiling_nonnegative();
    ceil_to_at_least(ceiling.m, DEFAULT_CEILING_WINDOW);
    switch_index_is_first_best(gas_mixes, gas, depth, 16);
    assert(total_duration(Seq::<DecoStage>::empty()) == 0);
    match next_deco_action_spec(depth, ceiling, gas, gas_mixes) {
        Err(_) => {
            sim.recorded_keeps(
                deco_stop_depth_spec(ceiling),
                Time { s: 0 },
                gas,
                Exposure::instant(),
            );
            reveal(ModelView::recorded);
        },
        Ok((None, _)) => {},
        Ok((Some(DecoAction::AscentToCeil), _)) => {
            let risen = sim.traveled_with_rate(
                deco_stop_depth_spec(ceiling),
                rate,
                gas,
                Seq::empty(),
            );
            sim.traveled_with_rate_keeps(deco_stop_depth_spec(ceiling), rate, gas, Seq::empty());
            registered_keeps_ok(
                plan.stages,
                plan.tts,
                DecoStage {
                    stage_type: DecoStageType::Ascent,
                    start_depth: depth,
                    end_depth: risen.state.depth,
                    duration: risen.state.time.minus(time),
                    gas,
                    valid: true,
                },
            );
        },
        Ok((Some(DecoAction::AscentToGasSwitchDepth), Some(switch_gas))) => {
            deco_mod_nonnegative(switch_gas);
            let risen = sim.traveled_with_rate(deco_mod(switch_gas), rate, gas, Seq::empty());
            sim.traveled_with_rate_keeps(deco_mod(switch_gas), rate, gas, Seq::empty());
            let switched = risen.recorded(
                risen.state.depth,
                Time { s: 0 },
                switch_gas,
                Exposure::instant(),
            );
            risen.recorded_keeps(risen.state.depth, Time { s: 0 }, switch_gas, Exposure::instant());
            reveal(ModelView::recorded);
            let ascent = DecoStage {
                stage_type: DecoStageType::Ascent,
                start_depth: depth,
                end_depth: risen.state.depth,
                duration: risen.state.time.minus(time),
                gas,
                valid: true,
            };
            registered_keeps_ok(plan.stages, plan.tts, ascent);
            match registered(plan.stages, ascent) {
                Some(stages) => {
                    registered_keeps_ok(
                        stages,
                        plan.tts.plus(ascent.duration),
                        DecoStage {
                            stage_type: DecoStageType::GasSwitch,
                            start_depth: risen.state.depth,
                            end_depth: switched.state.depth,
                            duration: switched.state.time.minus(risen.state.time),
                            gas: switch_gas,
                            valid: true,
                        },
                    );
                },
                None => {},
            }
        },
        Ok((Some(DecoAction::AscentToGasSwitchDepth), None)) => {},
        Ok((Some(DecoAction::SwitchGas), Some(switch_gas))) => {
            sim.recorded_keeps(depth, Time { s: 0 }, switch_gas, Exposure::instant());
            reveal(ModelView::recorded);
            registered_keeps_ok(
                plan.stages,
                plan.tts,
                DecoStage {
                    stage_type: DecoStageType::GasSwitch,
                    start_depth: depth,
                    end_depth: depth,
                    duration: Time { s: 0 },
                    gas: switch_gas,
                    valid: true,
                },
            );
        },
        Ok((Some(DecoAction::SwitchGas), None)) => {},
        Ok((Some(DecoAction::Stop), _)) => {
            let held = sim.recorded(
                depth,
                Time { s: SCALE },
                gas,
                Exposure::of(sim.kinetics.second),
            );
            sim.recorded_keeps(depth, Time { s: SCALE }, gas, Exposure::of(sim.kinetics.second));
            reveal(ModelView::recorded);
            registered_keeps_ok(
                plan.stages,
                plan.tts,
                DecoStage {
                    stage_type: DecoStageType::DecoStop,
                    start_depth: depth,
                    end_depth: held.state.depth,
                    duration: held.state.time.minus(time),
                    gas: held.state.gas,
                    valid: true,
                },
            );
        },
    }
}

/// A planner that is in order ends in order, at the surface.
pub proof fn plan_run_keeps_ok(plan: PlanView, gas_mixes: Seq<Gas>, fuel: nat)
    requires
        plan_ok(plan),
        gas_mixes.len() == 16,
    ensures
        plan_run(plan, gas_mixes, fuel) matches Ok(done) ==> plan_ok(done)
            && done.sim.state.depth.m == 0,
    decreases fuel,
{
    plan_step_keeps_ok(plan, gas_mixes);
    match plan_step(plan, gas_mixes) {
        StepOutcome::Next(next) => {
            if fuel > 0 {
                plan_run_keeps_ok(next, gas_mixes, (fuel - 1) as nat);
            }
        },
        _ => {},
    }
}

/// Every plan is in order: it has at most sixteen stages, each of which
/// starts at the depth at which the one before it ends; a gas is switched
/// to at or above its operating depth; the time to surface is the sum of
/// the durations of the stages; and the last stage ends at the surface.
pub proof fn runtime_is_in_order(model: ModelView, gas_mixes: Seq<Gas>, lookahead: bool)
    requires
        model.state.depth.m >= 0,
        gas_mixes.len() == 16,
    ensures
        runtime_spec(model, gas_mixes, lookahead) matches Ok(runtime) ==> {
            &&& stages_ok(runtime.deco_stages)
            &&& runtime.tts.s == saturate(total_duration(runtime.deco_stages))
            &&& runtime.deco_stages.len() > 0 ==> runtime.deco_stages.last().end_depth.m == 0
        },
{
    let start = PlanView { sim: model.forked(), stages: Seq::empty(), tts: Time { s: 0 } };
    assert(total_duration(start.stages) == 0);
    plan_run_keeps_ok(start, gas_mixes, MAX_DECO_STEPS as nat);
}

/// After a missed stop the plan goes on at the stop depth: with equal
/// gradient factors the twin that is put to the stop depth has the ceiling
/// it had, and what it does next there is to stop or to switch gas.
pub proof fn missed_stop_is_made_up_at_the_stop_depth(sim: ModelView, gas_mixes: Seq<Gas>)
    requires
        sim.sim,
        sim.config.gf.0 == sim.config.gf.1,
        sim.settled(),
        gas_mixes.len() == 16,
        sim.ceiling().m <= i64::MAX - DEFAULT_CEILING_WINDOW,
        next_deco_action_spec(sim.state.depth, sim.ceiling(), sim.state.gas, gas_mixes).is_err(),
    ensures
        ({
            let stop = deco_stop_depth_spec(sim.ceiling());
            let moved = sim.recorded(stop, Time { s: 0 }, sim.state.gas, Exposure::instant());
            &&& moved.state.depth == stop
            &&& moved.ceiling() == sim.ceiling()
            &&& next_deco_action_spec(
                moved.state.depth,
                moved.ceiling(),
                moved.state.gas,
                gas_mixes,
            ) matches Ok((Some(action), _))
            &&& action == DecoAction::Stop || action == DecoAction::SwitchGas
        }),
{
    let ceiling = sim.ceiling();
    let stop = deco_stop_depth_spec(ceiling);
    sim.twin_ceiling_nonnegative();
    ceil_to_is_least_multiple(ceiling.m, DEFAULT_CEILING_WINDOW);
    sim.recorded_in_no_time(stop, Time { s: 0 }, sim.state.gas);
    sim.recorded_keeps(stop, Time { s: 0 }, sim.state.gas, Exposure::instant());
}

} // verus!
