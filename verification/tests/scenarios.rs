use std::collections::HashMap;

use flowstate::flow::{
    Branch, FlowModule, FlowModuleValue, FlowValue, InputTransform, Retry, RetryConstant,
    RetryExponential, ScriptLang, StopAfterIf, Suspend,
};
use flowstate::json::{args_to_value, insert_arg, JsonValue};
use flowstate::planner::{
    adjust_args_for_next_status, compute_next_flow_transform, jump_to_next_step_status,
    needs_resume, next_status_after_push, on_module_failure, park_suspension,
    save_retry_on_first_attempt, suspend_decision, transform_static_value, write_module_status,
    EvaluatedInputs, FailureAction, JobPayload, NextFlowTransform, NextStatus, SuspendDecision,
};
use flowstate::reconciler::{
    bool_expr_env, bool_of_value, canceled_job_to_result, empty_loop_completion, flow_termination,
    handle_flow, update_flow_status_after_job_completion, CompletedFlow, HandleFlowAction,
};
use flowstate::status::{
    init_flow_status, set_approvers, Approval, BranchChosen, FlowStatus, FlowStatusModule,
};
use flowstate::transforms::{js_eval_env, list_js_transforms, static_args};

fn s(x: &str) -> String {
    x.to_string()
}

fn obj(entries: Vec<(&str, JsonValue)>) -> JsonValue {
    JsonValue::Obj(entries.into_iter().map(|(k, v)| (s(k), v)).collect())
}

fn get<'a>(v: &'a JsonValue, key: &str) -> Option<&'a JsonValue> {
    match v {
        JsonValue::Obj(entries) => entries.iter().find(|(k, _)| k == key).map(|(_, x)| x),
        _ => None,
    }
}

fn get_arg<'a>(args: &'a [(String, JsonValue)], key: &str) -> Option<&'a JsonValue> {
    args.iter().find(|(k, _)| k == key).map(|(_, x)| x)
}

fn module(id: &str, value: FlowModuleValue) -> FlowModule {
    FlowModule {
        id: s(id),
        value,
        input_transforms: vec![],
        stop_after_if: None,
        sleep: None,
        suspend: None,
        retry: None,
    }
}

fn flow_of(modules: Vec<FlowModule>) -> FlowValue {
    FlowValue { modules, failure_module: None, same_worker: false }
}

/// A tiny expression evaluator standing in for the sandboxed one: it knows
/// only the expressions these scenarios use.
fn eval(expr: &str, env: &[(String, JsonValue)]) -> JsonValue {
    match expr {
        "true" => JsonValue::Bool(true),
        "false" => JsonValue::Bool(false),
        "[]" => JsonValue::Arr(vec![]),
        "[10,20,30]" => JsonValue::Arr(vec![
            JsonValue::Int(10),
            JsonValue::Int(20),
            JsonValue::Int(30),
        ]),
        "flow_input.iter.value * 2" => {
            let fi = get_arg(env, "flow_input").expect("flow_input in env");
            let iter = get(fi, "iter").expect("iter in flow input");
            match get(iter, "value").expect("iter.value") {
                JsonValue::Int(n) => JsonValue::Int(n * 2),
                _ => panic!("iter.value is not a number"),
            }
        }
        _ => panic!("the test evaluator does not know {expr}"),
    }
}

/// What the driver reports of a finished flow.
struct Outcome {
    completed: CompletedFlow,
    stop_early: bool,
    skip_if_stop_early: bool,
}

/// The in-memory world around the state machine: fresh job ids, completed
/// results, each child's aggregation key, and the executor standing in for
/// the script runner.
struct Sim<'a> {
    next_id: u128,
    completed: HashMap<u128, (bool, JsonValue)>,
    child_key: HashMap<u128, usize>,
    pushed: usize,
    canceled: bool,
    exec: &'a mut dyn FnMut(&JobPayload, &[(String, JsonValue)]) -> (bool, JsonValue),
}

impl<'a> Sim<'a> {
    fn fresh(&mut self) -> u128 {
        self.next_id += 1;
        self.next_id
    }
}

/// Replays the driver loop: plan the next child, push it, run it, reconcile
/// its completion, until the flow terminates. Suspension gates are not taken
/// here (the suspension scenario drives them by hand).
fn run_flow(sim: &mut Sim, flow: &FlowValue, flow_args: Option<JsonValue>) -> Outcome {
    let mut status = init_flow_status(flow);
    let mut last_result = match &flow_args {
        Some(v) => v.clone(),
        None => JsonValue::Obj(vec![]),
    };
    if handle_flow(flow) == HandleFlowAction::CompleteEmptyFlow {
        return Outcome {
            completed: flow_termination(
                false,
                false,
                false,
                true,
                JsonValue::Obj(vec![]),
                JsonValue::Null,
            ),
            stop_early: false,
            skip_if_stop_early: false,
        };
    }
    loop {
        // --- planning phase ---
        let mut i = status.step;
        let mut status_module = if i < status.modules.len() {
            status.modules[i].clone()
        } else {
            status.failure_module.clone()
        };
        assert!(
            needs_resume(flow, &status).is_none(),
            "run_flow does not take suspension gates"
        );
        match &status_module {
            FlowStatusModule::Failure { job, .. } => {
                let module_retry = if i < flow.modules.len() {
                    flow.modules[i].retry
                } else {
                    flow.failure_module.as_ref().and_then(|m| m.retry)
                };
                let failure_retry = flow.failure_module.as_ref().and_then(|m| m.retry);
                match on_module_failure(
                    &module_retry,
                    &status,
                    *job,
                    flow.failure_module.is_some(),
                    &failure_retry,
                    &last_result,
                )
                .expect("failure handling")
                {
                    FailureAction::ScheduleRetry { new_retry, restored_result, .. } => {
                        if let Some(v) = restored_result {
                            last_result = v;
                        }
                        status.retry = new_retry;
                        status_module =
                            FlowStatusModule::WaitingForPriorSteps { id: status_module.id() };
                    }
                    FailureAction::RunFailureModule { save_retry } => {
                        i = flow.modules.len();
                        status_module = status.failure_module.clone();
                        if let Some(r) = save_retry {
                            status.retry = r;
                        }
                    }
                }
            }
            FlowStatusModule::WaitingForPriorSteps { .. } => {
                let module_retry = if i < flow.modules.len() {
                    flow.modules[i].retry
                } else {
                    None
                };
                if let Some(r) =
                    save_retry_on_first_attempt(&module_retry, status.retry.fail_count, &last_result)
                {
                    status.retry = r;
                }
            }
            _ => {}
        }
        let module: &FlowModule = if i < flow.modules.len() {
            &flow.modules[i]
        } else {
            flow.failure_module.as_ref().expect("a failure module to run")
        };
        // --- the child's arguments ---
        let mut args: Vec<(String, JsonValue)> = match &module.value {
            FlowModuleValue::Script { input_transforms, .. }
            | FlowModuleValue::RawScript { input_transforms, .. } => {
                let ts = if !input_transforms.is_empty() {
                    input_transforms
                } else {
                    &module.input_transforms
                };
                let mut acc = static_args(ts);
                for (key, expr) in list_js_transforms(ts) {
                    let env = js_eval_env(&acc, &last_result, &flow_args, &vec![]);
                    let v = eval(&expr, &env);
                    insert_arg(&mut acc, key, v);
                }
                acc
            }
            FlowModuleValue::Identity => flowstate::planner::identity_args(last_result.clone()),
            _ => flowstate::planner::composite_args(&flow_args).expect("object flow args"),
        };
        // --- the evaluations the planner needs ---
        let pre = match &module.value {
            FlowModuleValue::Script { path, .. } => EvaluatedInputs {
                script_hash: if path.starts_with("hub/") { None } else { Some(1) },
                iterator_value: None,
                branch_preds: None,
            },
            FlowModuleValue::ForloopFlow { iterator, .. } => {
                let v = match transform_static_value(iterator) {
                    Some(v) => v.clone(),
                    None => {
                        let expr = match iterator {
                            InputTransform::Javascript { expr } => expr.clone(),
                            _ => unreachable!(),
                        };
                        let env = bool_expr_env(&flow_args, &last_result);
                        eval(&expr, &env)
                    }
                };
                EvaluatedInputs { script_hash: None, iterator_value: Some(v), branch_preds: None }
            }
            FlowModuleValue::BranchOne { branches, .. } => {
                let mut preds = vec![];
                for b in branches {
                    let env = bool_expr_env(&flow_args, &last_result);
                    preds.push(bool_of_value(&eval(&b.expr, &env)).expect("a boolean guard"));
                }
                EvaluatedInputs { script_hash: None, iterator_value: None, branch_preds: Some(preds) }
            }
            _ => EvaluatedInputs { script_hash: None, iterator_value: None, branch_preds: None },
        };
        let transform = compute_next_flow_transform(
            flow,
            module,
            status.step,
            &status_module,
            &None,
            &last_result,
            &pre,
        )
        .expect("a plan");
        let (payload, next_status) = match transform {
            NextFlowTransform::EmptyInnerFlows => {
                let recorded = FlowStatusModule::Success {
                    id: status_module.id(),
                    job: 0,
                    flow_jobs: Some(vec![]),
                    branch_chosen: None,
                    approvers: vec![],
                };
                let (st2, next) = jump_to_next_step_status(
                    &status,
                    status.step,
                    i,
                    flow.modules.len(),
                    recorded,
                );
                status = st2;
                match next {
                    Some(_) => {
                        last_result = JsonValue::Arr(vec![]);
                        continue;
                    }
                    None => {
                        return Outcome {
                            completed: empty_loop_completion(),
                            stop_early: false,
                            skip_if_stop_early: false,
                        };
                    }
                }
            }
            NextFlowTransform::Continue(p, ns) => (p, ns),
        };
        // --- push ---
        let uuid = sim.fresh();
        sim.pushed += 1;
        adjust_args_for_next_status(&mut args, &next_status, last_result.clone());
        match &next_status {
            NextStatus::NextLoopIteration(ni) => {
                sim.child_key.insert(uuid, ni.index);
            }
            NextStatus::NextBranchStep(nb) => {
                sim.child_key.insert(uuid, nb.status.branch);
            }
            _ => {}
        }
        let new_module = next_status_after_push(next_status, uuid, &status_module);
        status = write_module_status(&status, i, new_module, Some(i));
        // --- run the child ---
        let (success, result, override_opt): (bool, JsonValue, Option<bool>) = match payload {
            JobPayload::RawFlow { value, .. } => {
                let inner_args = args_to_value(args.clone());
                let out = run_flow(sim, &value, Some(inner_args));
                (
                    out.completed.success,
                    out.completed.result.clone(),
                    if out.stop_early { Some(out.skip_if_stop_early) } else { None },
                )
            }
            p => {
                let (succ, res) = (sim.exec)(&p, &args);
                (succ, res, None)
            }
        };
        sim.completed.insert(uuid, (success, result.clone()));
        // --- reconcile the completion ---
        let stop_val: Option<JsonValue> =
            if override_opt.is_none() && status.step < status.modules.len() && success {
                match if status.step < flow.modules.len() {
                    &flow.modules[status.step].stop_after_if
                } else {
                    &None
                } {
                    Some(sa) => {
                        let env = bool_expr_env(&flow_args, &result);
                        Some(eval(&sa.expr, &env))
                    }
                    None => None,
                }
            } else {
                None
            };
        let active = if status.step < status.modules.len() {
            &status.modules[status.step]
        } else {
            &status.failure_module
        };
        let child_results: Option<Vec<(usize, JsonValue)>> = match active {
            FlowStatusModule::InProgress { flow_jobs: Some(fj), .. } => Some(
                fj.iter()
                    .map(|j| (sim.child_key[j], sim.completed[j].1.clone()))
                    .collect(),
            ),
            _ => None,
        };
        let rec = update_flow_status_after_job_completion(
            flow,
            &status,
            uuid,
            success,
            result,
            false,
            sim.canceled,
            override_opt,
            &stop_val,
            &child_results,
        )
        .expect("a reconciliation");
        status = rec.new_status;
        if !rec.should_continue {
            let completed = flow_termination(
                sim.canceled,
                rec.stop_early,
                rec.skip_if_stop_early,
                success,
                rec.result,
                canceled_job_to_result(&None, &None),
            );
            return Outcome {
                completed,
                stop_early: rec.stop_early,
                skip_if_stop_early: rec.skip_if_stop_early,
            };
        }
        last_result = rec.result;
    }
}

fn run_scripts(flow: &FlowValue, flow_args: Option<JsonValue>) -> (Outcome, usize) {
    let mut exec = |_p: &JobPayload, args: &[(String, JsonValue)]| -> (bool, JsonValue) {
        match get_arg(args, "res") {
            Some(v) => (true, v.clone()),
            None => (true, args_to_value(args.to_vec())),
        }
    };
    let mut sim = Sim {
        next_id: 0,
        completed: HashMap::new(),
        child_key: HashMap::new(),
        pushed: 0,
        canceled: false,
        exec: &mut exec,
    };
    let out = run_flow(&mut sim, flow, flow_args);
    let pushed = sim.pushed;
    (out, pushed)
}

fn forloop(id: &str, iterator_expr: &str, body: Vec<FlowModule>) -> FlowModule {
    module(
        id,
        FlowModuleValue::ForloopFlow {
            modules: body,
            iterator: InputTransform::Javascript { expr: s(iterator_expr) },
            skip_failures: false,
        },
    )
}

fn raw_script(id: &str, transforms: Vec<(String, InputTransform)>) -> FlowModule {
    module(
        id,
        FlowModuleValue::RawScript {
            path: None,
            content: s("export function main() {}"),
            language: ScriptLang::Deno,
            input_transforms: transforms,
        },
    )
}

#[test]
fn empty_for_each_terminates_without_iteration() {
    let flow = flow_of(vec![forloop("a", "[]", vec![module("b", FlowModuleValue::Identity)])]);
    let (out, _pushed) = run_scripts(&flow, None);
    assert!(out.completed.success);
    assert_eq!(out.completed.result, JsonValue::Arr(vec![]));
    assert_eq!(out.completed.logs.as_str(), "Forloop completed without iteration");
}

#[test]
fn for_each_aggregates_in_iteration_order() {
    let body = vec![raw_script(
        "double",
        vec![(s("res"), InputTransform::Javascript { expr: s("flow_input.iter.value * 2") })],
    )];
    let flow = flow_of(vec![forloop("a", "[10,20,30]", body)]);
    let (out, _pushed) = run_scripts(&flow, None);
    assert!(out.completed.success);
    assert_eq!(
        out.completed.result,
        JsonValue::Arr(vec![JsonValue::Int(20), JsonValue::Int(40), JsonValue::Int(60)])
    );
}

#[test]
fn retry_twice_then_succeed_launches_exactly_three_children() {
    let mut m = raw_script("x", vec![]);
    m.retry = Some(Retry {
        constant: RetryConstant { attempts: 3, seconds: 0 },
        exponential: RetryExponential { attempts: 0, multiplier: 0, seconds: 0 },
    });
    let flow = flow_of(vec![m]);
    let mut attempts = 0usize;
    let mut exec = |_p: &JobPayload, _args: &[(String, JsonValue)]| -> (bool, JsonValue) {
        attempts += 1;
        if attempts <= 2 {
            (false, obj(vec![("error", JsonValue::Str(s("boom")))]))
        } else {
            (true, JsonValue::Int(7))
        }
    };
    let mut sim = Sim {
        next_id: 0,
        completed: HashMap::new(),
        child_key: HashMap::new(),
        pushed: 0,
        canceled: false,
        exec: &mut exec,
    };
    let out = run_flow(&mut sim, &flow, None);
    assert_eq!(sim.pushed, 3);
    assert!(out.completed.success);
    assert_eq!(out.completed.result, JsonValue::Int(7));
}

#[test]
fn branch_one_takes_the_default_when_no_guard_holds() {
    let mk_branch = |id: &str| Branch {
        expr: s("false"),
        modules: vec![raw_script(
            id,
            vec![(s("res"), InputTransform::Static { value: JsonValue::Str(s(id)) })],
        )],
        skip_failure: false,
    };
    let default = vec![raw_script(
        "dflt",
        vec![(s("res"), InputTransform::Static { value: JsonValue::Str(s("default ran")) })],
    )];
    let flow = flow_of(vec![module(
        "choice",
        FlowModuleValue::BranchOne { branches: vec![mk_branch("b0"), mk_branch("b1")], default },
    )]);
    let (out, _pushed) = run_scripts(&flow, None);
    assert!(out.completed.success);
    assert_eq!(out.completed.result, JsonValue::Str(s("default ran")));
}

#[test]
fn suspend_parks_then_resumes_with_approvers_and_previous_result() {
    let mut a = raw_script(
        "a",
        vec![(s("res"), InputTransform::Static { value: JsonValue::Int(41) })],
    );
    a.suspend = Some(Suspend { required_events: Some(2), timeout: None });
    let b = module("b", FlowModuleValue::Identity);
    let flow = flow_of(vec![a, b]);
    let mut status = init_flow_status(&flow);
    // Step a ran as job 1 and succeeded with 41.
    let a_result = JsonValue::Int(41);
    status = write_module_status(
        &status,
        0,
        FlowStatusModule::WaitingForExecutor { id: s("a"), job: 1 },
        Some(0),
    );
    let rec = update_flow_status_after_job_completion(
        &flow,
        &status,
        1,
        true,
        a_result.clone(),
        false,
        false,
        None,
        &None,
        &None,
    )
    .unwrap();
    status = rec.new_status;
    assert!(rec.should_continue);
    assert_eq!(status.step, 1);
    // Starting b is gated on two resume events for job 1.
    let (suspend, last) = needs_resume(&flow, &status).expect("a suspension gate");
    assert_eq!(last, 1);
    let required = suspend.required_events.unwrap();
    // No events yet: the flow parks.
    let gate = suspend_decision(&status.modules[1], required, 0);
    assert_eq!(gate, SuspendDecision::Park { remaining: 2 });
    status = park_suspension(&status, required, last);
    assert_eq!(
        status.modules[1],
        FlowStatusModule::WaitingForEvents { id: s("b"), count: 2, job: 1 }
    );
    // Two resume events arrive; the sweeper wakes the flow up.
    let resumes = vec![
        (JsonValue::Str(s("ok")), s("alice"), 0u16),
        (JsonValue::Str(s("go")), s("bob"), 1u16),
    ];
    let gate = suspend_decision(&status.modules[1], required, resumes.len());
    assert_eq!(gate, SuspendDecision::Proceed { refresh_last_result: true });
    // The approvers are recorded on a, and the stale last result is replaced
    // by a's completed result.
    let approvals: Vec<Approval> = resumes
        .iter()
        .map(|(_, who, rid)| Approval { resume_id: *rid, approver: who.clone() })
        .collect();
    status = set_approvers(&status, status.step - 1, approvals);
    match &status.modules[0] {
        FlowStatusModule::Success { approvers, .. } => {
            assert_eq!(approvers.len(), 2);
            assert_eq!(approvers[0].approver.as_str(), "alice");
            assert_eq!(approvers[1].approver.as_str(), "bob");
        }
        other => panic!("step a is no longer a success: {other:?}"),
    }
    let last_result = a_result;
    // b now plans over a's result.
    let pre = EvaluatedInputs { script_hash: None, iterator_value: None, branch_preds: None };
    let t = compute_next_flow_transform(
        &flow,
        &flow.modules[1],
        1,
        &status.modules[1],
        &None,
        &last_result,
        &pre,
    )
    .unwrap();
    assert_eq!(t, NextFlowTransform::Continue(JobPayload::Identity, NextStatus::NextStep));
    let args = flowstate::planner::identity_args(last_result);
    assert_eq!(args, vec![(s("previous_result"), JsonValue::Int(41))]);
}

#[test]
fn suspension_times_out_without_enough_events() {
    let waiting = FlowStatusModule::WaitingForEvents { id: s("b"), count: 2, job: 1 };
    assert_eq!(suspend_decision(&waiting, 2, 1), SuspendDecision::TimedOut);
    let record = flowstate::reconciler::timed_out_completion();
    assert!(!record.success);
    assert_eq!(record.logs.as_str(), "Timed out waiting to be resumed");
}

#[test]
fn failure_module_catches_a_failed_step() {
    let step_x = raw_script("x", vec![]);
    let step_y = raw_script(
        "y",
        vec![(s("res"), InputTransform::Static { value: JsonValue::Str(s("cleaned up")) })],
    );
    let flow = FlowValue {
        modules: vec![step_x],
        failure_module: Some(step_y),
        same_worker: false,
    };
    let mut first = true;
    let mut exec = |_p: &JobPayload, args: &[(String, JsonValue)]| -> (bool, JsonValue) {
        if first {
            first = false;
            (false, obj(vec![("error", JsonValue::Str(s("boom")))]))
        } else {
            (true, get_arg(args, "res").unwrap().clone())
        }
    };
    let mut sim = Sim {
        next_id: 0,
        completed: HashMap::new(),
        child_key: HashMap::new(),
        pushed: 0,
        canceled: false,
        exec: &mut exec,
    };
    let out = run_flow(&mut sim, &flow, None);
    assert_eq!(sim.pushed, 2);
    assert!(out.completed.success);
    assert_eq!(out.completed.result, JsonValue::Str(s("cleaned up")));
}

#[test]
fn failing_failure_module_fails_the_flow() {
    let step_x = raw_script("x", vec![]);
    let step_y = raw_script("y", vec![]);
    let flow = FlowValue {
        modules: vec![step_x],
        failure_module: Some(step_y),
        same_worker: false,
    };
    let mut exec = |_p: &JobPayload, _args: &[(String, JsonValue)]| -> (bool, JsonValue) {
        (false, obj(vec![("error", JsonValue::Str(s("boom")))]))
    };
    let mut sim = Sim {
        next_id: 0,
        completed: HashMap::new(),
        child_key: HashMap::new(),
        pushed: 0,
        canceled: false,
        exec: &mut exec,
    };
    let out = run_flow(&mut sim, &flow, None);
    assert_eq!(sim.pushed, 2);
    assert!(!out.completed.success);
}

#[test]
fn cancellation_stops_the_flow_after_the_running_child() {
    let flow = flow_of(vec![
        raw_script("one", vec![]),
        raw_script("two", vec![]),
    ]);
    let mut exec = |_p: &JobPayload, _args: &[(String, JsonValue)]| -> (bool, JsonValue) {
        (true, JsonValue::Int(1))
    };
    let mut sim = Sim {
        next_id: 0,
        completed: HashMap::new(),
        child_key: HashMap::new(),
        pushed: 0,
        canceled: true,
        exec: &mut exec,
    };
    let out = run_flow(&mut sim, &flow, None);
    assert_eq!(sim.pushed, 1, "no further child is enqueued once canceled");
    assert!(!out.completed.success);
    assert_eq!(out.completed.logs.as_str(), "Flow job canceled");
}

#[test]
fn inner_stop_early_propagates_skip_to_the_parent() {
    // The inner flow's only step stops the inner flow early, asking to be
    // skipped.
    let mut inner_step = raw_script(
        "inner",
        vec![(s("res"), InputTransform::Static { value: JsonValue::Int(5) })],
    );
    inner_step.stop_after_if = Some(StopAfterIf { expr: s("true"), skip_if_stopped: true });
    // The parent reaches the inner flow through a branch choice.
    let parent = flow_of(vec![module(
        "outer",
        FlowModuleValue::BranchOne { branches: vec![], default: vec![inner_step] },
    )]);
    let (out, _pushed) = run_scripts(&parent, None);
    assert!(out.completed.success);
    assert!(out.completed.skipped, "the parent observes skipped = true");
    assert!(out.stop_early && out.skip_if_stop_early);
}

#[test]
fn stop_after_if_stops_a_flow_early() {
    let mut one = raw_script(
        "one",
        vec![(s("res"), InputTransform::Static { value: JsonValue::Int(5) })],
    );
    one.stop_after_if = Some(StopAfterIf { expr: s("true"), skip_if_stopped: false });
    let two = raw_script("two", vec![]);
    let flow = flow_of(vec![one, two]);
    let (out, pushed) = run_scripts(&flow, None);
    assert_eq!(pushed, 1, "the second step never runs");
    assert!(out.completed.success);
    assert!(!out.completed.skipped);
    assert_eq!(
        out.completed.logs.as_str(),
        "Flow job stopped early because of a stop early predicate returning true"
    );
}

#[test]
fn branch_all_runs_every_branch_in_order() {
    let mk = |id: &str, res: &str| Branch {
        expr: s(""),
        modules: vec![raw_script(
            id,
            vec![(s("res"), InputTransform::Static { value: JsonValue::Str(s(res)) })],
        )],
        skip_failure: false,
    };
    let flow = flow_of(vec![module(
        "all",
        FlowModuleValue::BranchAll { branches: vec![mk("b0", "left"), mk("b1", "right")] },
    )]);
    let (out, pushed) = run_scripts(&flow, None);
    assert_eq!(pushed, 4, "one inner flow and one script per branch");
    assert!(out.completed.success);
    assert_eq!(
        out.completed.result,
        JsonValue::Arr(vec![JsonValue::Str(s("left")), JsonValue::Str(s("right"))])
    );
}

#[test]
fn for_each_with_skip_failures_keeps_going() {
    let body = vec![raw_script(
        "double",
        vec![(s("res"), InputTransform::Javascript { expr: s("flow_input.iter.value * 2") })],
    )];
    let flow = flow_of(vec![module(
        "loop",
        FlowModuleValue::ForloopFlow {
            modules: body,
            iterator: InputTransform::Javascript { expr: s("[10,20,30]") },
            skip_failures: true,
        },
    )]);
    let boom = obj(vec![("error", JsonValue::Str(s("boom")))]);
    let expected_err = boom.clone();
    let mut exec = |_p: &JobPayload, args: &[(String, JsonValue)]| -> (bool, JsonValue) {
        match get_arg(args, "res") {
            Some(JsonValue::Int(40)) => (false, boom.clone()),
            Some(v) => (true, v.clone()),
            None => (true, args_to_value(args.to_vec())),
        }
    };
    let mut sim = Sim {
        next_id: 0,
        completed: HashMap::new(),
        child_key: HashMap::new(),
        pushed: 0,
        canceled: false,
        exec: &mut exec,
    };
    let out = run_flow(&mut sim, &flow, None);
    assert_eq!(sim.pushed, 6, "one inner flow and one script per iteration: the failed one does not stop the loop");
    assert!(out.completed.success);
    assert_eq!(
        out.completed.result,
        JsonValue::Arr(vec![JsonValue::Int(20), expected_err, JsonValue::Int(60)])
    );
}
