use flowstate::error::Error;
use flowstate::flow::{
    FlowModule, FlowModuleValue, FlowValue, InputTransform, Retry, RetryConstant,
    RetryExponential, Suspend,
};
use flowstate::json::{flatten_previous_result, insert_arg, JsonValue};
use flowstate::paths::{dec_string, join_path_number};
use flowstate::planner::{
    compute_next_flow_transform, needs_resume, park_suspension, script_path_to_payload,
    sleep_seconds_of, suspend_decision, suspend_timeout_secs, EvaluatedInputs, JobPayload,
    NextFlowTransform, NextStatus, SuspendDecision,
};
use flowstate::reconciler::{
    aggregate_loop_results, bool_of_value, canceled_job_to_result, flow_termination, handle_flow,
    HandleFlowAction,
};
use flowstate::retry::next_retry;
use flowstate::status::{
    get_step_of_flow_status, init_flow_status, update_flow_status_in_progress, FlowStatus,
    FlowStatusModule, RetryStatus, Step,
};
use flowstate::time::from_now;

fn s(x: &str) -> String {
    x.to_string()
}

fn obj(entries: Vec<(&str, JsonValue)>) -> JsonValue {
    JsonValue::Obj(entries.into_iter().map(|(k, v)| (s(k), v)).collect())
}

fn module(id: &str, value: FlowModuleValue) -> FlowModule {
    FlowModule {
        id: s(id),
        value,
        input_transforms: vec![],
        stop_after_if: None,
        sleep: None,
        suspend: None,
        retry: None,
    }
}

fn one_step_flow() -> FlowValue {
    FlowValue {
        modules: vec![module("a", FlowModuleValue::Identity)],
        failure_module: None,
        same_worker: false,
    }
}

#[test]
fn flatten_object_with_nested_previous_result() {
    let v = obj(vec![("previous_result", JsonValue::Int(5)), ("x", JsonValue::Bool(true))]);
    assert_eq!(flatten_previous_result(v), JsonValue::Int(5));
}

#[test]
fn flatten_object_without_key_is_unchanged() {
    let v = obj(vec![("x", JsonValue::Bool(true))]);
    assert_eq!(flatten_previous_result(v.clone()), v);
}

#[test]
fn flatten_scalar_is_unchanged() {
    assert_eq!(flatten_previous_result(JsonValue::Int(9)), JsonValue::Int(9));
}

#[test]
fn into_array_splits_arrays_only() {
    let arr = JsonValue::Arr(vec![JsonValue::Int(1), JsonValue::Int(2)]);
    assert_eq!(arr.into_array().unwrap(), vec![JsonValue::Int(1), JsonValue::Int(2)]);
    assert_eq!(JsonValue::Int(3).into_array().unwrap_err(), JsonValue::Int(3));
}

#[test]
fn bool_of_value_accepts_booleans_only() {
    assert_eq!(bool_of_value(&JsonValue::Bool(true)).unwrap(), true);
    assert_eq!(bool_of_value(&JsonValue::Bool(false)).unwrap(), false);
    assert!(matches!(bool_of_value(&JsonValue::Int(1)), Err(Error::ExecutionErr(_))));
}

#[test]
fn insert_arg_replaces_first_match_or_appends() {
    let mut args = vec![(s("a"), JsonValue::Int(1)), (s("b"), JsonValue::Int(2))];
    insert_arg(&mut args, s("a"), JsonValue::Int(7));
    assert_eq!(args, vec![(s("a"), JsonValue::Int(7)), (s("b"), JsonValue::Int(2))]);
    insert_arg(&mut args, s("c"), JsonValue::Int(3));
    assert_eq!(args.len(), 3);
    assert_eq!(args[2], (s("c"), JsonValue::Int(3)));
}

fn retry_cfg(constant_attempts: u16, constant_seconds: u16) -> Retry {
    Retry {
        constant: RetryConstant { attempts: constant_attempts, seconds: constant_seconds },
        exponential: RetryExponential { attempts: 0, multiplier: 0, seconds: 0 },
    }
}

#[test]
fn next_retry_counts_and_delays() {
    let cfg = retry_cfg(3, 0);
    let st = RetryStatus { fail_count: 0, failed_jobs: vec![], previous_result: None };
    assert_eq!(next_retry(&cfg, &st), Some((1, 0)));
    let st2 = RetryStatus { fail_count: 2, failed_jobs: vec![1, 2], previous_result: None };
    assert_eq!(next_retry(&cfg, &st2), Some((3, 0)));
    let st3 = RetryStatus { fail_count: 3, failed_jobs: vec![1, 2, 3], previous_result: None };
    assert_eq!(next_retry(&cfg, &st3), None);
}

#[test]
fn next_retry_exponential_delay() {
    let cfg = Retry {
        constant: RetryConstant { attempts: 1, seconds: 10 },
        exponential: RetryExponential { attempts: 2, multiplier: 3, seconds: 2 },
    };
    let at = |fail_count: u16| RetryStatus {
        fail_count,
        failed_jobs: (0..fail_count as u128).collect(),
        previous_result: None,
    };
    assert_eq!(next_retry(&cfg, &at(0)), Some((1, 10)));
    assert_eq!(next_retry(&cfg, &at(1)), Some((2, 6)));
    assert_eq!(next_retry(&cfg, &at(2)), Some((3, 12)));
    assert_eq!(next_retry(&cfg, &at(3)), None);
}

#[test]
fn next_retry_clamps_long_delays() {
    let cfg = retry_cfg(1, 50000);
    let st = RetryStatus { fail_count: 0, failed_jobs: vec![], previous_result: None };
    assert_eq!(next_retry(&cfg, &st), Some((1, 21600)));
}

#[test]
fn aggregation_orders_by_child_index() {
    let pairs = vec![
        (2usize, JsonValue::Str(s("c"))),
        (0usize, JsonValue::Str(s("a"))),
        (1usize, JsonValue::Str(s("b"))),
    ];
    assert_eq!(
        aggregate_loop_results(&pairs),
        vec![JsonValue::Str(s("a")), JsonValue::Str(s("b")), JsonValue::Str(s("c"))]
    );
}

#[test]
fn decimal_rendering() {
    assert_eq!(dec_string(0).as_str(), "0");
    assert_eq!(dec_string(7).as_str(), "7");
    assert_eq!(dec_string(10).as_str(), "10");
    assert_eq!(dec_string(12345).as_str(), "12345");
    assert_eq!(join_path_number("u/flow", "/loop-", 2).as_str(), "u/flow/loop-2");
}

#[test]
fn from_now_adds_and_saturates() {
    assert_eq!(from_now(1000, 2), 3000);
    assert_eq!(from_now(i64::MAX - 500, 1), i64::MAX);
}

#[test]
fn step_of_status_marks_failure_phase() {
    let flow = one_step_flow();
    let st = init_flow_status(&flow);
    assert_eq!(get_step_of_flow_status(&st), Step::Step(0));
    let past = FlowStatus { step: 1, ..st };
    assert_eq!(get_step_of_flow_status(&past), Step::FailureStep);
}

#[test]
fn in_progress_marker_sets_job_and_tag() {
    let flow = one_step_flow();
    let st = init_flow_status(&flow);
    let st2 = update_flow_status_in_progress(&st, 42);
    assert_eq!(
        st2.modules[0],
        FlowStatusModule::InProgress {
            id: s("a"),
            job: 42,
            iterator: None,
            branchall: None,
            branch_chosen: None,
            flow_jobs: None,
        }
    );
    assert_eq!(st2.step, 0);
}

#[test]
fn script_paths_resolve_hub_or_hash() {
    let hub = script_path_to_payload(&s("hub/7/slack"), None).unwrap();
    assert_eq!(hub, JobPayload::ScriptHub { path: s("hub/7/slack") });
    let hashed = script_path_to_payload(&s("u/alice/score"), Some(99)).unwrap();
    assert_eq!(hashed, JobPayload::ScriptHash { hash: 99, path: s("u/alice/score") });
    assert!(matches!(
        script_path_to_payload(&s("u/alice/score"), None),
        Err(Error::InternalErr(_))
    ));
}

#[test]
fn sleep_values() {
    assert_eq!(sleep_seconds_of(&JsonValue::Int(5)).unwrap(), Some(5));
    assert_eq!(sleep_seconds_of(&JsonValue::Int(-1)).unwrap(), None);
    assert!(matches!(
        sleep_seconds_of(&JsonValue::Str(s("x"))),
        Err(Error::ExecutionErr(_))
    ));
}

#[test]
fn suspension_gate_decisions() {
    let waiting_prior = FlowStatusModule::WaitingForPriorSteps { id: s("b") };
    let waiting_events = FlowStatusModule::WaitingForEvents { id: s("b"), count: 2, job: 7 };
    assert_eq!(
        suspend_decision(&waiting_prior, 2, 2),
        SuspendDecision::Proceed { refresh_last_result: false }
    );
    assert_eq!(
        suspend_decision(&waiting_events, 2, 3),
        SuspendDecision::Proceed { refresh_last_result: true }
    );
    assert_eq!(suspend_decision(&waiting_prior, 2, 1), SuspendDecision::Park { remaining: 1 });
    assert_eq!(suspend_decision(&waiting_events, 2, 1), SuspendDecision::TimedOut);
    assert_eq!(
        suspend_timeout_secs(&Suspend { required_events: Some(2), timeout: None }),
        1800
    );
    assert_eq!(
        suspend_timeout_secs(&Suspend { required_events: Some(2), timeout: Some(60) }),
        60
    );
}

#[test]
fn parking_twice_persists_the_same_state() {
    let flow = FlowValue {
        modules: vec![
            module("a", FlowModuleValue::Identity),
            module("b", FlowModuleValue::Identity),
        ],
        failure_module: None,
        same_worker: false,
    };
    let mut st = init_flow_status(&flow);
    st.step = 1;
    let once = park_suspension(&st, 2, 7);
    let twice = park_suspension(&once, 2, 7);
    assert_eq!(once, twice);
    assert_eq!(
        once.modules[1],
        FlowStatusModule::WaitingForEvents { id: s("b"), count: 2, job: 7 }
    );
}

#[test]
fn needs_resume_reads_previous_module() {
    let mut gated = module("b", FlowModuleValue::Identity);
    gated.suspend = None;
    let mut first = module("a", FlowModuleValue::Identity);
    first.suspend = Some(Suspend { required_events: Some(2), timeout: None });
    let flow = FlowValue { modules: vec![first, gated], failure_module: None, same_worker: false };
    let mut st = init_flow_status(&flow);
    assert_eq!(needs_resume(&flow, &st), None);
    st.step = 1;
    st.modules[0] = FlowStatusModule::Success {
        id: s("a"),
        job: 11,
        flow_jobs: None,
        branch_chosen: None,
        approvers: vec![],
    };
    assert_eq!(
        needs_resume(&flow, &st),
        Some((Suspend { required_events: Some(2), timeout: None }, 11))
    );
}

#[test]
fn termination_records() {
    let done = flow_termination(false, false, false, true, JsonValue::Int(1), JsonValue::Null);
    assert!(done.success);
    assert!(!done.skipped);
    assert_eq!(done.logs.as_str(), "Flow job completed");
    let stopped = flow_termination(false, true, true, true, JsonValue::Int(1), JsonValue::Null);
    assert!(stopped.skipped);
    assert_eq!(
        stopped.logs.as_str(),
        "Flow job stopped early because of a stop early predicate returning true"
    );
    let canceled = flow_termination(true, false, false, true, JsonValue::Int(1), JsonValue::Null);
    assert!(!canceled.success);
    assert_eq!(canceled.logs.as_str(), "Flow job canceled");
    assert_eq!(canceled.result, JsonValue::Null);
}

#[test]
fn empty_flow_completes_at_once() {
    let empty = FlowValue { modules: vec![], failure_module: None, same_worker: false };
    assert_eq!(handle_flow(&empty), HandleFlowAction::CompleteEmptyFlow);
    assert_eq!(handle_flow(&one_step_flow()), HandleFlowAction::PushNext);
}

#[test]
fn identity_module_plans_identity_payload() {
    let flow = one_step_flow();
    let st = init_flow_status(&flow);
    let pre = EvaluatedInputs { script_hash: None, iterator_value: None, branch_preds: None };
    let t = compute_next_flow_transform(
        &flow,
        &flow.modules[0],
        0,
        &st.modules[0],
        &None,
        &JsonValue::Null,
        &pre,
    )
    .unwrap();
    assert_eq!(t, NextFlowTransform::Continue(JobPayload::Identity, NextStatus::NextStep));
}

#[test]
fn static_then_js_transform_order() {
    let transforms = vec![
        (s("n"), InputTransform::Static { value: JsonValue::Int(1) }),
        (s("m"), InputTransform::Javascript { expr: s("params.n + 1") }),
    ];
    let evaluated = vec![JsonValue::Int(2)];
    let args = flowstate::transforms::transform_input(&transforms, &evaluated).unwrap();
    assert_eq!(args, vec![(s("n"), JsonValue::Int(1)), (s("m"), JsonValue::Int(2))]);
    let too_few: Vec<JsonValue> = vec![];
    assert!(matches!(
        flowstate::transforms::transform_input(&transforms, &too_few),
        Err(Error::InternalErr(_))
    ));
}

#[test]
fn js_env_carries_flattened_previous_result() {
    let params = vec![(s("a"), JsonValue::Int(1))];
    let last = obj(vec![("previous_result", JsonValue::Int(5))]);
    let env = flowstate::transforms::js_eval_env(&params, &last, &None, &vec![]);
    assert_eq!(env[0].0.as_str(), "params");
    assert_eq!(env[1], (s("previous_result"), JsonValue::Int(5)));
    assert_eq!(env[2], (s("flow_input"), JsonValue::Obj(vec![])));
    assert_eq!(env[3], (s("resume"), JsonValue::Null));
    assert_eq!(env[4], (s("resumes"), JsonValue::Arr(vec![])));
}

#[test]
fn composite_args_reject_non_object_flow_args() {
    let ok = flowstate::planner::composite_args(&Some(obj(vec![("x", JsonValue::Int(1))])));
    assert_eq!(ok.unwrap(), vec![(s("x"), JsonValue::Int(1))]);
    let bad = flowstate::planner::composite_args(&Some(JsonValue::Int(3)));
    assert!(matches!(bad, Err(Error::BadRequest(_))));
    assert_eq!(flowstate::planner::composite_args(&None).unwrap(), vec![]);
}

#[test]
fn planner_rejects_a_branch_choice_in_progress() {
    let flow = FlowValue {
        modules: vec![module(
            "choice",
            FlowModuleValue::BranchOne { branches: vec![], default: vec![] },
        )],
        failure_module: None,
        same_worker: false,
    };
    let running = flowstate::status::FlowStatusModule::InProgress {
        id: s("choice"),
        job: 9,
        iterator: None,
        branchall: None,
        branch_chosen: None,
        flow_jobs: None,
    };
    let pre = EvaluatedInputs {
        script_hash: None,
        iterator_value: None,
        branch_preds: Some(vec![]),
    };
    let r = compute_next_flow_transform(
        &flow,
        &flow.modules[0],
        0,
        &running,
        &None,
        &JsonValue::Null,
        &pre,
    );
    assert!(matches!(r, Err(Error::BadRequest(_))));
}

#[test]
fn planner_starts_an_empty_branch_all_with_no_inner_flows() {
    let flow = FlowValue {
        modules: vec![module("all", FlowModuleValue::BranchAll { branches: vec![] })],
        failure_module: None,
        same_worker: false,
    };
    let st = init_flow_status(&flow);
    let pre = EvaluatedInputs { script_hash: None, iterator_value: None, branch_preds: None };
    let r = compute_next_flow_transform(
        &flow,
        &flow.modules[0],
        0,
        &st.modules[0],
        &None,
        &JsonValue::Null,
        &pre,
    )
    .unwrap();
    assert_eq!(r, flowstate::planner::NextFlowTransform::EmptyInnerFlows);
}

#[test]
fn raw_script_without_a_path_gets_one_synthesized() {
    let m = module(
        "code",
        FlowModuleValue::RawScript {
            path: None,
            content: s("export function main() {}"),
            language: flowstate::flow::ScriptLang::Deno,
            input_transforms: vec![],
        },
    );
    let flow = FlowValue { modules: vec![m], failure_module: None, same_worker: false };
    let st = init_flow_status(&flow);
    let pre = EvaluatedInputs { script_hash: None, iterator_value: None, branch_preds: None };
    let r = compute_next_flow_transform(
        &flow,
        &flow.modules[0],
        0,
        &st.modules[0],
        &Some(s("u/alice/myflow")),
        &JsonValue::Null,
        &pre,
    )
    .unwrap();
    match r {
        flowstate::planner::NextFlowTransform::Continue(
            flowstate::planner::JobPayload::Code(code),
            _,
        ) => {
            assert_eq!(code.path.as_deref(), Some("u/alice/myflow/0"));
        }
        other => panic!("expected inline code, got {other:?}"),
    }
}

#[test]
fn hub_prefix_must_end_with_a_slash() {
    let r = script_path_to_payload(&s("hubx/thing"), Some(5)).unwrap();
    assert_eq!(r, JobPayload::ScriptHash { hash: 5, path: s("hubx/thing") });
    let r = script_path_to_payload(&s("hub"), Some(5)).unwrap();
    assert_eq!(r, JobPayload::ScriptHash { hash: 5, path: s("hub") });
}

#[test]
fn skip_flags_read_the_definition() {
    let loop_flow = FlowValue {
        modules: vec![module(
            "l",
            FlowModuleValue::ForloopFlow {
                modules: vec![],
                iterator: InputTransform::Static { value: JsonValue::Arr(vec![]) },
                skip_failures: true,
            },
        )],
        failure_module: None,
        same_worker: false,
    };
    assert_eq!(flowstate::flow::compute_skip_loop_failures(&loop_flow, 0), Some(true));
    assert_eq!(flowstate::flow::compute_skip_loop_failures(&loop_flow, 1), None);
    let all_flow = FlowValue {
        modules: vec![module(
            "a",
            FlowModuleValue::BranchAll {
                branches: vec![flowstate::flow::Branch {
                    expr: s(""),
                    modules: vec![],
                    skip_failure: true,
                }],
            },
        )],
        failure_module: None,
        same_worker: false,
    };
    assert_eq!(
        flowstate::flow::compute_skip_branchall_failure(&all_flow, 0, 0),
        Some(true)
    );
    assert_eq!(flowstate::flow::compute_skip_branchall_failure(&all_flow, 0, 1), None);
}

#[test]
fn canceled_result_names_reason_and_canceler() {
    let r = canceled_job_to_result(&Some(s("alice")), &Some(s("stale")));
    assert_eq!(
        r,
        obj(vec![("error", JsonValue::Str(s("Job canceled: stale by alice")))])
    );
    let r = canceled_job_to_result(&None, &None);
    assert_eq!(
        r,
        obj(vec![("error", JsonValue::Str(s("Job canceled: unexplained by unknown")))])
    );
}

#[test]
fn transform_input_rejects_leftover_values() {
    let transforms = vec![(s("n"), InputTransform::Static { value: JsonValue::Int(1) })];
    let extra = vec![JsonValue::Int(2)];
    assert!(matches!(
        flowstate::transforms::transform_input(&transforms, &extra),
        Err(Error::InternalErr(_))
    ));
}
