use vstd::prelude::*;

use crate::error::{kind_of, ErrKind, Error};
use crate::flow::{FlowV, FlowValue, JobId, Retry};
use crate::json::{JsonValue, Val};
use crate::planner::retry_or_default;
use crate::retry::retry_granted;
use crate::status::{
    write_status_spec, FlowStatus, FlowStatusModule, RetryStatus, RetryStatusV, StatusModuleV,
    StatusV,
};

verus! {

broadcast use vstd::std_specs::vec::axiom_vec_index_decreases;

/// What an evaluated predicate value means: a boolean, and nothing else.
pub fn bool_of_value(v: &JsonValue) -> (r: Result<bool, Error>)
    ensures
        v@ matches Val::Bool(b) ==> (r matches Ok(rb) && rb == b),
        !(v@ is Bool) ==> (r matches Err(e) && e@ is ExecutionErr),
{
    match v {
        JsonValue::Bool(b) => Ok(*b),
        _ => Err(Error::ExecutionErr(String::from_str("Expected a boolean value"))),
    }
}

/// The variable environment a control predicate sees: the flow's own input,
/// and the result of the step the predicate follows, also as
/// `previous_result`.
pub open spec fn bool_expr_env_spec(flow_args: Option<Val>, result: Val) -> Seq<(Seq<char>, Val)> {
    seq![
        (
            "flow_input"@,
            match flow_args {
                Some(v) => v,
                None => Val::Obj(Seq::empty()),
            },
        ),
        ("result"@, result),
        ("previous_result"@, result),
    ]
}

/// Builds the variable environment a control predicate sees.
pub fn bool_expr_env(flow_args: &Option<JsonValue>, result: &JsonValue) -> (r: Vec<
    (String, JsonValue),
>)
    ensures
        r.deep_view() == bool_expr_env_spec(flow_args.deep_view(), result@),
{
    let mut env: Vec<(String, JsonValue)> = Vec::new();
    env.push((
        String::from_str("flow_input"),
        match flow_args {
            Some(v) => v.clone(),
            None => JsonValue::empty_object(),
        },
    ));
    env.push((String::from_str("result"), result.clone()));
    env.push((String::from_str("previous_result"), result.clone()));
    proof {
        assert(env.deep_view() =~= bool_expr_env_spec(flow_args.deep_view(), result@));
    }
    env
}

/// The module entry the reconciliation leaves behind and where the cursor
/// goes: a running for-each or branch-all that has iterations or branches
/// left (and saw success, or may skip the failure) stays as it is; otherwise
/// success, or a composite allowed to skip the failure, records `Success`
/// and moves the cursor on, and anything else records `Failure` in place.
pub open spec fn next_module_status_spec(
    sm: StatusModuleV,
    old_step: usize,
    success: bool,
    skip_loop: bool,
    skip_branch: bool,
    job: JobId,
) -> (int, StatusModuleV) {
    if sm matches StatusModuleV::InProgress { iterator: Some(it), .. } && it.index + 1
        < it.itered.len() && (success || skip_loop) {
        (old_step as int, sm)
    } else if sm matches StatusModuleV::InProgress { branchall: Some(b), .. } && b.branch + 1
        < b.len && (success || skip_branch) {
        (old_step as int, sm)
    } else {
        let fj = match sm {
            StatusModuleV::InProgress { flow_jobs, .. } => flow_jobs,
            _ => None,
        };
        let bc = match sm {
            StatusModuleV::InProgress { branch_chosen, .. } => branch_chosen,
            _ => None,
        };
        if success || (fj is Some && (skip_loop || skip_branch)) {
            (
                old_step + 1,
                StatusModuleV::Success {
                    id: sm.module_id(),
                    job,
                    flow_jobs: fj,
                    branch_chosen: bc,
                    approvers: Seq::empty(),
                },
            )
        } else {
            (
                old_step as int,
                StatusModuleV::Failure { id: sm.module_id(), job, flow_jobs: fj, branch_chosen: bc },
            )
        }
    }
}

/// Computes the module entry the reconciliation leaves behind and where the
/// cursor goes.
pub fn next_module_status(
    module_status: &FlowStatusModule,
    old_step: usize,
    success: bool,
    skip_loop: bool,
    skip_branch: bool,
    job: JobId,
) -> (r: (usize, FlowStatusModule))
    requires
        old_step < usize::MAX,
    ensures
        r.0 as int == next_module_status_spec(
            module_status@,
            old_step,
            success,
            skip_loop,
            skip_branch,
            job,
        ).0,
        r.1@ == next_module_status_spec(
            module_status@,
            old_step,
            success,
            skip_loop,
            skip_branch,
            job,
        ).1,
{
    match module_status {
        FlowStatusModule::InProgress { iterator: Some(it), .. } if it.index < it.itered.len()
            && it.index + 1 < it.itered.len() && (success || skip_loop) => (
            old_step,
            module_status.clone(),
        ),
        FlowStatusModule::InProgress { branchall: Some(b), .. } if b.branch < b.len && b.branch + 1
            < b.len && (success || skip_branch) => (old_step, module_status.clone()),
        _ => {
            let (flow_jobs, branch_chosen) = match module_status {
                FlowStatusModule::InProgress { flow_jobs, branch_chosen, .. } => (
                    crate::status::clone_opt_ids(flow_jobs),
                    *branch_chosen,
                ),
                _ => (None, None),
            };
            let id = module_status.id();
            if success || (flow_jobs.is_some() && (skip_loop || skip_branch)) {
                (
                    old_step + 1,
                    FlowStatusModule::Success {
                        id,
                        job,
                        flow_jobs,
                        branch_chosen,
                        approvers: Vec::new(),
                    },
                )
            } else {
                (old_step, FlowStatusModule::Failure { id, job, flow_jobs, branch_chosen })
            }
        }
    }
}

/// What slot `k` of the aggregated array holds after the first `upto` child
/// results are placed: the latest result whose index is `k`, or null.
pub open spec fn agg_slot(pairs: Seq<(usize, Val)>, upto: int, k: int) -> Val
    decreases upto,
{
    if upto <= 0 {
        Val::Null
    } else if pairs[upto - 1].0 == k {
        pairs[upto - 1].1
    } else {
        agg_slot(pairs, upto - 1, k)
    }
}

/// The aggregated array of a finished for-each or branch-all: one slot per
/// child, each holding the result whose `iter.index` names that slot.
pub open spec fn aggregate_spec(pairs: Seq<(usize, Val)>) -> Seq<Val> {
    Seq::new(pairs.len(), |k: int| agg_slot(pairs, pairs.len() as int, k))
}

/// Places each child's result, keyed by its `iter.index` argument, into the
/// aggregated array.
#[verifier::loop_isolation(false)]
pub fn aggregate_loop_results(pairs: &Vec<(usize, JsonValue)>) -> (r: Vec<JsonValue>)
    ensures
        r.deep_view() == aggregate_spec(pairs.deep_view()),
{
    let n = pairs.len();
    let ghost pd = pairs.deep_view();
    let mut out: Vec<JsonValue> = Vec::new();
    let mut i: usize = 0;
    while i < n
        invariant
            i <= n,
            n == pairs@.len(),
            out@.len() == i,
            forall|k: int| 0 <= k < i ==> (#[trigger] out@[k])@ == Val::Null,
        decreases n - i,
    {
        out.push(JsonValue::Null);
        proof {
            assert(out@[i as int]@ == Val::Null);
        }
        i = i + 1;
    }
    let mut j: usize = 0;
    while j < n
        invariant
            j <= n,
            n == pairs@.len(),
            out@.len() == n,
            forall|k: int| 0 <= k < n ==> (#[trigger] out@[k])@ == agg_slot(pd, j as int, k),
        decreases n - j,
    {
        let idx = pairs[j].0;
        if idx < n {
            out.set(idx, pairs[j].1.clone());
        }
        proof {
            assert(pd[j as int].0 == pairs@[j as int].0);
            assert(pd[j as int].1 == pairs@[j as int].1@);
            assert forall|k: int| 0 <= k < n implies (#[trigger] out@[k])@ == agg_slot(
                pd,
                j as int + 1,
                k,
            ) by {
                assert(agg_slot(pd, j as int + 1, k) == (if pd[j as int].0 == k {
                    pd[j as int].1
                } else {
                    agg_slot(pd, j as int, k)
                }));
            }
        }
        j = j + 1;
    }
    proof {
        assert forall|k: int| 0 <= k < n implies out.deep_view()[k] == aggregate_spec(pd)[k] by {
            assert(out.deep_view()[k] == out@[k]@);
        }
        assert(out.deep_view() =~= aggregate_spec(pd));
    }
    out
}

/// Aggregation ordering: when the children carry exactly the indices
/// `0 .. n`, each without a duplicate, slot `k` of the aggregated array
/// holds the result of the child whose index is `k`.
pub proof fn lemma_aggregation_ordering(pairs: Seq<(usize, Val)>, j: int)
    requires
        0 <= j < pairs.len(),
        forall|j1: int, j2: int|
            0 <= j1 < pairs.len() && 0 <= j2 < pairs.len() && (#[trigger] pairs[j1]).0
                == (#[trigger] pairs[j2]).0 ==> j1 == j2,
        pairs[j].0 < pairs.len(),
    ensures
        aggregate_spec(pairs)[pairs[j].0 as int] == pairs[j].1,
{
    lemma_agg_slot_last_writer(pairs, pairs.len() as int, j);
}

/// Below the duplicates-free hypothesis, the slot of child `j`'s index holds
/// child `j`'s result once every child up to at least `j` is placed.
proof fn lemma_agg_slot_last_writer(pairs: Seq<(usize, Val)>, upto: int, j: int)
    requires
        0 <= j < upto <= pairs.len(),
        forall|j1: int, j2: int|
            0 <= j1 < pairs.len() && 0 <= j2 < pairs.len() && (#[trigger] pairs[j1]).0
                == (#[trigger] pairs[j2]).0 ==> j1 == j2,
    ensures
        agg_slot(pairs, upto, pairs[j].0 as int) == pairs[j].1,
    decreases upto,
{
    if upto - 1 > j {
        assert(pairs[upto - 1].0 != pairs[j].0);
        lemma_agg_slot_last_writer(pairs, upto - 1, j);
    }
}

/// Whether the flow goes on after this reconciliation: never past a stop,
/// a cancellation, or an unrecoverable failure; after success or a skipped
/// failure exactly while steps remain; after other failures only into a
/// granted retry, or into a defined failure module unless the failure was
/// the failure module's own.
pub open spec fn should_continue_spec(
    success: bool,
    stop_early: bool,
    canceled: bool,
    is_last: bool,
    unrecoverable: bool,
    skip_failure: bool,
    retry_avail: bool,
    has_failure: bool,
    in_failure_phase: bool,
) -> bool {
    if stop_early {
        false
    } else if canceled {
        false
    } else if success {
        !is_last
    } else if unrecoverable {
        false
    } else if skip_failure {
        !is_last
    } else if retry_avail {
        true
    } else if has_failure && !in_failure_phase {
        true
    } else {
        false
    }
}

/// The record a finished flow leaves: whether it succeeded, whether its
/// result is to be skipped by the enclosing flow, the result, and the log
/// line.
#[derive(Debug, PartialEq, Eq)]
pub struct CompletedFlow {
    pub success: bool,
    pub skipped: bool,
    pub result: JsonValue,
    pub logs: String,
}

/// Mathematical shape of a `CompletedFlow`.
#[verifier::ext_equal]
pub struct CompletedFlowV {
    pub success: bool,
    pub skipped: bool,
    pub result: Val,
    pub logs: Seq<char>,
}

impl View for CompletedFlow {
    type V = CompletedFlowV;

    open spec fn view(&self) -> CompletedFlowV {
        CompletedFlowV {
            success: self.success,
            skipped: self.skipped,
            result: self.result@,
            logs: self.logs@,
        }
    }
}

impl DeepView for CompletedFlow {
    type V = CompletedFlowV;

    open spec fn deep_view(&self) -> CompletedFlowV {
        self.view()
    }
}

/// The error value recorded for a canceled job: who canceled it and why.
pub fn canceled_job_to_result(
    canceled_by: &Option<String>,
    canceled_reason: &Option<String>,
) -> (r: JsonValue)
    ensures
        r@ == Val::Obj(
            seq![
                (
                    "error"@,
                    Val::Str(
                        "Job canceled: "@ + (match canceled_reason.deep_view() {
                            Some(s) => s,
                            None => "unexplained"@,
                        }) + " by "@ + (match canceled_by.deep_view() {
                            Some(s) => s,
                            None => "unknown"@,
                        }),
                    ),
                ),
            ],
        ),
{
    let mut msg = String::from_str("Job canceled: ");
    match canceled_reason {
        Some(s) => msg.append(s.as_str()),
        None => msg.append("unexplained"),
    };
    msg.append(" by ");
    match canceled_by {
        Some(s) => msg.append(s.as_str()),
        None => msg.append("unknown"),
    };
    let mut entries: Vec<(String, JsonValue)> = Vec::new();
    entries.push((String::from_str("error"), JsonValue::Str(msg)));
    let r = crate::json::args_to_value(entries);
    proof {
        assert(r@->Obj_0 =~= seq![("error"@, r@->Obj_0[0].1)]);
    }
    r
}

/// The record a flow leaves when it does not go on: canceled flows fail
/// with the canceled error and the canceled log line; otherwise the child's
/// verdict stands, the result is skipped exactly when a stop-early predicate
/// with `skip_if_stopped` fired, and the log line says whether the flow
/// completed or stopped early.
pub fn flow_termination(
    canceled: bool,
    stop_early: bool,
    skip_if_stop_early: bool,
    success: bool,
    result: JsonValue,
    canceled_result: JsonValue,
) -> (r: CompletedFlow)
    ensures
        canceled ==> r@ == (CompletedFlowV {
            success: false,
            skipped: false,
            result: canceled_result@,
            logs: "Flow job canceled"@,
        }),
        !canceled ==> r@ == (CompletedFlowV {
            success,
            skipped: stop_early && skip_if_stop_early,
            result: result@,
            logs: if stop_early {
                "Flow job stopped early because of a stop early predicate returning true"@
            } else {
                "Flow job completed"@
            },
        }),
{
    if canceled {
        CompletedFlow {
            success: false,
            skipped: false,
            result: canceled_result,
            logs: String::from_str("Flow job canceled"),
        }
    } else {
        CompletedFlow {
            success,
            skipped: stop_early && skip_if_stop_early,
            result,
            logs: if stop_early {
                String::from_str(
                    "Flow job stopped early because of a stop early predicate returning true",
                )
            } else {
                String::from_str("Flow job completed")
            },
        }
    }
}

/// The record a for-each leaves when its iterator was empty.
pub fn empty_loop_completion() -> (r: CompletedFlow)
    ensures
        r@ == (CompletedFlowV {
            success: true,
            skipped: false,
            result: Val::Arr(Seq::empty()),
            logs: "Forloop completed without iteration"@,
        }),
{
    let out: Vec<JsonValue> = Vec::new();
    proof {
        crate::json::lemma_arr_full_view(out);
        assert(out.deep_view() =~= Seq::<Val>::empty());
    }
    CompletedFlow {
        success: true,
        skipped: false,
        result: JsonValue::Arr(out),
        logs: String::from_str("Forloop completed without iteration"),
    }
}

/// The record a flow leaves when its suspension ran out of time.
pub fn timed_out_completion() -> (r: CompletedFlow)
    ensures
        r@ == (CompletedFlowV {
            success: false,
            skipped: false,
            result: Val::Obj(
                seq![("error"@, Val::Str("Timed out waiting to be resumed"@))],
            ),
            logs: "Timed out waiting to be resumed"@,
        }),
{
    let mut entries: Vec<(String, JsonValue)> = Vec::new();
    entries.push((
        String::from_str("error"),
        JsonValue::Str(String::from_str("Timed out waiting to be resumed")),
    ));
    let result = crate::json::args_to_value(entries);
    proof {
        assert(result@->Obj_0 =~= seq![("error"@, result@->Obj_0[0].1)]);
    }
    CompletedFlow {
        success: false,
        skipped: false,
        result,
        logs: String::from_str("Timed out waiting to be resumed"),
    }
}

/// What the enclosing flow's reconciliation is told when this flow ends:
/// whether a stop-early fired here, and whether its result is to be skipped.
pub fn parent_stop_early_override(stop_early: bool, skip_if_stop_early: bool) -> (r: Option<bool>)
    ensures
        r == (if stop_early {
            Some(skip_if_stop_early)
        } else {
            None::<bool>
        }),
{
    if stop_early {
        Some(skip_if_stop_early)
    } else {
        None
    }
}

/// Whether finishing this step re-arms the schedule that started the flow:
/// only the very first step of a top-level scheduled script does.
pub fn should_rearm_schedule(
    old_step: usize,
    is_flow_step: bool,
    has_schedule_path: bool,
    has_script_path: bool,
) -> (r: bool)
    ensures
        r == (old_step == 0 && !is_flow_step && has_schedule_path && has_script_path),
{
    old_step == 0 && !is_flow_step && has_schedule_path && has_script_path
}

/// What a flow job's driver does on pick-up: an empty flow completes at
/// once; any other pushes its next step.
#[derive(Clone, Copy, PartialEq, Eq, Structural, Debug)]
pub enum HandleFlowAction {
    CompleteEmptyFlow,
    PushNext,
}

/// Decides a picked-up flow job's first move.
pub fn handle_flow(flow: &FlowValue) -> (r: HandleFlowAction)
    ensures
        r == (if flow@.modules.len() == 0 {
            HandleFlowAction::CompleteEmptyFlow
        } else {
            HandleFlowAction::PushNext
        }),
{
    if flow.modules.len() == 0 {
        HandleFlowAction::CompleteEmptyFlow
    } else {
        HandleFlowAction::PushNext
    }
}


/// `skip_failures` of the for-each at `step`, as the reconciliation reads
/// it: false wherever the definition has no for-each there.
pub open spec fn skip_loop_failures_of(flow: FlowV, step: usize) -> bool {
    if step < flow.modules.len() && flow.modules[step as int].value is ForloopFlow {
        flow.modules[step as int].value->ForloopFlow_skip_failures
    } else {
        false
    }
}

/// `skip_failure` of branch `branch` of the branch-all at `step`, as the
/// reconciliation reads it: false wherever the definition has no such
/// branch.
pub open spec fn skip_branchall_failure_of(flow: FlowV, step: usize, branch: usize) -> bool {
    if step < flow.modules.len() && flow.modules[step as int].value is BranchAll && branch
        < flow.modules[step as int].value->BranchAll_branches.len() {
        flow.modules[step as int].value->BranchAll_branches[branch as int].skip_failure
    } else {
        false
    }
}

/// The retry policy consulted after a failure at `step`: the module's at
/// that cursor, or the failure module's once the cursor is past the end.
pub open spec fn retry_of_active_module(flow: FlowV, step: usize) -> Option<Retry> {
    if step < flow.modules.len() {
        flow.modules[step as int].retry
    } else {
        match flow.failure_module {
            Some(m) => m.retry,
            None => None,
        }
    }
}

/// The stop predicate attached to the module at `step`, if any.
pub open spec fn stop_after_if_of(flow: FlowV, step: usize) -> Option<crate::flow::StopV> {
    if step < flow.modules.len() {
        flow.modules[step as int].stop_after_if
    } else {
        None
    }
}

/// The empty retry record.
pub open spec fn cleared_retry() -> RetryStatusV {
    RetryStatusV { fail_count: 0, failed_jobs: Seq::empty(), previous_result: None }
}

/// Everything one reconciliation decides and writes: the status to persist,
/// the stop-early verdict, the (possibly aggregated) result, and whether the
/// flow goes on.
#[derive(Debug, PartialEq, Eq)]
pub struct Reconciled {
    pub new_status: FlowStatus,
    pub stop_early: bool,
    pub skip_if_stop_early: bool,
    pub result: JsonValue,
    pub should_continue: bool,
    pub is_last_step: bool,
    pub skip_failure: bool,
}

/// Mathematical shape of a `Reconciled`.
#[verifier::ext_equal]
pub struct ReconciledV {
    pub new_status: StatusV,
    pub stop_early: bool,
    pub skip_if_stop_early: bool,
    pub result: Val,
    pub should_continue: bool,
    pub is_last_step: bool,
    pub skip_failure: bool,
}

impl View for Reconciled {
    type V = ReconciledV;

    open spec fn view(&self) -> ReconciledV {
        ReconciledV {
            new_status: self.new_status@,
            stop_early: self.stop_early,
            skip_if_stop_early: self.skip_if_stop_early,
            result: self.result@,
            should_continue: self.should_continue,
            is_last_step: self.is_last_step,
            skip_failure: self.skip_failure,
        }
    }
}

impl DeepView for Reconciled {
    type V = ReconciledV;

    open spec fn deep_view(&self) -> ReconciledV {
        self.view()
    }
}

/// What one reconciliation of a finished child decides, mathematically.
/// `stop_val` is the evaluated stop predicate (where one was to be
/// evaluated) and `children` the finished children's results keyed by their
/// `iter.index` argument (where the module gathered child jobs).
pub open spec fn reconcile_spec(
    flow: FlowV,
    status: StatusV,
    job: JobId,
    success: bool,
    result: Val,
    unrecoverable: bool,
    canceled: bool,
    stop_early_override: Option<bool>,
    stop_val: Option<Val>,
    children: Option<Seq<(usize, Val)>>,
) -> Result<ReconciledV, ErrKind> {
    let sm = if status.step < status.modules.len() {
        status.modules[status.step as int]
    } else {
        status.failure_module
    };
    let skip_loop = (sm matches StatusModuleV::InProgress { iterator: Some(_), .. })
        && skip_loop_failures_of(flow, status.step);
    let skip_branch = match sm {
        StatusModuleV::InProgress { branchall: Some(b), .. } => skip_branchall_failure_of(
            flow,
            status.step,
            b.branch,
        ),
        _ => false,
    };
    let skip_failure = skip_branch || skip_loop;
    let stepped = next_module_status_spec(sm, status.step, success, skip_loop, skip_branch, job);
    let step_counter = stepped.0;
    let new_module = stepped.1;
    let is_last = !(step_counter < status.modules.len());
    let gate: Result<(bool, bool, StatusV), ErrKind> = match stop_early_override {
        Some(se) => Ok(
            (
                true,
                se,
                write_status_spec(status, status.step, new_module, Some(step_counter as usize)),
            ),
        ),
        None => if status.step >= status.modules.len() {
            Ok((false, false, write_status_spec(status, status.step, new_module, None)))
        } else {
            let persisted = write_status_spec(
                status,
                status.step,
                new_module,
                Some(step_counter as usize),
            );
            let skip_if = match stop_after_if_of(flow, status.step) {
                Some(sa) => sa.skip_if_stopped,
                None => false,
            };
            match stop_after_if_of(flow, status.step) {
                Some(_) if success => match stop_val {
                    None => Err(ErrKind::Internal),
                    Some(v) => match v {
                        Val::Bool(b) => Ok((b, skip_if, persisted)),
                        _ => Err(ErrKind::Execution),
                    },
                },
                _ => Ok((false, skip_if, persisted)),
            }
        },
    };
    match gate {
        Err(k) => Err(k),
        Ok((stop_early, skip_if_stop_early, persisted)) => {
            let agg: Result<Val, ErrKind> = if new_module matches StatusModuleV::Success {
                flow_jobs: Some(_),
                ..
            } {
                match children {
                    None => Err(ErrKind::Internal),
                    Some(pairs) => Ok(Val::Arr(aggregate_spec(pairs))),
                }
            } else {
                Ok(result)
            };
            match agg {
                Err(k) => Err(k),
                Ok(result2) => {
                    let persisted2 = if new_module is Success {
                        StatusV { retry: cleared_retry(), ..persisted }
                    } else {
                        persisted
                    };
                    let retry_avail = retry_granted(
                        retry_or_default(retry_of_active_module(flow, status.step)),
                        status.retry.fail_count,
                    );
                    Ok(
                        ReconciledV {
                            new_status: persisted2,
                            stop_early,
                            skip_if_stop_early,
                            result: result2,
                            should_continue: should_continue_spec(
                                success,
                                stop_early,
                                canceled,
                                is_last,
                                unrecoverable,
                                skip_failure,
                                retry_avail,
                                flow.failure_module is Some,
                                status.step >= status.modules.len(),
                            ),
                            is_last_step: is_last,
                            skip_failure,
                        },
                    )
                }
            }
        }
    }
}

/// Reconciles one finished child job into its flow's status: records the
/// child's outcome on the active module, moves the cursor, evaluates the
/// stop predicate's verdict, aggregates a finished composite's results,
/// clears the retry record on success, and decides whether the flow goes
/// on — exactly as `reconcile_spec` says. `stop_val` must carry the stop
/// predicate's evaluated value where one was to be evaluated, and
/// `child_results` the finished children's results keyed by their
/// `iter.index` argument where the module gathered child jobs.
#[verifier::rlimit(100)]
pub fn update_flow_status_after_job_completion(
    flow: &FlowValue,
    old_status: &FlowStatus,
    job_id_for_status: JobId,
    success: bool,
    result: JsonValue,
    unrecoverable: bool,
    canceled: bool,
    stop_early_override: Option<bool>,
    stop_val: &Option<JsonValue>,
    child_results: &Option<Vec<(usize, JsonValue)>>,
) -> (r: Result<Reconciled, Error>)
    requires
        old_status@.step < usize::MAX,
    ensures
        reconcile_spec(
            flow@,
            old_status@,
            job_id_for_status,
            success,
            result@,
            unrecoverable,
            canceled,
            stop_early_override,
            stop_val.deep_view(),
            child_results.deep_view(),
        ) matches Ok(rv) ==> (r matches Ok(rec) && rec@ == rv),
        reconcile_spec(
            flow@,
            old_status@,
            job_id_for_status,
            success,
            result@,
            unrecoverable,
            canceled,
            stop_early_override,
            stop_val.deep_view(),
            child_results.deep_view(),
        ) matches Err(k) ==> (r matches Err(e) && kind_of(e@) == k),
{
    let module_status: &FlowStatusModule = if old_status.step < old_status.modules.len() {
        &old_status.modules[old_status.step]
    } else {
        &old_status.failure_module
    };
    let skip_loop: bool = match module_status {
        FlowStatusModule::InProgress { iterator: Some(_), .. } => {
            match crate::flow::compute_skip_loop_failures(flow, old_status.step) {
                Some(b) => b,
                None => false,
            }
        }
        _ => false,
    };
    let skip_branch: bool = match module_status {
        FlowStatusModule::InProgress { branchall: Some(b), .. } => {
            match crate::flow::compute_skip_branchall_failure(flow, old_status.step, b.branch) {
                Some(x) => x,
                None => false,
            }
        }
        _ => false,
    };
    let skip_failure = skip_branch || skip_loop;
    let (step_counter, new_module) = next_module_status(
        module_status,
        old_status.step,
        success,
        skip_loop,
        skip_branch,
        job_id_for_status,
    );
    let is_last_step = !(step_counter < old_status.modules.len());
    let ghost new_module_v = new_module@;
    let is_success_record = matches!(new_module, FlowStatusModule::Success { .. });
    let aggregates = matches!(
        new_module,
        FlowStatusModule::Success { flow_jobs: Some(_), .. },
    );
    let (stop_early, skip_if_stop_early, persisted): (bool, bool, FlowStatus) =
        match stop_early_override {
        Some(se) => (
            true,
            se,
            crate::planner::write_module_status(
                old_status,
                old_status.step,
                new_module,
                Some(step_counter),
            ),
        ),
        None => {
            if old_status.step >= old_status.modules.len() {
                (
                    false,
                    false,
                    crate::planner::write_module_status(old_status, old_status.step, new_module, None),
                )
            } else {
                let persisted = crate::planner::write_module_status(
                    old_status,
                    old_status.step,
                    new_module,
                    Some(step_counter),
                );
                let stop_opt: Option<&crate::flow::StopAfterIf> = if old_status.step
                    < flow.modules.len() {
                    match &flow.modules[old_status.step].stop_after_if {
                        Some(sa) => Some(sa),
                        None => None,
                    }
                } else {
                    None
                };
                let skip_if: bool = match stop_opt {
                    Some(sa) => sa.skip_if_stopped,
                    None => false,
                };
                let stop_early: bool = match stop_opt {
                    Some(_) if success => match stop_val {
                        None => {
                            return Err(
                                Error::InternalErr(
                                    String::from_str("stop predicate not evaluated"),
                                ),
                            );
                        }
                        Some(v) => match bool_of_value(v) {
                            Ok(b) => b,
                            Err(e) => {
                                return Err(e);
                            }
                        },
                    },
                    _ => false,
                };
                (stop_early, skip_if, persisted)
            }
        }
    };
    let result2: JsonValue = if aggregates {
        match child_results {
            None => {
                return Err(
                    Error::InternalErr(String::from_str("missing gathered child results")),
                );
            }
            Some(pairs) => {
                let agg = aggregate_loop_results(pairs);
                proof {
                    crate::json::lemma_arr_full_view(agg);
                }
                JsonValue::Arr(agg)
            }
        }
    } else {
        result
    };
    let persisted2: FlowStatus = if is_success_record {
        FlowStatus {
            step: persisted.step,
            modules: persisted.modules,
            failure_module: persisted.failure_module,
            retry: RetryStatus { fail_count: 0, failed_jobs: Vec::new(), previous_result: None },
        }
    } else {
        persisted
    };
    proof {
        if is_success_record {
            assert(persisted2@.retry.failed_jobs =~= cleared_retry().failed_jobs);
            assert(persisted2@.retry =~= cleared_retry());
        }
    }
    let retry_policy: Option<Retry> = if old_status.step < flow.modules.len() {
        flow.modules[old_status.step].retry
    } else {
        match &flow.failure_module {
            Some(m) => m.retry,
            None => None,
        }
    };
    let retry_default: Retry = match retry_policy {
        Some(rr) => rr,
        None => Default::default(),
    };
    let retry_avail = matches!(
        crate::retry::next_retry(&retry_default, &old_status.retry),
        Some(_),
    );
    let has_failure = crate::flow::has_failure_module(flow);
    let should_continue: bool = if stop_early {
        false
    } else if canceled {
        false
    } else if success {
        !is_last_step
    } else if unrecoverable {
        false
    } else if skip_failure {
        !is_last_step
    } else if retry_avail {
        true
    } else if has_failure && old_status.step < old_status.modules.len() {
        true
    } else {
        false
    };
    Ok(
        Reconciled {
            new_status: persisted2,
            stop_early,
            skip_if_stop_early,
            result: result2,
            should_continue,
            is_last_step,
            skip_failure,
        },
    )
}

} // verus!
