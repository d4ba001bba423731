use vstd::prelude::*;

use crate::flow::{FlowV, JobId};
use crate::json::Val;
use crate::planner::{parked_status_spec, status_after_push_spec, NextStatusV};
use crate::reconciler::{next_module_status_spec, reconcile_spec, ReconciledV};
use crate::status::{
    active_module, in_progress_patch, status_module_wf, status_wf, write_status_spec,
    StatusModuleV, StatusV,
};

verus! {

/// Status structural soundness is kept by every reconciliation: starting
/// from a well-formed status, the status it persists is well-formed again —
/// the cursor within bounds, the status array parallel to the modules, each
/// entry sound, the retry record consistent. An enclosing flow's stop-early
/// override is accounted only while the cursor is within the body: a
/// success recorded under an override in the failure phase would push the
/// cursor past its bound.
pub proof fn lemma_reconcile_preserves_wf(
    flow: FlowV,
    status: StatusV,
    job: JobId,
    success: bool,
    result: Val,
    unrecoverable: bool,
    canceled: bool,
    stop_early_override: Option<bool>,
    stop_val: Option<Val>,
    children: Option<Seq<(usize, Val)>>,
    rv: ReconciledV,
)
    requires
        status_wf(status, flow),
        stop_early_override is Some ==> status.step < status.modules.len(),
        reconcile_spec(
            flow,
            status,
            job,
            success,
            result,
            unrecoverable,
            canceled,
            stop_early_override,
            stop_val,
            children,
        ) == Ok::<ReconciledV, crate::error::ErrKind>(rv),
    ensures
        status_wf(rv.new_status, flow),
{
    let sm = if status.step < status.modules.len() {
        status.modules[status.step as int]
    } else {
        status.failure_module
    };
    assert(status_module_wf(sm));
    let stepped = next_module_status_spec(
        sm,
        status.step,
        success,
        rv.skip_failure && (sm matches StatusModuleV::InProgress { iterator: Some(_), .. })
            && crate::reconciler::skip_loop_failures_of(flow, status.step),
        rv.skip_failure,
        job,
    );
    assert forall|m: StatusModuleV, sl: bool, sb: bool|
        status_module_wf(m) implies status_module_wf(
        #[trigger] next_module_status_spec(m, status.step, success, sl, sb, job).1,
    ) by {
        let nm = next_module_status_spec(m, status.step, success, sl, sb, job).1;
        assert(nm == m || nm is Success || nm is Failure);
    }
}

/// Monotone cursor: a reconciliation never moves the cursor backwards. (The
/// planner's one forward jump to the failure phase is stated with the
/// recorded-write law below.)
pub proof fn lemma_monotone_step(
    flow: FlowV,
    status: StatusV,
    job: JobId,
    success: bool,
    result: Val,
    unrecoverable: bool,
    canceled: bool,
    stop_early_override: Option<bool>,
    stop_val: Option<Val>,
    children: Option<Seq<(usize, Val)>>,
    rv: ReconciledV,
)
    requires
        status.step < usize::MAX,
        reconcile_spec(
            flow,
            status,
            job,
            success,
            result,
            unrecoverable,
            canceled,
            stop_early_override,
            stop_val,
            children,
        ) == Ok::<ReconciledV, crate::error::ErrKind>(rv),
    ensures
        rv.new_status.step >= status.step,
{
}

/// At most one entry is ever marked as being worked on: recording a pushed
/// child at the cursor (or jumping to the failure phase) keeps the rule
/// that only the cursor's entry can be `InProgress` or `WaitingForExecutor`.
pub proof fn lemma_one_active_after_push(
    flow: FlowV,
    status: StatusV,
    i: usize,
    ns: NextStatusV,
    uuid: JobId,
    sm: StatusModuleV,
)
    requires
        status_wf(status, flow),
        i as int == status.step as int || i >= status.modules.len(),
        i as int == status.step as int || status.step >= status.modules.len() || !active_module(
            status.modules[status.step as int],
        ),
        i <= status.modules.len(),
        ns matches NextStatusV::NextLoopIteration(ni) ==> ni.index < ni.itered.len(),
    ensures
        ({
            let written = write_status_spec(
                status,
                i,
                status_after_push_spec(ns, uuid, sm),
                Some(i),
            );
            &&& status_wf(written, flow)
            &&& forall|j: int|
                0 <= j < written.modules.len() && active_module(#[trigger] written.modules[j])
                    ==> j == written.step
        }),
{
    let m = status_after_push_spec(ns, uuid, sm);
    assert(status_module_wf(m));
}

/// Idempotent suspension: parking a flow twice over the same previous job
/// and the same event count persists the same state as parking it once —
/// the same `WaitingForEvents` entry; and the suspended-event counter and
/// deadline, being functions of the same count and clock, repeat unchanged.
pub proof fn lemma_suspension_idempotent(s: StatusV, required_events: u16, last: JobId)
    ensures
        parked_status_spec(parked_status_spec(s, required_events, last), required_events, last)
            == parked_status_spec(s, required_events, last),
{
    let once = parked_status_spec(s, required_events, last);
    let twice = parked_status_spec(once, required_events, last);
    assert(twice.modules =~= once.modules);
    assert(twice =~= once);
}

/// Cancellation dominates: once the flow job is canceled, a reconciliation
/// never continues the flow — no further child is enqueued — whatever the
/// verdict, the retries left, or the failure module. (The canceled terminal
/// record, `success == false` with the canceled log line, is what
/// `flow_termination` then promises.)
pub proof fn lemma_cancellation_dominates(
    flow: FlowV,
    status: StatusV,
    job: JobId,
    success: bool,
    result: Val,
    unrecoverable: bool,
    stop_early_override: Option<bool>,
    stop_val: Option<Val>,
    children: Option<Seq<(usize, Val)>>,
    rv: ReconciledV,
)
    requires
        reconcile_spec(
            flow,
            status,
            job,
            success,
            result,
            unrecoverable,
            true,
            stop_early_override,
            stop_val,
            children,
        ) == Ok::<ReconciledV, crate::error::ErrKind>(rv),
    ensures
        !rv.should_continue,
{
}

/// Stop-early propagation: when an inner flow stopped early asking to be
/// skipped, the enclosing reconciliation runs under the override
/// `Some(true)`: it observes the stop, marks the result as skipped, does
/// not continue, and — when the successful step was not a composite with
/// work left — records the outer step as `Success`.
pub proof fn lemma_stop_early_propagation(
    flow: FlowV,
    status: StatusV,
    job: JobId,
    result: Val,
    unrecoverable: bool,
    stop_val: Option<Val>,
    children: Option<Seq<(usize, Val)>>,
    rv: ReconciledV,
)
    requires
        status.step < status.modules.len(),
        reconcile_spec(
            flow,
            status,
            job,
            true,
            result,
            unrecoverable,
            false,
            Some(true),
            stop_val,
            children,
        ) == Ok::<ReconciledV, crate::error::ErrKind>(rv),
    ensures
        rv.stop_early,
        rv.skip_if_stop_early,
        !rv.should_continue,
        ({
            let sm = status.modules[status.step as int];
            next_module_status_spec(sm, status.step, true, false, false, job).0 == status.step + 1
        }) ==> rv.new_status.modules[status.step as int] matches StatusModuleV::Success { .. },
    decreases 0int,
{
    let sm = status.modules[status.step as int];
    let skip_loop = (sm matches StatusModuleV::InProgress { iterator: Some(_), .. })
        && crate::reconciler::skip_loop_failures_of(flow, status.step);
    let skip_branch = match sm {
        StatusModuleV::InProgress { branchall: Some(b), .. } => {
            crate::reconciler::skip_branchall_failure_of(flow, status.step, b.branch)
        }
        _ => false,
    };
    let stepped = next_module_status_spec(sm, status.step, true, skip_loop, skip_branch, job);
    if next_module_status_spec(sm, status.step, true, false, false, job).0 == status.step + 1 {
        assert(stepped.0 == status.step + 1 && stepped.1 is Success);
        assert(rv.new_status.modules[status.step as int] == stepped.1);
    }
}

/// The in-progress marker keeps the status sound: patching the cursor's
/// entry to `InProgress` preserves every structural invariant, and the
/// cursor does not move.
pub proof fn lemma_in_progress_preserves_wf(flow: FlowV, status: StatusV, job: JobId)
    requires
        status_wf(status, flow),
    ensures
        ({
            let patched = if status.step < status.modules.len() {
                StatusV {
                    modules: status.modules.update(
                        status.step as int,
                        in_progress_patch(status.modules[status.step as int], job),
                    ),
                    ..status
                }
            } else {
                StatusV { failure_module: in_progress_patch(status.failure_module, job), ..status }
            };
            status_wf(patched, flow) && patched.step == status.step
        }),
{
    if status.step < status.modules.len() {
        assert(status_module_wf(
            in_progress_patch(status.modules[status.step as int], job),
        ));
    } else {
        assert(status_module_wf(in_progress_patch(status.failure_module, job)));
    }
}

/// Success clears the retry record: whenever a reconciliation records the
/// active module as `Success`, the persisted retry sub-state is the empty
/// one — no counted failures, no recorded failed jobs, no saved result.
pub proof fn lemma_success_clears_retry(
    flow: FlowV,
    status: StatusV,
    job: JobId,
    success: bool,
    result: Val,
    unrecoverable: bool,
    canceled: bool,
    stop_early_override: Option<bool>,
    stop_val: Option<Val>,
    children: Option<Seq<(usize, Val)>>,
    rv: ReconciledV,
)
    requires
        status.step < status.modules.len(),
        reconcile_spec(
            flow,
            status,
            job,
            success,
            result,
            unrecoverable,
            canceled,
            stop_early_override,
            stop_val,
            children,
        ) == Ok::<ReconciledV, crate::error::ErrKind>(rv),
        rv.new_status.modules[status.step as int] is Success,
    ensures
        rv.new_status.retry == crate::reconciler::cleared_retry(),
{
}

/// The flatten rule, spelled out: an expression sees as `previous_result`
/// the nested `previous_result` field exactly of an object that carries
/// one, and the unchanged value otherwise.
pub proof fn lemma_flatten_rule(v: Val)
    ensures
        v matches Val::Obj(entries) ==> (match crate::json::obj_get(entries, "previous_result"@) {
            Some(inner) => crate::json::flatten_spec(v) == inner,
            None => crate::json::flatten_spec(v) == v,
        }),
        !(v is Obj) ==> crate::json::flatten_spec(v) == v,
{
}

} // verus!
