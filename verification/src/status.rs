use vstd::prelude::*;

use crate::flow::{FlowV, FlowValue, JobId, MAX_RETRY_ATTEMPTS};
use crate::json::{JsonValue, Val};

verus! {

broadcast use vstd::std_specs::vec::axiom_vec_index_decreases;

/// One recorded resume event: who approved, and the event's sequence number.
#[derive(Debug, PartialEq, Eq)]
pub struct Approval {
    pub resume_id: u16,
    pub approver: String,
}

/// Mathematical shape of an `Approval`.
#[verifier::ext_equal]
pub struct ApprovalV {
    pub resume_id: u16,
    pub approver: Seq<char>,
}

impl View for Approval {
    type V = ApprovalV;

    open spec fn view(&self) -> ApprovalV {
        ApprovalV { resume_id: self.resume_id, approver: self.approver@ }
    }
}

impl DeepView for Approval {
    type V = ApprovalV;

    open spec fn deep_view(&self) -> ApprovalV {
        self.view()
    }
}

impl Clone for Approval {
    /// Structural copy: the copy has the same mathematical value.
    fn clone(&self) -> (r: Approval)
        ensures
            r@ == self@,
    {
        Approval { resume_id: self.resume_id, approver: self.approver.clone() }
    }
}

/// Where a running for-each stands: the current index and the evaluated list.
#[derive(Debug, PartialEq, Eq)]
pub struct FlowIterator {
    pub index: usize,
    pub itered: Vec<JsonValue>,
}

/// Mathematical shape of a `FlowIterator`.
#[verifier::ext_equal]
pub struct IteratorV {
    pub index: usize,
    pub itered: Seq<Val>,
}

impl View for FlowIterator {
    type V = IteratorV;

    open spec fn view(&self) -> IteratorV {
        IteratorV { index: self.index, itered: self.itered.deep_view() }
    }
}

impl DeepView for FlowIterator {
    type V = IteratorV;

    open spec fn deep_view(&self) -> IteratorV {
        self.view()
    }
}

/// Which branch a branch-one module took.
#[derive(Clone, Copy, PartialEq, Eq, Structural, Debug)]
pub enum BranchChosen {
    Default,
    Branch { branch: usize },
}

/// Where a running branch-all stands: the current branch, the result that
/// preceded the module, and how many branches there are.
#[derive(Debug, PartialEq, Eq)]
pub struct BranchAllStatus {
    pub branch: usize,
    pub previous_result: JsonValue,
    pub len: usize,
}

/// Mathematical shape of a `BranchAllStatus`.
#[verifier::ext_equal]
pub struct BranchAllV {
    pub branch: usize,
    pub previous_result: Val,
    pub len: usize,
}

impl View for BranchAllStatus {
    type V = BranchAllV;

    open spec fn view(&self) -> BranchAllV {
        BranchAllV { branch: self.branch, previous_result: self.previous_result@, len: self.len }
    }
}

impl DeepView for BranchAllStatus {
    type V = BranchAllV;

    open spec fn deep_view(&self) -> BranchAllV {
        self.view()
    }
}

impl Clone for BranchAllStatus {
    /// Structural copy: the copy has the same mathematical value.
    fn clone(&self) -> (r: BranchAllStatus)
        ensures
            r@ == self@,
    {
        BranchAllStatus {
            branch: self.branch,
            previous_result: self.previous_result.clone(),
            len: self.len,
        }
    }
}

/// The persisted state of one module instance.
#[derive(Debug, PartialEq, Eq)]
pub enum FlowStatusModule {
    WaitingForPriorSteps { id: String },
    WaitingForExecutor { id: String, job: JobId },
    InProgress {
        id: String,
        job: JobId,
        iterator: Option<FlowIterator>,
        branchall: Option<BranchAllStatus>,
        branch_chosen: Option<BranchChosen>,
        flow_jobs: Option<Vec<JobId>>,
    },
    WaitingForEvents { id: String, count: u16, job: JobId },
    Success {
        id: String,
        job: JobId,
        flow_jobs: Option<Vec<JobId>>,
        branch_chosen: Option<BranchChosen>,
        approvers: Vec<Approval>,
    },
    Failure {
        id: String,
        job: JobId,
        flow_jobs: Option<Vec<JobId>>,
        branch_chosen: Option<BranchChosen>,
    },
}

/// Mathematical shape of a `FlowStatusModule`.
#[verifier::ext_equal]
pub enum StatusModuleV {
    WaitingForPriorSteps { id: Seq<char> },
    WaitingForExecutor { id: Seq<char>, job: JobId },
    InProgress {
        id: Seq<char>,
        job: JobId,
        iterator: Option<IteratorV>,
        branchall: Option<BranchAllV>,
        branch_chosen: Option<BranchChosen>,
        flow_jobs: Option<Seq<JobId>>,
    },
    WaitingForEvents { id: Seq<char>, count: u16, job: JobId },
    Success {
        id: Seq<char>,
        job: JobId,
        flow_jobs: Option<Seq<JobId>>,
        branch_chosen: Option<BranchChosen>,
        approvers: Seq<ApprovalV>,
    },
    Failure {
        id: Seq<char>,
        job: JobId,
        flow_jobs: Option<Seq<JobId>>,
        branch_chosen: Option<BranchChosen>,
    },
}

impl StatusModuleV {
    /// The stable module id this status belongs to.
    pub open spec fn module_id(self) -> Seq<char> {
        match self {
            StatusModuleV::WaitingForPriorSteps { id } => id,
            StatusModuleV::WaitingForExecutor { id, .. } => id,
            StatusModuleV::InProgress { id, .. } => id,
            StatusModuleV::WaitingForEvents { id, .. } => id,
            StatusModuleV::Success { id, .. } => id,
            StatusModuleV::Failure { id, .. } => id,
        }
    }

    /// The job recorded on this status, if any.
    pub open spec fn job_of(self) -> Option<JobId> {
        match self {
            StatusModuleV::WaitingForPriorSteps { .. } => None,
            StatusModuleV::WaitingForExecutor { job, .. } => Some(job),
            StatusModuleV::InProgress { job, .. } => Some(job),
            StatusModuleV::WaitingForEvents { job, .. } => Some(job),
            StatusModuleV::Success { job, .. } => Some(job),
            StatusModuleV::Failure { job, .. } => Some(job),
        }
    }
}

impl View for FlowStatusModule {
    type V = StatusModuleV;

    open spec fn view(&self) -> StatusModuleV {
        match self {
            FlowStatusModule::WaitingForPriorSteps { id } => StatusModuleV::WaitingForPriorSteps {
                id: id@,
            },
            FlowStatusModule::WaitingForExecutor { id, job } => StatusModuleV::WaitingForExecutor {
                id: id@,
                job: *job,
            },
            FlowStatusModule::InProgress {
                id,
                job,
                iterator,
                branchall,
                branch_chosen,
                flow_jobs,
            } => StatusModuleV::InProgress {
                id: id@,
                job: *job,
                iterator: iterator.deep_view(),
                branchall: branchall.deep_view(),
                branch_chosen: *branch_chosen,
                flow_jobs: flow_jobs.deep_view(),
            },
            FlowStatusModule::WaitingForEvents { id, count, job } => {
                StatusModuleV::WaitingForEvents { id: id@, count: *count, job: *job }
            }
            FlowStatusModule::Success { id, job, flow_jobs, branch_chosen, approvers } => {
                StatusModuleV::Success {
                    id: id@,
                    job: *job,
                    flow_jobs: flow_jobs.deep_view(),
                    branch_chosen: *branch_chosen,
                    approvers: approvers.deep_view(),
                }
            }
            FlowStatusModule::Failure { id, job, flow_jobs, branch_chosen } => {
                StatusModuleV::Failure {
                    id: id@,
                    job: *job,
                    flow_jobs: flow_jobs.deep_view(),
                    branch_chosen: *branch_chosen,
                }
            }
        }
    }
}

impl DeepView for FlowStatusModule {
    type V = StatusModuleV;

    open spec fn deep_view(&self) -> StatusModuleV {
        self.view()
    }
}

/// The retry bookkeeping of the active step.
#[derive(Debug, PartialEq, Eq)]
pub struct RetryStatus {
    pub fail_count: u16,
    pub failed_jobs: Vec<JobId>,
    pub previous_result: Option<JsonValue>,
}

/// Mathematical shape of a `RetryStatus`.
#[verifier::ext_equal]
pub struct RetryStatusV {
    pub fail_count: u16,
    pub failed_jobs: Seq<JobId>,
    pub previous_result: Option<Val>,
}

impl View for RetryStatus {
    type V = RetryStatusV;

    open spec fn view(&self) -> RetryStatusV {
        RetryStatusV {
            fail_count: self.fail_count,
            failed_jobs: self.failed_jobs.deep_view(),
            previous_result: self.previous_result.deep_view(),
        }
    }
}

impl DeepView for RetryStatus {
    type V = RetryStatusV;

    open spec fn deep_view(&self) -> RetryStatusV {
        self.view()
    }
}

/// The whole persisted runtime state of a flow job.
#[derive(Debug, PartialEq, Eq)]
pub struct FlowStatus {
    pub step: usize,
    pub modules: Vec<FlowStatusModule>,
    pub failure_module: FlowStatusModule,
    pub retry: RetryStatus,
}

/// Mathematical shape of a `FlowStatus`.
#[verifier::ext_equal]
pub struct StatusV {
    pub step: usize,
    pub modules: Seq<StatusModuleV>,
    pub failure_module: StatusModuleV,
    pub retry: RetryStatusV,
}

impl View for FlowStatus {
    type V = StatusV;

    open spec fn view(&self) -> StatusV {
        StatusV {
            step: self.step,
            modules: self.modules.deep_view(),
            failure_module: self.failure_module@,
            retry: self.retry@,
        }
    }
}

impl DeepView for FlowStatus {
    type V = StatusV;

    open spec fn deep_view(&self) -> StatusV {
        self.view()
    }
}

/// A guard list's element-wise view is its plain view.
pub broadcast proof fn lemma_bools_deep_view(v: Vec<bool>)
    ensures
        #[trigger] v.deep_view() == v@,
{
    assert(v.deep_view() =~= v@);
}

/// A job-id list's element-wise view is its plain view.
pub broadcast proof fn lemma_ids_deep_view(v: Vec<JobId>)
    ensures
        #[trigger] v.deep_view() == v@,
{
    assert(v.deep_view() =~= v@);
}

/// An optional job-id list's element-wise view is its plain view.
pub broadcast proof fn lemma_opt_ids_deep_view(v: Option<Vec<JobId>>)
    ensures
        #[trigger] v.deep_view() == (match v {
            Some(ids) => Some(ids@),
            None => None,
        }),
{
    match v {
        Some(ids) => {
            assert(ids.deep_view() =~= ids@);
        }
        None => {}
    }
}

/// Structural copy of a job-id list.
#[verifier::loop_isolation(false)]
pub fn clone_ids(v: &Vec<JobId>) -> (r: Vec<JobId>)
    ensures
        r@ == v@,
{
    let mut out: Vec<JobId> = Vec::new();
    let mut i: usize = 0;
    while i < v.len()
        invariant
            i <= v@.len(),
            out@ =~= v@.subrange(0, i as int),
        decreases v@.len() - i,
    {
        out.push(v[i]);
        i = i + 1;
    }
    proof {
        assert(out@ =~= v@);
    }
    out
}

/// Structural copy of a value list.
#[verifier::loop_isolation(false)]
pub fn clone_values(v: &Vec<JsonValue>) -> (r: Vec<JsonValue>)
    ensures
        r.deep_view() == v.deep_view(),
{
    let mut out: Vec<JsonValue> = Vec::new();
    let mut i: usize = 0;
    while i < v.len()
        invariant
            i <= v@.len(),
            out.deep_view() =~= v.deep_view().subrange(0, i as int),
        decreases v@.len() - i,
    {
        out.push(v[i].clone());
        proof {
            assert(out.deep_view() =~= v.deep_view().subrange(0, i as int + 1));
        }
        i = i + 1;
    }
    proof {
        assert(out.deep_view() =~= v.deep_view());
    }
    out
}

/// Structural copy of an approval list.
#[verifier::loop_isolation(false)]
pub fn clone_approvals(v: &Vec<Approval>) -> (r: Vec<Approval>)
    ensures
        r.deep_view() == v.deep_view(),
{
    let mut out: Vec<Approval> = Vec::new();
    let mut i: usize = 0;
    while i < v.len()
        invariant
            i <= v@.len(),
            out.deep_view() =~= v.deep_view().subrange(0, i as int),
        decreases v@.len() - i,
    {
        out.push(v[i].clone());
        proof {
            assert(out.deep_view() =~= v.deep_view().subrange(0, i as int + 1));
        }
        i = i + 1;
    }
    proof {
        assert(out.deep_view() =~= v.deep_view());
    }
    out
}

/// Structural copy of an optional job-id list.
pub fn clone_opt_ids(v: &Option<Vec<JobId>>) -> (r: Option<Vec<JobId>>)
    ensures
        r.deep_view() == v.deep_view(),
{
    match v {
        Some(ids) => Some(clone_ids(ids)),
        None => None,
    }
}

impl Clone for FlowIterator {
    /// Structural copy: the copy has the same mathematical value.
    fn clone(&self) -> (r: FlowIterator)
        ensures
            r@ == self@,
    {
        FlowIterator { index: self.index, itered: clone_values(&self.itered) }
    }
}

impl Clone for FlowStatusModule {
    /// Structural copy: the copy has the same mathematical value.
    fn clone(&self) -> (r: FlowStatusModule)
        ensures
            r@ == self@,
    {
        match self {
            FlowStatusModule::WaitingForPriorSteps { id } => {
                FlowStatusModule::WaitingForPriorSteps { id: id.clone() }
            }
            FlowStatusModule::WaitingForExecutor { id, job } => {
                FlowStatusModule::WaitingForExecutor { id: id.clone(), job: *job }
            }
            FlowStatusModule::InProgress {
                id,
                job,
                iterator,
                branchall,
                branch_chosen,
                flow_jobs,
            } => FlowStatusModule::InProgress {
                id: id.clone(),
                job: *job,
                iterator: match iterator {
                    Some(it) => Some(it.clone()),
                    None => None,
                },
                branchall: match branchall {
                    Some(b) => Some(b.clone()),
                    None => None,
                },
                branch_chosen: *branch_chosen,
                flow_jobs: clone_opt_ids(flow_jobs),
            },
            FlowStatusModule::WaitingForEvents { id, count, job } => {
                FlowStatusModule::WaitingForEvents { id: id.clone(), count: *count, job: *job }
            }
            FlowStatusModule::Success { id, job, flow_jobs, branch_chosen, approvers } => {
                FlowStatusModule::Success {
                    id: id.clone(),
                    job: *job,
                    flow_jobs: clone_opt_ids(flow_jobs),
                    branch_chosen: *branch_chosen,
                    approvers: clone_approvals(approvers),
                }
            }
            FlowStatusModule::Failure { id, job, flow_jobs, branch_chosen } => {
                FlowStatusModule::Failure {
                    id: id.clone(),
                    job: *job,
                    flow_jobs: clone_opt_ids(flow_jobs),
                    branch_chosen: *branch_chosen,
                }
            }
        }
    }
}

impl Clone for RetryStatus {
    /// Structural copy: the copy has the same mathematical value.
    fn clone(&self) -> (r: RetryStatus)
        ensures
            r@ == self@,
    {
        RetryStatus {
            fail_count: self.fail_count,
            failed_jobs: clone_ids(&self.failed_jobs),
            previous_result: match &self.previous_result {
                Some(v) => Some(v.clone()),
                None => None,
            },
        }
    }
}

impl FlowStatusModule {
    /// The stable module id this status belongs to.
    pub fn id(&self) -> (r: String)
        ensures
            r@ == self@.module_id(),
    {
        match self {
            FlowStatusModule::WaitingForPriorSteps { id } => id.clone(),
            FlowStatusModule::WaitingForExecutor { id, .. } => id.clone(),
            FlowStatusModule::InProgress { id, .. } => id.clone(),
            FlowStatusModule::WaitingForEvents { id, .. } => id.clone(),
            FlowStatusModule::Success { id, .. } => id.clone(),
            FlowStatusModule::Failure { id, .. } => id.clone(),
        }
    }

    /// The job recorded on this status, or the nil job id when none ran yet.
    pub fn job_or_nil(&self) -> (r: JobId)
        ensures
            r == match self@.job_of() {
                Some(j) => j,
                None => crate::flow::NIL_JOB,
            },
    {
        match self {
            FlowStatusModule::WaitingForPriorSteps { .. } => crate::flow::NIL_JOB,
            FlowStatusModule::WaitingForExecutor { job, .. } => *job,
            FlowStatusModule::InProgress { job, .. } => *job,
            FlowStatusModule::WaitingForEvents { job, .. } => *job,
            FlowStatusModule::Success { job, .. } => *job,
            FlowStatusModule::Failure { job, .. } => *job,
        }
    }
}

/// Whether a module status marks the step a worker is busy with.
pub open spec fn active_module(m: StatusModuleV) -> bool {
    m is InProgress || m is WaitingForExecutor
}

/// Structural soundness of one module status: on an `InProgress` entry at most
/// one of the three composite markers is set, and a running iterator's index
/// is inside its list.
pub open spec fn status_module_wf(m: StatusModuleV) -> bool {
    match m {
        StatusModuleV::InProgress { iterator, branchall, branch_chosen, .. } => {
            &&& (iterator is Some ==> branchall is None && branch_chosen is None)
            &&& (branchall is Some ==> iterator is None && branch_chosen is None)
            &&& (branch_chosen is Some ==> iterator is None && branchall is None)
            &&& (iterator matches Some(it) ==> it.index < it.itered.len())
        }
        _ => true,
    }
}

/// Structural soundness of the retry bookkeeping: one recorded failed job per
/// counted failure, and the counter within the machine bound.
pub open spec fn retry_status_wf(r: RetryStatusV) -> bool {
    &&& r.failed_jobs.len() == r.fail_count
    &&& r.fail_count <= MAX_RETRY_ATTEMPTS + 1
}

/// The structural invariants of a persisted flow status against its flow:
/// the cursor stays within bounds (its maximum marks the failure phase), the
/// status array parallels the module array, every entry is sound, and only
/// the cursor's entry can be active.
pub open spec fn status_wf(s: StatusV, f: FlowV) -> bool {
    &&& s.step <= s.modules.len()
    &&& s.modules.len() == f.modules.len()
    &&& forall|i: int| 0 <= i < s.modules.len() ==> status_module_wf(#[trigger] s.modules[i])
    &&& status_module_wf(s.failure_module)
    &&& retry_status_wf(s.retry)
    &&& forall|i: int|
        0 <= i < s.modules.len() && active_module(#[trigger] s.modules[i]) ==> i == s.step
}

/// The fresh status of a newly enqueued flow: cursor at the first module,
/// every entry waiting on its predecessors, no retries recorded.
#[verifier::loop_isolation(false)]
pub fn init_flow_status(flow: &FlowValue) -> (r: FlowStatus)
    ensures
        r@.step == 0,
        r@.modules.len() == flow@.modules.len(),
        forall|i: int|
            0 <= i < flow@.modules.len() ==> r@.modules[i]
                == (StatusModuleV::WaitingForPriorSteps { id: flow@.modules[i].id }),
        r@.failure_module == (StatusModuleV::WaitingForPriorSteps {
            id: match flow@.failure_module {
                Some(m) => m.id,
                None => "failure"@,
            },
        }),
        r@.retry == (RetryStatusV { fail_count: 0, failed_jobs: Seq::empty(), previous_result: None }),
        status_wf(r@, flow@),
{
    let mut modules: Vec<FlowStatusModule> = Vec::new();
    let mut i: usize = 0;
    while i < flow.modules.len()
        invariant
            i <= flow@.modules.len(),
            modules@.len() == i,
            forall|j: int|
                0 <= j < i ==> modules@[j]@ == (StatusModuleV::WaitingForPriorSteps {
                    id: flow@.modules[j].id,
                }),
        decreases flow@.modules.len() - i,
    {
        modules.push(
            FlowStatusModule::WaitingForPriorSteps { id: flow.modules[i].id.clone() },
        );
        i = i + 1;
    }
    let failure_id: String = match &flow.failure_module {
        Some(m) => m.id.clone(),
        None => String::from_str("failure"),
    };
    FlowStatus {
        step: 0,
        modules,
        failure_module: FlowStatusModule::WaitingForPriorSteps { id: failure_id },
        retry: RetryStatus { fail_count: 0, failed_jobs: Vec::new(), previous_result: None },
    }
}

/// Structural copy of a status-module list.
#[verifier::loop_isolation(false)]
pub fn clone_status_modules(v: &Vec<FlowStatusModule>) -> (r: Vec<FlowStatusModule>)
    ensures
        r.deep_view() == v.deep_view(),
{
    let mut out: Vec<FlowStatusModule> = Vec::new();
    let mut i: usize = 0;
    while i < v.len()
        invariant
            i <= v@.len(),
            out.deep_view() =~= v.deep_view().subrange(0, i as int),
        decreases v@.len() - i,
    {
        out.push(v[i].clone());
        proof {
            assert(out.deep_view() =~= v.deep_view().subrange(0, i as int + 1));
        }
        i = i + 1;
    }
    proof {
        assert(out.deep_view() =~= v.deep_view());
    }
    out
}

/// A module entry with the gathered approvers recorded on it: only a
/// `Success` entry carries approvers; any other entry is unchanged.
pub open spec fn with_approvers(m: StatusModuleV, aps: Seq<ApprovalV>) -> StatusModuleV {
    match m {
        StatusModuleV::Success { id, job, flow_jobs, branch_chosen, .. } => StatusModuleV::Success {
            id,
            job,
            flow_jobs,
            branch_chosen,
            approvers: aps,
        },
        _ => m,
    }
}

/// Records the gathered approvers on the module entry at `index` (the one
/// whose suspension they resolved); everything else is unchanged.
pub fn set_approvers(status: &FlowStatus, index: usize, approvers: Vec<Approval>) -> (r: FlowStatus)
    ensures
        r@.step == status@.step,
        r@.retry == status@.retry,
        r@.failure_module == status@.failure_module,
        index < status@.modules.len() ==> r@.modules == status@.modules.update(
            index as int,
            with_approvers(status@.modules[index as int], approvers.deep_view()),
        ),
        index >= status@.modules.len() ==> r@.modules == status@.modules,
{
    let ghost aps = approvers.deep_view();
    if index < status.modules.len() {
        let patched: FlowStatusModule = match &status.modules[index] {
            FlowStatusModule::Success { id, job, flow_jobs, branch_chosen, .. } => {
                FlowStatusModule::Success {
                    id: id.clone(),
                    job: *job,
                    flow_jobs: clone_opt_ids(flow_jobs),
                    branch_chosen: *branch_chosen,
                    approvers,
                }
            }
            m => m.clone(),
        };
        let mut modules: Vec<FlowStatusModule> = Vec::new();
        let mut i: usize = 0;
        #[verifier::loop_isolation(false)]
        while i < status.modules.len()
            invariant
                i <= status@.modules.len(),
                modules@.len() == i,
                patched@ == with_approvers(status@.modules[index as int], aps),
                forall|j: int|
                    0 <= j < i ==> modules@[j]@ == (if j == index as int {
                        with_approvers(status@.modules[j], aps)
                    } else {
                        status@.modules[j]
                    }),
            decreases status@.modules.len() - i,
        {
            if i == index {
                modules.push(patched.clone());
            } else {
                modules.push(status.modules[i].clone());
            }
            i = i + 1;
        }
        let r = FlowStatus {
            step: status.step,
            modules,
            failure_module: status.failure_module.clone(),
            retry: status.retry.clone(),
        };
        proof {
            assert(r@.modules =~= status@.modules.update(
                index as int,
                with_approvers(status@.modules[index as int], aps),
            ));
        }
        r
    } else {
        FlowStatus {
            step: status.step,
            modules: clone_status_modules(&status.modules),
            failure_module: status.failure_module.clone(),
            retry: status.retry.clone(),
        }
    }
}

/// The targeted status edit every transition goes through, mathematically:
/// entry `i` becomes `m` (the failure-module entry instead, once `i` is past
/// the end), the cursor moves to `new_step` when one is given, and
/// everything else is unchanged.
pub open spec fn write_status_spec(
    s: StatusV,
    i: usize,
    m: StatusModuleV,
    new_step: Option<usize>,
) -> StatusV {
    StatusV {
        step: match new_step {
            Some(ns) => ns,
            None => s.step,
        },
        modules: if i < s.modules.len() {
            s.modules.update(i as int, m)
        } else {
            s.modules
        },
        failure_module: if i < s.modules.len() {
            s.failure_module
        } else {
            m
        },
        retry: s.retry,
    }
}

/// The phase the cursor points at: a module of the flow's body, or the
/// failure module once the cursor has moved past the end.
#[derive(Clone, Copy, PartialEq, Eq, Structural, Debug)]
pub enum Step {
    Step(usize),
    FailureStep,
}

/// Which phase the persisted status is in, from its cursor alone.
pub fn get_step_of_flow_status(status: &FlowStatus) -> (r: Step)
    ensures
        r == (if status@.step < status@.modules.len() {
            Step::Step(status.step)
        } else {
            Step::FailureStep
        }),
{
    if status.step < status.modules.len() {
        Step::Step(status.step)
    } else {
        Step::FailureStep
    }
}

/// The targeted edit a worker makes the moment it picks a child job up: set
/// the active entry's job and turn its tag to `InProgress`, keeping every
/// other recorded field of that entry.
pub open spec fn in_progress_patch(m: StatusModuleV, job: JobId) -> StatusModuleV {
    match m {
        StatusModuleV::InProgress { id, iterator, branchall, branch_chosen, flow_jobs, .. } => {
            StatusModuleV::InProgress { id, job, iterator, branchall, branch_chosen, flow_jobs }
        }
        StatusModuleV::Success { id, flow_jobs, branch_chosen, .. } => StatusModuleV::InProgress {
            id,
            job,
            iterator: None,
            branchall: None,
            branch_chosen,
            flow_jobs,
        },
        StatusModuleV::Failure { id, flow_jobs, branch_chosen, .. } => StatusModuleV::InProgress {
            id,
            job,
            iterator: None,
            branchall: None,
            branch_chosen,
            flow_jobs,
        },
        StatusModuleV::WaitingForPriorSteps { id } => StatusModuleV::InProgress {
            id,
            job,
            iterator: None,
            branchall: None,
            branch_chosen: None,
            flow_jobs: None,
        },
        StatusModuleV::WaitingForExecutor { id, .. } => StatusModuleV::InProgress {
            id,
            job,
            iterator: None,
            branchall: None,
            branch_chosen: None,
            flow_jobs: None,
        },
        StatusModuleV::WaitingForEvents { id, .. } => StatusModuleV::InProgress {
            id,
            job,
            iterator: None,
            branchall: None,
            branch_chosen: None,
            flow_jobs: None,
        },
    }
}

/// Applies `in_progress_patch` to one module status.
fn patch_in_progress(m: &FlowStatusModule, job: JobId) -> (r: FlowStatusModule)
    ensures
        r@ == in_progress_patch(m@, job),
{
    match m {
        FlowStatusModule::InProgress { id, iterator, branchall, branch_chosen, flow_jobs, .. } => {
            FlowStatusModule::InProgress {
                id: id.clone(),
                job,
                iterator: match iterator {
                    Some(it) => Some(it.clone()),
                    None => None,
                },
                branchall: match branchall {
                    Some(b) => Some(b.clone()),
                    None => None,
                },
                branch_chosen: *branch_chosen,
                flow_jobs: clone_opt_ids(flow_jobs),
            }
        }
        FlowStatusModule::Success { id, flow_jobs, branch_chosen, .. } => {
            FlowStatusModule::InProgress {
                id: id.clone(),
                job,
                iterator: None,
                branchall: None,
                branch_chosen: *branch_chosen,
                flow_jobs: clone_opt_ids(flow_jobs),
            }
        }
        FlowStatusModule::Failure { id, flow_jobs, branch_chosen, .. } => {
            FlowStatusModule::InProgress {
                id: id.clone(),
                job,
                iterator: None,
                branchall: None,
                branch_chosen: *branch_chosen,
                flow_jobs: clone_opt_ids(flow_jobs),
            }
        }
        FlowStatusModule::WaitingForPriorSteps { id } => FlowStatusModule::InProgress {
            id: id.clone(),
            job,
            iterator: None,
            branchall: None,
            branch_chosen: None,
            flow_jobs: None,
        },
        FlowStatusModule::WaitingForExecutor { id, .. } => FlowStatusModule::InProgress {
            id: id.clone(),
            job,
            iterator: None,
            branchall: None,
            branch_chosen: None,
            flow_jobs: None,
        },
        FlowStatusModule::WaitingForEvents { id, .. } => FlowStatusModule::InProgress {
            id: id.clone(),
            job,
            iterator: None,
            branchall: None,
            branch_chosen: None,
            flow_jobs: None,
        },
    }
}

/// Marks the active step as picked up by a worker: `modules[step]` gets the
/// running job and the `InProgress` tag (the failure-module entry instead,
/// once the cursor is past the end); everything else is unchanged.
pub fn update_flow_status_in_progress(status: &FlowStatus, job_in_progress: JobId) -> (r:
    FlowStatus)
    ensures
        r@.step == status@.step,
        r@.retry == status@.retry,
        status@.step < status@.modules.len() ==> r@.modules == status@.modules.update(
            status@.step as int,
            in_progress_patch(status@.modules[status@.step as int], job_in_progress),
        ) && r@.failure_module == status@.failure_module,
        status@.step >= status@.modules.len() ==> r@.modules == status@.modules
            && r@.failure_module == in_progress_patch(status@.failure_module, job_in_progress),
{
    let mut modules: Vec<FlowStatusModule> = Vec::new();
    let mut i: usize = 0;
    #[verifier::loop_isolation(false)]
    while i < status.modules.len()
        invariant
            i <= status@.modules.len(),
            modules@.len() == i,
            forall|j: int|
                0 <= j < i ==> modules@[j]@ == (if j == status@.step as int {
                    in_progress_patch(status@.modules[j], job_in_progress)
                } else {
                    status@.modules[j]
                }),
        decreases status@.modules.len() - i,
    {
        if i == status.step {
            modules.push(patch_in_progress(&status.modules[i], job_in_progress));
        } else {
            modules.push(status.modules[i].clone());
        }
        i = i + 1;
    }
    let failure_module: FlowStatusModule = if status.step >= status.modules.len() {
        patch_in_progress(&status.failure_module, job_in_progress)
    } else {
        status.failure_module.clone()
    };
    let r = FlowStatus {
        step: status.step,
        modules,
        failure_module,
        retry: status.retry.clone(),
    };
    proof {
        if status@.step < status@.modules.len() {
            assert(r@.modules =~= status@.modules.update(
                status@.step as int,
                in_progress_patch(status@.modules[status@.step as int], job_in_progress),
            ));
        } else {
            assert(r@.modules =~= status@.modules);
        }
    }
    r
}

} // verus!
