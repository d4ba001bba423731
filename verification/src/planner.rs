use vstd::prelude::*;

use crate::error::Error;
use crate::flow::{
    clone_modules, lemma_branches_full_view, lemma_modules_full_view, Branch, FlowModule,
    FlowModuleValue, FlowV, FlowValue, InputTransform, JobId, ModuleV, ModuleValueV, ScriptLang,
    Suspend,
};
use crate::json::{lemma_obj_full_view, JsonValue, Val};
use crate::paths::{dec_str, join_path_number};
use crate::flow::Retry;
use crate::status::{
    clone_ids, clone_status_modules, clone_values, BranchAllStatus, BranchAllV, BranchChosen,
    FlowIterator, FlowStatus, FlowStatusModule, IteratorV, StatusModuleV, StatusV,
};

verus! {

broadcast use vstd::std_specs::vec::axiom_vec_index_decreases, crate::status::lemma_ids_deep_view, crate::status::lemma_bools_deep_view;

/// Inline code to run as a child job.
#[derive(Debug, PartialEq, Eq)]
pub struct RawCode {
    pub path: Option<String>,
    pub content: String,
    pub language: ScriptLang,
}

/// Mathematical shape of a `RawCode`.
#[verifier::ext_equal]
pub struct RawCodeV {
    pub path: Option<Seq<char>>,
    pub content: Seq<char>,
    pub language: ScriptLang,
}

impl View for RawCode {
    type V = RawCodeV;

    open spec fn view(&self) -> RawCodeV {
        RawCodeV {
            path: self.path.deep_view(),
            content: self.content@,
            language: self.language,
        }
    }
}

impl DeepView for RawCode {
    type V = RawCodeV;

    open spec fn deep_view(&self) -> RawCodeV {
        self.view()
    }
}

/// What to enqueue for the next unit of work.
#[derive(Debug, PartialEq, Eq)]
pub enum JobPayload {
    Identity,
    ScriptHub { path: String },
    ScriptHash { hash: i64, path: String },
    Code(RawCode),
    RawFlow { value: FlowValue, path: Option<String> },
}

/// Mathematical shape of a `JobPayload`.
#[verifier::ext_equal]
pub enum JobPayloadV {
    Identity,
    ScriptHub { path: Seq<char> },
    ScriptHash { hash: i64, path: Seq<char> },
    Code(RawCodeV),
    RawFlow { value: FlowV, path: Option<Seq<char>> },
}

impl View for JobPayload {
    type V = JobPayloadV;

    open spec fn view(&self) -> JobPayloadV {
        match self {
            JobPayload::Identity => JobPayloadV::Identity,
            JobPayload::ScriptHub { path } => JobPayloadV::ScriptHub { path: path@ },
            JobPayload::ScriptHash { hash, path } => JobPayloadV::ScriptHash {
                hash: *hash,
                path: path@,
            },
            JobPayload::Code(c) => JobPayloadV::Code(c@),
            JobPayload::RawFlow { value, path } => JobPayloadV::RawFlow {
                value: value@,
                path: path.deep_view(),
            },
        }
    }
}

impl DeepView for JobPayload {
    type V = JobPayloadV;

    open spec fn deep_view(&self) -> JobPayloadV {
        self.view()
    }
}

/// State for the for-each module's next iteration, gathered before the push
/// and recorded after it.
#[derive(Debug, PartialEq, Eq)]
pub struct NextIteration {
    pub index: usize,
    pub itered: Vec<JsonValue>,
    pub flow_jobs: Vec<JobId>,
    pub new_args: Vec<(String, JsonValue)>,
}

/// Mathematical shape of a `NextIteration`.
#[verifier::ext_equal]
pub struct NextIterationV {
    pub index: usize,
    pub itered: Seq<Val>,
    pub flow_jobs: Seq<JobId>,
    pub new_args: Seq<(Seq<char>, Val)>,
}

impl View for NextIteration {
    type V = NextIterationV;

    open spec fn view(&self) -> NextIterationV {
        NextIterationV {
            index: self.index,
            itered: self.itered.deep_view(),
            flow_jobs: self.flow_jobs.deep_view(),
            new_args: self.new_args.deep_view(),
        }
    }
}

impl DeepView for NextIteration {
    type V = NextIterationV;

    open spec fn deep_view(&self) -> NextIterationV {
        self.view()
    }
}

/// State for the branch-all module's next branch.
#[derive(Debug, PartialEq, Eq)]
pub struct NextBranch {
    pub status: BranchAllStatus,
    pub flow_jobs: Vec<JobId>,
}

/// Mathematical shape of a `NextBranch`.
#[verifier::ext_equal]
pub struct NextBranchV {
    pub status: BranchAllV,
    pub flow_jobs: Seq<JobId>,
}

impl View for NextBranch {
    type V = NextBranchV;

    open spec fn view(&self) -> NextBranchV {
        NextBranchV { status: self.status@, flow_jobs: self.flow_jobs.deep_view() }
    }
}

impl DeepView for NextBranch {
    type V = NextBranchV;

    open spec fn deep_view(&self) -> NextBranchV {
        self.view()
    }
}

/// How the active module's status is to be recorded once the child job is
/// pushed.
#[derive(Debug, PartialEq, Eq)]
pub enum NextStatus {
    NextStep,
    BranchChosen(BranchChosen),
    NextBranchStep(NextBranch),
    NextLoopIteration(NextIteration),
}

/// Mathematical shape of a `NextStatus`.
#[verifier::ext_equal]
pub enum NextStatusV {
    NextStep,
    BranchChosen(BranchChosen),
    NextBranchStep(NextBranchV),
    NextLoopIteration(NextIterationV),
}

impl View for NextStatus {
    type V = NextStatusV;

    open spec fn view(&self) -> NextStatusV {
        match self {
            NextStatus::NextStep => NextStatusV::NextStep,
            NextStatus::BranchChosen(b) => NextStatusV::BranchChosen(*b),
            NextStatus::NextBranchStep(nb) => NextStatusV::NextBranchStep(nb@),
            NextStatus::NextLoopIteration(ni) => NextStatusV::NextLoopIteration(ni@),
        }
    }
}

impl DeepView for NextStatus {
    type V = NextStatusV;

    open spec fn deep_view(&self) -> NextStatusV {
        self.view()
    }
}

/// The planner's outcome: either there is nothing to run inside the module,
/// or a payload to enqueue together with the status to record.
#[derive(Debug, PartialEq, Eq)]
pub enum NextFlowTransform {
    EmptyInnerFlows,
    Continue(JobPayload, NextStatus),
}

/// Mathematical shape of a `NextFlowTransform`.
#[verifier::ext_equal]
pub enum NextFlowTransformV {
    EmptyInnerFlows,
    Continue(JobPayloadV, NextStatusV),
}

impl View for NextFlowTransform {
    type V = NextFlowTransformV;

    open spec fn view(&self) -> NextFlowTransformV {
        match self {
            NextFlowTransform::EmptyInnerFlows => NextFlowTransformV::EmptyInnerFlows,
            NextFlowTransform::Continue(p, s) => NextFlowTransformV::Continue(p@, s@),
        }
    }
}

impl DeepView for NextFlowTransform {
    type V = NextFlowTransformV;

    open spec fn deep_view(&self) -> NextFlowTransformV {
        self.view()
    }
}

/// The evaluations the driver performed for the planner: the looked-up hash
/// of a referenced script, the evaluated iterator of a starting for-each, and
/// the evaluated guard of each branch of a starting branch-one.
pub struct EvaluatedInputs {
    pub script_hash: Option<i64>,
    pub iterator_value: Option<JsonValue>,
    pub branch_preds: Option<Vec<bool>>,
}

/// The script path of a flow job, with the placeholder used when it has none.
pub open spec fn job_path_or_default(p: Option<Seq<char>>) -> Seq<char> {
    match p {
        Some(s) => s,
        None => "NO_FLOW_PATH"@,
    }
}

/// The definition of an inner flow: the given modules under the outer flow's
/// failure module and worker preference.
pub open spec fn inner_flow_v(flow: FlowV, modules: Seq<ModuleV>) -> FlowV {
    FlowV { modules, failure_module: flow.failure_module, same_worker: flow.same_worker }
}

/// The `iter` argument handed to a for-each child: its index and value.
pub open spec fn iter_args_v(index: usize, value: Val) -> Seq<(Seq<char>, Val)> {
    seq![
        (
            "iter"@,
            Val::Obj(seq![("index"@, Val::Int(index as i64)), ("value"@, value)]),
        ),
    ]
}

/// Whether a script path refers to the hub.
pub open spec fn is_hub_path(s: Seq<char>) -> bool {
    s.len() >= 4 && s.subrange(0, 4) == "hub/"@
}

/// The base path used for synthesized inner paths.
fn job_base_path<'a>(job_path: &'a Option<String>) -> (r: &'a str)
    ensures
        r@ == job_path_or_default(job_path.deep_view()),
{
    match job_path {
        Some(s) => s.as_str(),
        None => "NO_FLOW_PATH",
    }
}

/// The payload for a referenced script: a hub path as it stands, any other
/// resolved to the workspace's latest hash for it (which the driver looks
/// up). Fails when that hash was needed and not found.
pub fn script_path_to_payload(script_path: &String, hash: Option<i64>) -> (r: Result<
    JobPayload,
    Error,
>)
    ensures
        is_hub_path(script_path@) ==> (r matches Ok(p) && p@ == (JobPayloadV::ScriptHub {
            path: script_path@,
        })),
        !is_hub_path(script_path@) ==> (hash matches Some(h) ==> (r matches Ok(p) && p@
            == (JobPayloadV::ScriptHash { hash: h, path: script_path@ }))),
        !is_hub_path(script_path@) && hash is None ==> (r matches Err(e) && e@ is InternalErr),
{
    let s = script_path.as_str();
    proof {
        reveal_strlit("hub/");
    }
    let hub = s.unicode_len() >= 4 && s.get_char(0) == 'h' && s.get_char(1) == 'u'
        && s.get_char(2) == 'b' && s.get_char(3) == '/';
    proof {
        if s@.len() >= 4 {
            assert(s@.subrange(0, 4)[0] == s@[0]);
            assert(s@.subrange(0, 4)[1] == s@[1]);
            assert(s@.subrange(0, 4)[2] == s@[2]);
            assert(s@.subrange(0, 4)[3] == s@[3]);
        }
        if hub {
            assert(s@.subrange(0, 4) =~= "hub/"@);
        }
    }
    if hub {
        Ok(JobPayload::ScriptHub { path: script_path.clone() })
    } else {
        match hash {
            Some(h) => Ok(JobPayload::ScriptHash { hash: h, path: script_path.clone() }),
            None => Err(
                Error::InternalErr(String::from_str("no hash found for the script path")),
            ),
        }
    }
}

/// Whether the child may be handed to the same worker: the flow asks for it
/// and the module neither suspends nor sleeps.
pub fn continue_on_same_worker(flow: &FlowValue, module: &FlowModule) -> (r: bool)
    ensures
        r == (flow@.same_worker && module@.suspend is None && module@.sleep is None),
{
    flow.same_worker && module.suspend.is_none() && module.sleep.is_none()
}

/// The static value of a transform, when it has one; an expression transform
/// is for the driver to evaluate.
pub fn transform_static_value<'a>(t: &'a InputTransform) -> (r: Option<&'a JsonValue>)
    ensures
        t@ matches crate::flow::TransformV::Static { value } ==> (r matches Some(v) && v@
            == value),
        t@ is Javascript ==> r is None,
{
    match t {
        InputTransform::Static { value } => Some(value),
        InputTransform::Javascript { .. } => None,
    }
}

/// A child's arguments for an identity module: the previous result's own
/// fields when it is an object, else that result under `previous_result`.
pub fn identity_args(last_result: JsonValue) -> (r: Vec<(String, JsonValue)>)
    ensures
        last_result@ matches Val::Obj(entries) ==> r.deep_view() == entries,
        !(last_result@ is Obj) ==> r.deep_view() == seq![("previous_result"@, last_result@)],
{
    match last_result {
        JsonValue::Obj(entries) => {
            proof {
                lemma_obj_full_view(entries);
            }
            entries
        }
        v => {
            let mut out: Vec<(String, JsonValue)> = Vec::new();
            out.push((String::from_str("previous_result"), v));
            proof {
                assert(out.deep_view() =~= seq![("previous_result"@, out@[0].1@)]);
            }
            out
        }
    }
}

/// A child's arguments for a composite module: the flow's own arguments,
/// which must be an object when present.
pub fn composite_args(flow_args: &Option<JsonValue>) -> (r: Result<Vec<(String, JsonValue)>, Error>)
    ensures
        flow_args matches Some(v) ==> (v@ matches Val::Obj(entries) ==> (r matches Ok(a)
            && a.deep_view() == entries)),
        flow_args matches Some(v) ==> (!(v@ is Obj) ==> (r matches Err(e) && e@ is BadRequest)),
        flow_args is None ==> (r matches Ok(a) && a.deep_view() == Seq::<(Seq<char>, Val)>::empty()),
{
    match flow_args {
        Some(v) => {
            let c = v.clone();
            match c {
                JsonValue::Obj(entries) => {
                    proof {
                        lemma_obj_full_view(entries);
                    }
                    Ok(entries)
                }
                other => {
                    proof {
                        assert(!(other@ is Obj));
                    }
                    Err(
                        Error::BadRequest(
                            String::from_str("Expected an object value as flow args"),
                        ),
                    )
                }
            }
        },
        None => {
            let out: Vec<(String, JsonValue)> = Vec::new();
            proof {
                assert(out.deep_view() =~= Seq::<(Seq<char>, Val)>::empty());
            }
            Ok(out)
        }
    }
}

/// What the evaluated sleep value means: a non-negative count of seconds to
/// wait; a negative count is ignored; anything but a number is an error.
pub fn sleep_seconds_of(v: &JsonValue) -> (r: Result<Option<u64>, Error>)
    ensures
        v@ matches Val::Int(n) ==> (n >= 0 ==> (r matches Ok(d) && d matches Some(s) && s as int
            == n)),
        v@ matches Val::Int(n) ==> (n < 0 ==> (r matches Ok(d) && d is None)),
        !(v@ is Int) ==> (r matches Err(e) && e@ is ExecutionErr),
{
    match v {
        JsonValue::Int(n) => {
            if *n >= 0 {
                Ok(Some(*n as u64))
            } else {
                Ok(None)
            }
        }
        _ => Err(Error::ExecutionErr(String::from_str("Expected a number as the sleep value"))),
    }
}


/// The index of the first true guard, if any.
pub open spec fn first_true(s: Seq<bool>) -> Option<int>
    decreases s.len(),
{
    if s.len() == 0 {
        None
    } else if s[0] {
        Some(0)
    } else {
        match first_true(s.drop_first()) {
            Some(i) => Some(i + 1),
            None => None,
        }
    }
}

/// A scan that saw no true guard up to `i` settles `first_true`: it is `i`
/// when guard `i` holds, and `None` when the scan reached the end.
pub proof fn lemma_first_true_scan(s: Seq<bool>, i: int)
    requires
        0 <= i <= s.len(),
        forall|k: int| 0 <= k < i ==> !s[k],
    ensures
        i == s.len() ==> first_true(s) is None,
        i < s.len() && s[i] ==> first_true(s) == Some(i),
    decreases s.len(),
{
    if s.len() > 0 && i > 0 {
        assert(!s[0]);
        assert(forall|k: int| 1 <= k < s.len() ==> #[trigger] s[k] == s.drop_first()[k - 1]);
        lemma_first_true_scan(s.drop_first(), i - 1);
    }
}

/// The branch a starting branch-one takes for the given guard values: the
/// first true branch, else the default.
pub open spec fn chosen_branch_spec(preds: Seq<bool>) -> BranchChosen {
    match first_true(preds) {
        Some(i) => BranchChosen::Branch { branch: i as usize },
        None => BranchChosen::Default,
    }
}

/// What the planner decides, given the flow, the active module, the cursor,
/// that module's current status, the flow job's path, the last result, and
/// the driver's evaluations. Mirrors `compute_next_flow_transform` exactly;
/// on an error only the kind is pinned here.
pub open spec fn next_transform_spec(
    flow: FlowV,
    module: ModuleV,
    step: usize,
    sm: StatusModuleV,
    job_path: Option<Seq<char>>,
    last: Val,
    hash: Option<i64>,
    iter_val: Option<Val>,
    preds: Option<Seq<bool>>,
) -> Result<NextFlowTransformV, crate::error::ErrKind> {
    let base = job_path_or_default(job_path);
    match module.value {
        ModuleValueV::Identity => Ok(
            NextFlowTransformV::Continue(JobPayloadV::Identity, NextStatusV::NextStep),
        ),
        ModuleValueV::Script { path, .. } => if is_hub_path(path) {
            Ok(
                NextFlowTransformV::Continue(
                    JobPayloadV::ScriptHub { path },
                    NextStatusV::NextStep,
                ),
            )
        } else {
            match hash {
                Some(h) => Ok(
                    NextFlowTransformV::Continue(
                        JobPayloadV::ScriptHash { hash: h, path },
                        NextStatusV::NextStep,
                    ),
                ),
                None => Err(crate::error::ErrKind::Internal),
            }
        },
        ModuleValueV::RawScript { path, content, language, .. } => Ok(
            NextFlowTransformV::Continue(
                JobPayloadV::Code(
                    RawCodeV {
                        path: Some(
                            match path {
                                Some(p) => p,
                                None => base + "/"@ + dec_str(step as nat),
                            },
                        ),
                        content,
                        language,
                    },
                ),
                NextStatusV::NextStep,
            ),
        ),
        ModuleValueV::ForloopFlow { modules: ms, .. } => {
            let payload = JobPayloadV::RawFlow {
                value: inner_flow_v(flow, ms),
                path: Some(base + "/loop-"@ + dec_str(step as nat)),
            };
            match sm {
                StatusModuleV::WaitingForPriorSteps { .. } => match iter_val {
                    None => Err(crate::error::ErrKind::Internal),
                    Some(v) => match v {
                        Val::Arr(elems) => if elems.len() == 0 {
                            Ok(NextFlowTransformV::EmptyInnerFlows)
                        } else {
                            Ok(
                                NextFlowTransformV::Continue(
                                    payload,
                                    NextStatusV::NextLoopIteration(
                                        NextIterationV {
                                            index: 0,
                                            itered: elems,
                                            flow_jobs: Seq::empty(),
                                            new_args: iter_args_v(0, elems[0]),
                                        },
                                    ),
                                ),
                            )
                        },
                        _ => Err(crate::error::ErrKind::Execution),
                    },
                },
                StatusModuleV::InProgress {
                    iterator: Some(it),
                    flow_jobs: Some(fj),
                    ..
                } => if it.index + 1 < it.itered.len() {
                    Ok(
                        NextFlowTransformV::Continue(
                            payload,
                            NextStatusV::NextLoopIteration(
                                NextIterationV {
                                    index: (it.index + 1) as usize,
                                    itered: it.itered,
                                    flow_jobs: fj,
                                    new_args: iter_args_v(
                                        (it.index + 1) as usize,
                                        it.itered[it.index + 1],
                                    ),
                                },
                            ),
                        ),
                    )
                } else {
                    Err(crate::error::ErrKind::Internal)
                },
                _ => Err(crate::error::ErrKind::BadReq),
            }
        },
        ModuleValueV::BranchOne { branches, default } => match sm {
            StatusModuleV::WaitingForPriorSteps { .. } => match preds {
                None => Err(crate::error::ErrKind::Internal),
                Some(ps) => if ps.len() != branches.len() {
                    Err(crate::error::ErrKind::Internal)
                } else {
                    let chosen = chosen_branch_spec(ps);
                    let ms = match chosen {
                        BranchChosen::Branch { branch } => branches[branch as int].modules,
                        BranchChosen::Default => default,
                    };
                    Ok(
                        NextFlowTransformV::Continue(
                            JobPayloadV::RawFlow {
                                value: inner_flow_v(flow, ms),
                                path: Some(base + "/branchone-"@ + dec_str(step as nat)),
                            },
                            NextStatusV::BranchChosen(chosen),
                        ),
                    )
                },
            },
            _ => Err(crate::error::ErrKind::BadReq),
        },
        ModuleValueV::BranchAll { branches } => match sm {
            StatusModuleV::WaitingForPriorSteps { .. } => if branches.len() == 0 {
                Ok(NextFlowTransformV::EmptyInnerFlows)
            } else {
                Ok(
                    NextFlowTransformV::Continue(
                        JobPayloadV::RawFlow {
                            value: inner_flow_v(flow, branches[0].modules),
                            path: Some(base + "/branchall-"@ + dec_str(0)),
                        },
                        NextStatusV::NextBranchStep(
                            NextBranchV {
                                status: BranchAllV {
                                    branch: 0,
                                    previous_result: last,
                                    len: branches.len() as usize,
                                },
                                flow_jobs: Seq::empty(),
                            },
                        ),
                    ),
                )
            },
            StatusModuleV::InProgress { branchall: Some(b), flow_jobs: Some(fj), .. } => if b.branch
                + 1 < branches.len() {
                Ok(
                    NextFlowTransformV::Continue(
                        JobPayloadV::RawFlow {
                            value: inner_flow_v(flow, branches[b.branch + 1].modules),
                            path: Some(base + "/branchall-"@ + dec_str((b.branch + 1) as nat)),
                        },
                        NextStatusV::NextBranchStep(
                            NextBranchV {
                                status: BranchAllV {
                                    branch: (b.branch + 1) as usize,
                                    previous_result: b.previous_result,
                                    len: b.len,
                                },
                                flow_jobs: fj,
                            },
                        ),
                    ),
                )
            } else {
                Err(crate::error::ErrKind::BadReq)
            },
            _ => Err(crate::error::ErrKind::BadReq),
        },
    }
}

/// The inner flow handed to a composite child: the given modules under the
/// outer flow's failure module and worker preference.
fn make_inner_flow(flow: &FlowValue, modules: Vec<FlowModule>) -> (r: FlowValue)
    ensures
        r@ == inner_flow_v(flow@, modules.deep_view()),
{
    FlowValue {
        modules,
        failure_module: match &flow.failure_module {
            Some(m) => Some(m.clone()),
            None => None,
        },
        same_worker: flow.same_worker,
    }
}

/// The `iter` argument handed to a for-each child.
fn make_iter_args(index: usize, value: JsonValue) -> (r: Vec<(String, JsonValue)>)
    ensures
        r.deep_view() == iter_args_v(index, value@),
{
    let ghost gv = value@;
    let mut inner: Vec<(String, JsonValue)> = Vec::new();
    inner.push((String::from_str("index"), JsonValue::Int(#[verifier::truncate] (index as i64))));
    inner.push((String::from_str("value"), value));
    proof {
        assert(inner.deep_view() =~= seq![("index"@, Val::Int(index as i64)), ("value"@, gv)]);
    }
    let obj = crate::json::args_to_value(inner);
    let mut out: Vec<(String, JsonValue)> = Vec::new();
    out.push((String::from_str("iter"), obj));
    proof {
        assert(out.deep_view() =~= iter_args_v(index, gv));
    }
    out
}

/// Decides the next unit of work for the active module, from the flow, the
/// cursor, the module's recorded status, the last result, and the driver's
/// evaluations (`pre`): a payload to enqueue with the status to record, or
/// nothing to run, or an error exactly as `next_transform_spec` says.
pub fn compute_next_flow_transform(
    flow: &FlowValue,
    module: &FlowModule,
    status_step: usize,
    status_module: &FlowStatusModule,
    job_path: &Option<String>,
    last_result: &JsonValue,
    pre: &EvaluatedInputs,
) -> (r: Result<NextFlowTransform, Error>)
    requires
        status_step <= i64::MAX,
    ensures
        next_transform_spec(
            flow@,
            module@,
            status_step,
            status_module@,
            job_path.deep_view(),
            last_result@,
            pre.script_hash,
            pre.iterator_value.deep_view(),
            pre.branch_preds.deep_view(),
        ) matches Ok(t) ==> (r matches Ok(rt) && rt@ == t),
        next_transform_spec(
            flow@,
            module@,
            status_step,
            status_module@,
            job_path.deep_view(),
            last_result@,
            pre.script_hash,
            pre.iterator_value.deep_view(),
            pre.branch_preds.deep_view(),
        ) matches Err(k) ==> (r matches Err(e) && crate::error::kind_of(e@) == k),
{
    let base = job_base_path(job_path);
    match &module.value {
        FlowModuleValue::Identity => Ok(
            NextFlowTransform::Continue(JobPayload::Identity, NextStatus::NextStep),
        ),
        FlowModuleValue::Script { path, .. } => {
            match script_path_to_payload(path, pre.script_hash) {
                Ok(p) => Ok(NextFlowTransform::Continue(p, NextStatus::NextStep)),
                Err(e) => Err(e),
            }
        }
        FlowModuleValue::RawScript { path, content, language, .. } => {
            let p: String = match path {
                Some(p) => p.clone(),
                None => join_path_number(base, "/", status_step),
            };
            Ok(
                NextFlowTransform::Continue(
                    JobPayload::Code(
                        RawCode { path: Some(p), content: content.clone(), language: *language },
                    ),
                    NextStatus::NextStep,
                ),
            )
        }
        FlowModuleValue::ForloopFlow { modules, .. } => {
            proof {
                lemma_modules_full_view(*modules);
            }
            let next_iteration: NextIteration = match status_module {
                FlowStatusModule::WaitingForPriorSteps { .. } => {
                    match &pre.iterator_value {
                        None => {
                            return Err(
                                Error::InternalErr(
                                    String::from_str("no evaluated iterator for the for-each"),
                                ),
                            );
                        }
                        Some(v) => match v.clone().into_array() {
                            Err(_) => {
                                return Err(
                                    Error::ExecutionErr(
                                        String::from_str("Expected an array value as the iterator"),
                                    ),
                                );
                            }
                            Ok(itered) => {
                                if itered.len() == 0 {
                                    return Ok(NextFlowTransform::EmptyInnerFlows);
                                }
                                let first = itered[0].clone();
                                NextIteration {
                                    index: 0,
                                    itered,
                                    flow_jobs: Vec::new(),
                                    new_args: make_iter_args(0, first),
                                }
                            }
                        },
                    }
                }
                FlowStatusModule::InProgress {
                    iterator: Some(it),
                    flow_jobs: Some(fj),
                    ..
                } => {
                    if it.index < it.itered.len() && it.index + 1 < it.itered.len() {
                        let idx = it.index + 1;
                        let next = it.itered[idx].clone();
                        NextIteration {
                            index: idx,
                            itered: clone_values(&it.itered),
                            flow_jobs: clone_ids(fj),
                            new_args: make_iter_args(idx, next),
                        }
                    } else {
                        return Err(
                            Error::InternalErr(
                                String::from_str("could not iterate to the next index"),
                            ),
                        );
                    }
                }
                _ => {
                    return Err(
                        Error::BadRequest(
                            String::from_str("Unrecognized module status for ForloopFlow"),
                        ),
                    );
                }
            };
            Ok(
                NextFlowTransform::Continue(
                    JobPayload::RawFlow {
                        value: make_inner_flow(flow, clone_modules(modules)),
                        path: Some(join_path_number(base, "/loop-", status_step)),
                    },
                    NextStatus::NextLoopIteration(next_iteration),
                ),
            )
        }
        FlowModuleValue::BranchOne { branches, default } => {
            proof {
                lemma_branches_full_view(*branches);
                lemma_modules_full_view(*default);
            }
            match status_module {
                FlowStatusModule::WaitingForPriorSteps { .. } => {
                    let preds = match &pre.branch_preds {
                        None => {
                            return Err(
                                Error::InternalErr(
                                    String::from_str("no evaluated guards for the branch choice"),
                                ),
                            );
                        }
                        Some(ps) => ps,
                    };
                    if preds.len() != branches.len() {
                        return Err(
                            Error::InternalErr(
                                String::from_str("one evaluated guard per branch is needed"),
                            ),
                        );
                    }
                    let mut i: usize = 0;
                    let mut chosen: BranchChosen = BranchChosen::Default;
                    #[verifier::loop_isolation(false)]
                    while i < preds.len()
                        invariant
                            i <= preds@.len(),
                            chosen is Default ==> forall|k: int| 0 <= k < i ==> !preds@[k],
                            chosen matches BranchChosen::Branch { branch } ==> branch
                                < preds@.len() && first_true(preds@) == Some(branch as int),
                        decreases preds@.len() - i,
                    {
                        if matches!(chosen, BranchChosen::Default) && preds[i] {
                            proof {
                                lemma_first_true_scan(preds@, i as int);
                            }
                            chosen = BranchChosen::Branch { branch: i };
                        }
                        i = i + 1;
                    }
                    proof {
                        if chosen is Default {
                            lemma_first_true_scan(preds@, preds@.len() as int);
                        }
                    }
                    let ms: Vec<FlowModule> = match chosen {
                        BranchChosen::Branch { branch } => clone_modules(&branches[branch].modules),
                        BranchChosen::Default => clone_modules(default),
                    };
                    Ok(
                        NextFlowTransform::Continue(
                            JobPayload::RawFlow {
                                value: make_inner_flow(flow, ms),
                                path: Some(join_path_number(base, "/branchone-", status_step)),
                            },
                            NextStatus::BranchChosen(chosen),
                        ),
                    )
                }
                _ => Err(
                    Error::BadRequest(
                        String::from_str("Unrecognized module status for BranchOne"),
                    ),
                ),
            }
        }
        FlowModuleValue::BranchAll { branches } => {
            proof {
                lemma_branches_full_view(*branches);
            }
            match status_module {
                FlowStatusModule::WaitingForPriorSteps { .. } => {
                    if branches.len() == 0 {
                        return Ok(NextFlowTransform::EmptyInnerFlows);
                    }
                    Ok(
                        NextFlowTransform::Continue(
                            JobPayload::RawFlow {
                                value: make_inner_flow(flow, clone_modules(&branches[0].modules)),
                                path: Some(join_path_number(base, "/branchall-", 0)),
                            },
                            NextStatus::NextBranchStep(
                                NextBranch {
                                    status: BranchAllStatus {
                                        branch: 0,
                                        previous_result: last_result.clone(),
                                        len: branches.len(),
                                    },
                                    flow_jobs: Vec::new(),
                                },
                            ),
                        ),
                    )
                }
                FlowStatusModule::InProgress { branchall: Some(b), flow_jobs: Some(fj), .. } => {
                    if b.branch < branches.len() && b.branch + 1 < branches.len() {
                        let nb = b.branch + 1;
                        Ok(
                            NextFlowTransform::Continue(
                                JobPayload::RawFlow {
                                    value: make_inner_flow(
                                        flow,
                                        clone_modules(&branches[nb].modules),
                                    ),
                                    path: Some(join_path_number(base, "/branchall-", nb)),
                                },
                                NextStatus::NextBranchStep(
                                    NextBranch {
                                        status: BranchAllStatus {
                                            branch: nb,
                                            previous_result: b.previous_result.clone(),
                                            len: b.len,
                                        },
                                        flow_jobs: clone_ids(fj),
                                    },
                                ),
                            ),
                        )
                    } else {
                        Err(
                            Error::BadRequest(
                                String::from_str("Unrecognized branch for BranchAll"),
                            ),
                        )
                    }
                }
                _ => Err(
                    Error::BadRequest(
                        String::from_str("Unrecognized module status for BranchAll"),
                    ),
                ),
            }
        }
    }
}


/// Each entry set into a base argument map, in order.
pub open spec fn insert_all(
    base: Seq<(Seq<char>, Val)>,
    entries: Seq<(Seq<char>, Val)>,
) -> Seq<(Seq<char>, Val)>
    decreases entries.len(),
{
    if entries.len() == 0 {
        base
    } else {
        crate::json::obj_insert(
            insert_all(base, entries.drop_last()),
            entries.last().0,
            entries.last().1,
        )
    }
}

/// How the child's arguments are adjusted for the status being recorded: a
/// loop iteration adds its `iter` arguments; a chosen branch passes the
/// flattened last result as `previous_result`; a branch-all step passes the
/// flattened result that preceded the module; a plain step changes nothing.
pub open spec fn adjusted_args_spec(
    args: Seq<(Seq<char>, Val)>,
    ns: NextStatusV,
    last: Val,
) -> Seq<(Seq<char>, Val)> {
    match ns {
        NextStatusV::NextLoopIteration(ni) => insert_all(args, ni.new_args),
        NextStatusV::BranchChosen(_) => crate::json::obj_insert(
            args,
            "previous_result"@,
            crate::json::flatten_spec(last),
        ),
        NextStatusV::NextBranchStep(nb) => crate::json::obj_insert(
            args,
            "previous_result"@,
            crate::json::flatten_spec(nb.status.previous_result),
        ),
        NextStatusV::NextStep => args,
    }
}

/// Adjusts the child's arguments for the status being recorded.
#[verifier::loop_isolation(false)]
pub fn adjust_args_for_next_status(
    args: &mut Vec<(String, JsonValue)>,
    next_status: &NextStatus,
    last_result: JsonValue,
)
    ensures
        final(args).deep_view() == adjusted_args_spec(
            old(args).deep_view(),
            next_status@,
            last_result@,
        ),
{
    match next_status {
        NextStatus::NextLoopIteration(ni) => {
            let mut i: usize = 0;
            while i < ni.new_args.len()
                invariant
                    i <= ni.new_args@.len(),
                    args.deep_view() == insert_all(
                        old(args).deep_view(),
                        ni.new_args.deep_view().subrange(0, i as int),
                    ),
                decreases ni.new_args@.len() - i,
            {
                let ghost pre = ni.new_args.deep_view().subrange(0, i as int);
                let ghost cur = ni.new_args.deep_view().subrange(0, i as int + 1);
                proof {
                    assert(cur.drop_last() =~= pre);
                    assert(cur.last() == ni.new_args.deep_view()[i as int]);
                }
                crate::json::insert_arg(args, ni.new_args[i].0.clone(), ni.new_args[i].1.clone());
                i = i + 1;
            }
            proof {
                assert(ni.new_args.deep_view().subrange(0, ni.new_args@.len() as int)
                    =~= ni.new_args.deep_view());
            }
        }
        NextStatus::BranchChosen(_) => {
            let v = crate::json::flatten_previous_result(last_result);
            crate::json::insert_arg(args, String::from_str("previous_result"), v);
        }
        NextStatus::NextBranchStep(nb) => {
            let v = crate::json::flatten_previous_result(nb.status.previous_result.clone());
            crate::json::insert_arg(args, String::from_str("previous_result"), v);
        }
        NextStatus::NextStep => {}
    }
}

/// The status recorded for the active module once its child job `uuid` is
/// pushed.
pub open spec fn status_after_push_spec(
    ns: NextStatusV,
    uuid: JobId,
    sm: StatusModuleV,
) -> StatusModuleV {
    match ns {
        NextStatusV::NextLoopIteration(ni) => StatusModuleV::InProgress {
            id: sm.module_id(),
            job: uuid,
            iterator: Some(IteratorV { index: ni.index, itered: ni.itered }),
            branchall: None,
            branch_chosen: None,
            flow_jobs: Some(ni.flow_jobs.push(uuid)),
        },
        NextStatusV::NextBranchStep(nb) => StatusModuleV::InProgress {
            id: sm.module_id(),
            job: uuid,
            iterator: None,
            branchall: Some(nb.status),
            branch_chosen: None,
            flow_jobs: Some(nb.flow_jobs.push(uuid)),
        },
        NextStatusV::BranchChosen(b) => StatusModuleV::InProgress {
            id: sm.module_id(),
            job: uuid,
            iterator: None,
            branchall: None,
            branch_chosen: Some(b),
            flow_jobs: None,
        },
        NextStatusV::NextStep => StatusModuleV::WaitingForExecutor {
            id: sm.module_id(),
            job: uuid,
        },
    }
}

/// Builds the status recorded for the active module once its child job is
/// pushed.
pub fn next_status_after_push(
    next_status: NextStatus,
    uuid: JobId,
    status_module: &FlowStatusModule,
) -> (r: FlowStatusModule)
    ensures
        r@ == status_after_push_spec(next_status@, uuid, status_module@),
{
    let id = status_module.id();
    match next_status {
        NextStatus::NextLoopIteration(ni) => {
            let mut flow_jobs = ni.flow_jobs;
            flow_jobs.push(uuid);
            FlowStatusModule::InProgress {
                id,
                job: uuid,
                iterator: Some(FlowIterator { index: ni.index, itered: ni.itered }),
                branchall: None,
                branch_chosen: None,
                flow_jobs: Some(flow_jobs),
            }
        }
        NextStatus::NextBranchStep(nb) => {
            let mut flow_jobs = nb.flow_jobs;
            flow_jobs.push(uuid);
            FlowStatusModule::InProgress {
                id,
                job: uuid,
                iterator: None,
                branchall: Some(nb.status),
                branch_chosen: None,
                flow_jobs: Some(flow_jobs),
            }
        }
        NextStatus::BranchChosen(b) => FlowStatusModule::InProgress {
            id,
            job: uuid,
            iterator: None,
            branchall: None,
            branch_chosen: Some(b),
            flow_jobs: None,
        },
        NextStatus::NextStep => FlowStatusModule::WaitingForExecutor { id, job: uuid },
    }
}

/// The targeted status edit every transition goes through: entry `i` becomes
/// `new_module` (the failure-module entry instead, once `i` is past the
/// end), the cursor moves to `new_step` when one is given, and everything
/// else is unchanged.
pub fn write_module_status(
    status: &FlowStatus,
    i: usize,
    new_module: FlowStatusModule,
    new_step: Option<usize>,
) -> (r: FlowStatus)
    ensures
        r@.step == (match new_step {
            Some(s) => s,
            None => status@.step,
        }),
        r@.retry == status@.retry,
        i < status@.modules.len() ==> r@.modules == status@.modules.update(i as int, new_module@)
            && r@.failure_module == status@.failure_module,
        i >= status@.modules.len() ==> r@.modules == status@.modules && r@.failure_module
            == new_module@,
        r@ == crate::status::write_status_spec(status@, i, new_module@, new_step),
{
    let step: usize = match new_step {
        Some(s) => s,
        None => status.step,
    };
    if i < status.modules.len() {
        let mut modules = clone_status_modules(&status.modules);
        proof {
            assert(modules.deep_view().len() == status.modules.deep_view().len());
        }
        let ghost nm = new_module@;
        modules.set(i, new_module);
        proof {
            assert(modules.deep_view() =~= status@.modules.update(i as int, nm));
        }
        FlowStatus {
            step,
            modules,
            failure_module: status.failure_module.clone(),
            retry: status.retry.clone(),
        }
    } else {
        FlowStatus {
            step,
            modules: clone_status_modules(&status.modules),
            failure_module: new_module,
            retry: status.retry.clone(),
        }
    }
}

/// Whether starting the active module is gated on resume events: the
/// previous module must exist, carry a suspend policy asking for at least
/// one event, and have succeeded; then its suspend policy and its completed
/// job are returned.
pub open spec fn needs_resume_spec(f: FlowV, s: StatusV) -> Option<(Suspend, JobId)> {
    if s.step < 1 || s.step - 1 >= f.modules.len() {
        None
    } else {
        match f.modules[s.step - 1].suspend {
            None => None,
            Some(susp) => {
                let required = match susp.required_events {
                    Some(n) => n,
                    None => 0,
                };
                if required == 0 {
                    None
                } else if s.step - 1 < s.modules.len() {
                    match s.modules[s.step - 1] {
                        StatusModuleV::Success { job, .. } => Some((susp, job)),
                        _ => None,
                    }
                } else {
                    None
                }
            }
        }
    }
}

/// Whether starting the active module is gated on resume events.
pub fn needs_resume(flow: &FlowValue, status: &FlowStatus) -> (r: Option<(Suspend, JobId)>)
    ensures
        r == needs_resume_spec(flow@, status@),
{
    if status.step < 1 || status.step - 1 >= flow.modules.len() {
        return None;
    }
    let prev = status.step - 1;
    match &flow.modules[prev].suspend {
        None => None,
        Some(susp) => {
            let required: u16 = match susp.required_events {
                Some(n) => n,
                None => 0,
            };
            if required == 0 {
                None
            } else if prev < status.modules.len() {
                match &status.modules[prev] {
                    FlowStatusModule::Success { job, .. } => Some((*susp, *job)),
                    _ => None,
                }
            } else {
                None
            }
        }
    }
}

/// What the suspension coordinator does once it has counted the resume
/// events under the row lock.
#[derive(Clone, Copy, PartialEq, Eq, Structural, Debug)]
pub enum SuspendDecision {
    Proceed { refresh_last_result: bool },
    Park { remaining: u16 },
    TimedOut,
}

/// Decides the suspension gate: with enough events the flow proceeds (and,
/// when it had parked, the last result must be re-read from the previous
/// job); with too few it parks if it never parked, and otherwise it has
/// timed out.
pub fn suspend_decision(
    status_module: &FlowStatusModule,
    required_events: u16,
    resume_count: usize,
) -> (r: SuspendDecision)
    ensures
        resume_count >= required_events ==> r == (SuspendDecision::Proceed {
            refresh_last_result: status_module@ is WaitingForEvents,
        }),
        resume_count < required_events && status_module@ is WaitingForPriorSteps ==> r
            == (SuspendDecision::Park { remaining: (required_events - resume_count) as u16 }),
        resume_count < required_events && !(status_module@ is WaitingForPriorSteps) ==> r
            == SuspendDecision::TimedOut,
{
    if resume_count >= required_events as usize {
        SuspendDecision::Proceed {
            refresh_last_result: matches!(status_module, FlowStatusModule::WaitingForEvents { .. }),
        }
    } else if matches!(status_module, FlowStatusModule::WaitingForPriorSteps { .. }) {
        SuspendDecision::Park { remaining: required_events - (resume_count as u16) }
    } else {
        SuspendDecision::TimedOut
    }
}

/// The suspension timeout in seconds: the policy's own, or half an hour.
pub fn suspend_timeout_secs(suspend: &Suspend) -> (r: u64)
    ensures
        r == (match suspend.timeout {
            Some(t) => t as u64,
            None => 1800u64,
        }),
{
    match suspend.timeout {
        Some(t) => t as u64,
        None => 30 * 60,
    }
}

/// The status persisted when the flow parks to wait for resume events: the
/// active entry becomes `WaitingForEvents` for the previous job, keeping its
/// id; the cursor does not move.
pub open spec fn parked_status_spec(
    s: StatusV,
    required_events: u16,
    last: JobId,
) -> StatusV {
    let parked = StatusModuleV::WaitingForEvents {
        id: (if s.step < s.modules.len() {
            s.modules[s.step as int]
        } else {
            s.failure_module
        }).module_id(),
        count: required_events,
        job: last,
    };
    StatusV {
        step: s.step,
        modules: if s.step < s.modules.len() {
            s.modules.update(s.step as int, parked)
        } else {
            s.modules
        },
        failure_module: if s.step < s.modules.len() {
            s.failure_module
        } else {
            parked
        },
        retry: s.retry,
    }
}

/// Parks the flow: writes the `WaitingForEvents` entry for the previous job
/// at the cursor.
pub fn park_suspension(status: &FlowStatus, required_events: u16, last: JobId) -> (r: FlowStatus)
    ensures
        r@ == parked_status_spec(status@, required_events, last),
{
    let id: String = if status.step < status.modules.len() {
        status.modules[status.step].id()
    } else {
        status.failure_module.id()
    };
    let parked = FlowStatusModule::WaitingForEvents { id, count: required_events, job: last };
    write_module_status(status, status.step, parked, None)
}

/// The retry policy of a module that has none: no attempts.
pub open spec fn retry_or_default(o: Option<Retry>) -> Retry {
    match o {
        Some(r) => r,
        None => Retry {
            constant: crate::flow::RetryConstant { attempts: 0, seconds: 0 },
            exponential: crate::flow::RetryExponential { attempts: 0, multiplier: 0, seconds: 0 },
        },
    }
}

/// What the planner does when the active module's status is `Failure`.
#[derive(Debug, PartialEq, Eq)]
pub enum FailureAction {
    ScheduleRetry {
        delay_secs: u64,
        new_retry: crate::status::RetryStatus,
        restored_result: Option<JsonValue>,
    },
    RunFailureModule { save_retry: Option<crate::status::RetryStatus> },
}

/// Decides what follows a recorded failure: a granted retry schedules the
/// module again after the policy's delay, records the failed child and
/// advances the failure counter; without one the failure module runs (its
/// own retry bookkeeping starting fresh over the last result), and a missing
/// failure module is an internal fault.
pub fn on_module_failure(
    module_retry: &Option<Retry>,
    status: &FlowStatus,
    failed_job: JobId,
    has_failure: bool,
    failure_module_retry: &Option<Retry>,
    last_result: &JsonValue,
) -> (r: Result<FailureAction, Error>)
    ensures
        crate::retry::retry_granted(retry_or_default(*module_retry), status@.retry.fail_count)
            ==> (r matches Ok(a) && a matches FailureAction::ScheduleRetry {
            delay_secs,
            new_retry,
            restored_result,
        } && delay_secs as int == vstd::math::min(
            crate::retry::retry_interval_spec(
                retry_or_default(*module_retry),
                status.retry.fail_count,
            )->Some_0,
            crate::flow::MAX_RETRY_INTERVAL_SECS as int,
        ) && new_retry@ == (crate::status::RetryStatusV {
            fail_count: (status@.retry.fail_count + 1) as u16,
            failed_jobs: status@.retry.failed_jobs.push(failed_job),
            previous_result: status@.retry.previous_result,
        }) && restored_result.deep_view() == status@.retry.previous_result),
        !crate::retry::retry_granted(retry_or_default(*module_retry), status@.retry.fail_count)
            && !has_failure ==> (r matches Err(e) && e@ is InternalErr),
        !crate::retry::retry_granted(retry_or_default(*module_retry), status@.retry.fail_count)
            && has_failure ==> (r matches Ok(a) && a matches FailureAction::RunFailureModule {
            save_retry,
        } && save_retry.deep_view() == (if crate::retry::has_attempts_spec(
            retry_or_default(*failure_module_retry),
        ) {
            Some(
                crate::status::RetryStatusV {
                    fail_count: 0,
                    failed_jobs: Seq::empty(),
                    previous_result: Some(last_result@),
                },
            )
        } else {
            None
        })),
{
    let retry: Retry = match module_retry {
        Some(rr) => *rr,
        None => Default::default(),
    };
    match crate::retry::next_retry(&retry, &status.retry) {
        Some((fail_count, delay_secs)) => {
            let mut failed_jobs = clone_ids(&status.retry.failed_jobs);
            failed_jobs.push(failed_job);
            Ok(
                FailureAction::ScheduleRetry {
                    delay_secs,
                    new_retry: crate::status::RetryStatus {
                        fail_count,
                        failed_jobs,
                        previous_result: match &status.retry.previous_result {
                            Some(v) => Some(v.clone()),
                            None => None,
                        },
                    },
                    restored_result: match &status.retry.previous_result {
                        Some(v) => Some(v.clone()),
                        None => None,
                    },
                },
            )
        }
        None => {
            if !has_failure {
                Err(Error::InternalErr(String::from_str("missing failure module")))
            } else {
                let fretry: Retry = match failure_module_retry {
                    Some(rr) => *rr,
                    None => Default::default(),
                };
                let save_retry: Option<crate::status::RetryStatus> = if fretry.has_attempts() {
                    Some(
                        crate::status::RetryStatus {
                            fail_count: 0,
                            failed_jobs: Vec::new(),
                            previous_result: Some(last_result.clone()),
                        },
                    )
                } else {
                    None
                };
                proof {
                    if crate::retry::has_attempts_spec(fretry) {
                        assert(save_retry.deep_view() matches Some(rv) && rv
                            == (crate::status::RetryStatusV {
                            fail_count: 0,
                            failed_jobs: Seq::empty(),
                            previous_result: Some(last_result@),
                        }));
                    }
                }
                Ok(FailureAction::RunFailureModule { save_retry })
            }
        }
    }
}

/// The retry record saved the first time a module with a retry policy runs:
/// the result it will be retried over.
pub fn save_retry_on_first_attempt(
    module_retry: &Option<Retry>,
    fail_count: u16,
    last_result: &JsonValue,
) -> (r: Option<crate::status::RetryStatus>)
    ensures
        crate::retry::has_attempts_spec(retry_or_default(*module_retry)) && fail_count == 0 ==> (r
            matches Some(rs) && rs@ == (crate::status::RetryStatusV {
            fail_count: 0,
            failed_jobs: Seq::empty(),
            previous_result: Some(last_result@),
        })),
        !(crate::retry::has_attempts_spec(retry_or_default(*module_retry)) && fail_count == 0)
            ==> r is None,
{
    let retry: Retry = match module_retry {
        Some(rr) => *rr,
        None => Default::default(),
    };
    if retry.has_attempts() && fail_count == 0 {
        let r = crate::status::RetryStatus {
            fail_count: 0,
            failed_jobs: Vec::new(),
            previous_result: Some(last_result.clone()),
        };
        proof {
            assert(r@.failed_jobs =~= Seq::<JobId>::empty());
        }
        Some(r)
    } else {
        None
    }
}

/// Moves the cursor past a module that had nothing to run: its entry is
/// recorded, and the cursor lands on the following module when there is one;
/// with none left the flow is done.
pub fn jump_to_next_step_status(
    status: &FlowStatus,
    status_step: usize,
    i: usize,
    modules_len: usize,
    new_module: FlowStatusModule,
) -> (r: (FlowStatus, Option<usize>))
    requires
        i < usize::MAX,
    ensures
        r.1 == (if i + 1 < modules_len {
            Some((i + 1) as usize)
        } else {
            None::<usize>
        }),
        r.0@.step == (match r.1 {
            Some(s) => s,
            None => i,
        }),
        r.0@.retry == status@.retry,
        status_step < status@.modules.len() ==> r.0@.modules == status@.modules.update(
            status_step as int,
            new_module@,
        ) && r.0@.failure_module == status@.failure_module,
        status_step >= status@.modules.len() ==> r.0@.modules == status@.modules
            && r.0@.failure_module == new_module@,
{
    let next_step: Option<usize> = if i + 1 < modules_len {
        Some(i + 1)
    } else {
        None
    };
    let step: usize = match next_step {
        Some(s) => s,
        None => i,
    };
    (write_module_status(status, status_step, new_module, Some(step)), next_step)
}

} // verus!
