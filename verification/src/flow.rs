use vstd::prelude::*;

use crate::json::{JsonValue, Val};

verus! {

broadcast use vstd::std_specs::vec::axiom_vec_index_decreases;

/// A queued job's identifier, the 128 bits of its UUID.
pub type JobId = u128;

/// The identifier of the nil UUID, used for steps that never ran a job.
pub const NIL_JOB: JobId = 0;

/// One per-field input rule: either a fixed value or an expression evaluated
/// against the flow's current variable environment.
#[derive(Debug, PartialEq, Eq)]
pub enum InputTransform {
    Static { value: JsonValue },
    Javascript { expr: String },
}

/// Mathematical shape of an `InputTransform`.
#[verifier::ext_equal]
pub enum TransformV {
    Static { value: Val },
    Javascript { expr: Seq<char> },
}

impl View for InputTransform {
    type V = TransformV;

    open spec fn view(&self) -> TransformV {
        match self {
            InputTransform::Static { value } => TransformV::Static { value: value@ },
            InputTransform::Javascript { expr } => TransformV::Javascript { expr: expr@ },
        }
    }
}

impl DeepView for InputTransform {
    type V = TransformV;

    open spec fn deep_view(&self) -> TransformV {
        self.view()
    }
}

/// A per-module predicate that, when true after the module succeeds, stops the
/// whole flow right away.
#[derive(Debug, PartialEq, Eq)]
pub struct StopAfterIf {
    pub expr: String,
    pub skip_if_stopped: bool,
}

/// Mathematical shape of a `StopAfterIf`.
#[verifier::ext_equal]
pub struct StopV {
    pub expr: Seq<char>,
    pub skip_if_stopped: bool,
}

impl View for StopAfterIf {
    type V = StopV;

    open spec fn view(&self) -> StopV {
        StopV { expr: self.expr@, skip_if_stopped: self.skip_if_stopped }
    }
}

impl DeepView for StopAfterIf {
    type V = StopV;

    open spec fn deep_view(&self) -> StopV {
        self.view()
    }
}

/// A cooperative pause: the module after this one starts only once the given
/// number of external resume events has arrived.
#[derive(Clone, Copy, PartialEq, Eq, Structural, Debug)]
pub struct Suspend {
    pub required_events: Option<u16>,
    pub timeout: Option<u32>,
}

/// A retry policy: a run of constant delays followed by a run of
/// exponentially growing delays.
#[derive(Clone, Copy, PartialEq, Eq, Structural, Debug)]
pub struct RetryConstant {
    pub attempts: u16,
    pub seconds: u16,
}

/// The exponential tail of a retry policy; the delay for attempt `i` of this
/// phase is `multiplier * seconds^(i + 1)`.
#[derive(Clone, Copy, PartialEq, Eq, Structural, Debug)]
pub struct RetryExponential {
    pub attempts: u16,
    pub multiplier: u16,
    pub seconds: u16,
}

/// The most failures the engine will ever count against one module.
pub const MAX_RETRY_ATTEMPTS: u16 = 1000;

/// The longest delay, in seconds, ever scheduled between two attempts.
pub const MAX_RETRY_INTERVAL_SECS: u64 = 60 * 60 * 6;

/// A module's retry policy.
#[derive(Clone, Copy, PartialEq, Eq, Structural, Debug)]
pub struct Retry {
    pub constant: RetryConstant,
    pub exponential: RetryExponential,
}

/// The language a raw script is written in.
#[derive(Clone, Copy, PartialEq, Eq, Structural, Debug)]
pub enum ScriptLang {
    Deno,
    Python3,
    Go,
    Bash,
}

/// One node of a flow: a stable id, what to run, and the policies that attach
/// to it.
#[derive(Debug, PartialEq, Eq)]
pub struct FlowModule {
    pub id: String,
    pub value: FlowModuleValue,
    pub input_transforms: Vec<(String, InputTransform)>,
    pub stop_after_if: Option<StopAfterIf>,
    pub sleep: Option<InputTransform>,
    pub suspend: Option<Suspend>,
    pub retry: Option<Retry>,
}

/// One branch of a branching module: a guard expression, a body, and whether
/// a failure of the body counts as success for the surrounding flow.
#[derive(Debug, PartialEq, Eq)]
pub struct Branch {
    pub expr: String,
    pub modules: Vec<FlowModule>,
    pub skip_failure: bool,
}

/// What a module runs: a no-op, a referenced script, inline code, a for-each
/// loop, a first-true branch choice, or all branches in order.
#[derive(Debug, PartialEq, Eq)]
pub enum FlowModuleValue {
    Identity,
    Script { path: String, input_transforms: Vec<(String, InputTransform)> },
    RawScript {
        path: Option<String>,
        content: String,
        language: ScriptLang,
        input_transforms: Vec<(String, InputTransform)>,
    },
    ForloopFlow { modules: Vec<FlowModule>, iterator: InputTransform, skip_failures: bool },
    BranchOne { branches: Vec<Branch>, default: Vec<FlowModule> },
    BranchAll { branches: Vec<Branch> },
}

/// A whole flow definition: the program the driver executes.
#[derive(Debug, PartialEq, Eq)]
pub struct FlowValue {
    pub modules: Vec<FlowModule>,
    pub failure_module: Option<FlowModule>,
    pub same_worker: bool,
}

/// Mathematical shape of a `FlowModule`.
#[verifier::ext_equal]
pub struct ModuleV {
    pub id: Seq<char>,
    pub value: ModuleValueV,
    pub input_transforms: Seq<(Seq<char>, TransformV)>,
    pub stop_after_if: Option<StopV>,
    pub sleep: Option<TransformV>,
    pub suspend: Option<Suspend>,
    pub retry: Option<Retry>,
}

/// Mathematical shape of a `Branch`.
#[verifier::ext_equal]
pub struct BranchV {
    pub expr: Seq<char>,
    pub modules: Seq<ModuleV>,
    pub skip_failure: bool,
}

/// Mathematical shape of a `FlowModuleValue`.
#[verifier::ext_equal]
pub enum ModuleValueV {
    Identity,
    Script { path: Seq<char>, input_transforms: Seq<(Seq<char>, TransformV)> },
    RawScript {
        path: Option<Seq<char>>,
        content: Seq<char>,
        language: ScriptLang,
        input_transforms: Seq<(Seq<char>, TransformV)>,
    },
    ForloopFlow { modules: Seq<ModuleV>, iterator: TransformV, skip_failures: bool },
    BranchOne { branches: Seq<BranchV>, default: Seq<ModuleV> },
    BranchAll { branches: Seq<BranchV> },
}

/// Mathematical shape of a `FlowValue`.
#[verifier::ext_equal]
pub struct FlowV {
    pub modules: Seq<ModuleV>,
    pub failure_module: Option<ModuleV>,
    pub same_worker: bool,
}

/// Views of the first `n` modules of a module vector.
pub open spec fn modules_view(v: Vec<FlowModule>, n: int) -> Seq<ModuleV>
    decreases v, n,
{
    if n <= 0 || n > v@.len() {
        Seq::empty()
    } else {
        modules_view(v, n - 1).push(v@[n - 1]@)
    }
}

/// Views of the first `n` branches of a branch vector.
pub open spec fn branches_view(v: Vec<Branch>, n: int) -> Seq<BranchV>
    decreases v, n,
{
    if n <= 0 || n > v@.len() {
        Seq::empty()
    } else {
        branches_view(v, n - 1).push(
            BranchV {
                expr: v@[n - 1].expr@,
                modules: modules_view(v@[n - 1].modules, v@[n - 1].modules@.len() as int),
                skip_failure: v@[n - 1].skip_failure,
            },
        )
    }
}

impl View for FlowModuleValue {
    type V = ModuleValueV;

    open spec fn view(&self) -> ModuleValueV
        decreases self,
    {
        match self {
            FlowModuleValue::Identity => ModuleValueV::Identity,
            FlowModuleValue::Script { path, input_transforms } => ModuleValueV::Script {
                path: path@,
                input_transforms: input_transforms.deep_view(),
            },
            FlowModuleValue::RawScript { path, content, language, input_transforms } => {
                ModuleValueV::RawScript {
                    path: path.deep_view(),
                    content: content@,
                    language: *language,
                    input_transforms: input_transforms.deep_view(),
                }
            }
            FlowModuleValue::ForloopFlow { modules, iterator, skip_failures } => {
                ModuleValueV::ForloopFlow {
                    modules: modules_view(*modules, modules@.len() as int),
                    iterator: iterator@,
                    skip_failures: *skip_failures,
                }
            }
            FlowModuleValue::BranchOne { branches, default } => ModuleValueV::BranchOne {
                branches: branches_view(*branches, branches@.len() as int),
                default: modules_view(*default, default@.len() as int),
            },
            FlowModuleValue::BranchAll { branches } => ModuleValueV::BranchAll {
                branches: branches_view(*branches, branches@.len() as int),
            },
        }
    }
}

impl DeepView for FlowModuleValue {
    type V = ModuleValueV;

    open spec fn deep_view(&self) -> ModuleValueV {
        self.view()
    }
}

impl View for FlowModule {
    type V = ModuleV;

    open spec fn view(&self) -> ModuleV
        decreases self,
    {
        ModuleV {
            id: self.id@,
            value: self.value@,
            input_transforms: self.input_transforms.deep_view(),
            stop_after_if: self.stop_after_if.deep_view(),
            sleep: self.sleep.deep_view(),
            suspend: self.suspend,
            retry: self.retry,
        }
    }
}

impl DeepView for FlowModule {
    type V = ModuleV;

    open spec fn deep_view(&self) -> ModuleV {
        self.view()
    }
}

impl View for Branch {
    type V = BranchV;

    open spec fn view(&self) -> BranchV {
        BranchV {
            expr: self.expr@,
            modules: self.modules.deep_view(),
            skip_failure: self.skip_failure,
        }
    }
}

impl DeepView for Branch {
    type V = BranchV;

    open spec fn deep_view(&self) -> BranchV {
        self.view()
    }
}

impl View for FlowValue {
    type V = FlowV;

    open spec fn view(&self) -> FlowV {
        FlowV {
            modules: self.modules.deep_view(),
            failure_module: self.failure_module.deep_view(),
            same_worker: self.same_worker,
        }
    }
}

impl DeepView for FlowValue {
    type V = FlowV;

    open spec fn deep_view(&self) -> FlowV {
        self.view()
    }
}

/// The prefix view of a module vector is its element-wise view.
pub proof fn lemma_modules_view_is_deep_view(v: Vec<FlowModule>, n: int)
    requires
        0 <= n <= v@.len(),
    ensures
        modules_view(v, n) == v.deep_view().subrange(0, n),
    decreases n,
{
    if n > 0 {
        lemma_modules_view_is_deep_view(v, n - 1);
    }
    assert(modules_view(v, 0) == Seq::<ModuleV>::empty());
    assert(n > 0 ==> modules_view(v, n) == modules_view(v, n - 1).push(v@[n - 1]@));
    assert(modules_view(v, n) =~= v.deep_view().subrange(0, n));
}

/// The prefix view of a branch vector is its element-wise view.
pub proof fn lemma_branches_view_is_deep_view(v: Vec<Branch>, n: int)
    requires
        0 <= n <= v@.len(),
    ensures
        branches_view(v, n) == v.deep_view().subrange(0, n),
    decreases n,
{
    if n > 0 {
        lemma_branches_view_is_deep_view(v, n - 1);
    }
    assert(branches_view(v, 0) == Seq::<BranchV>::empty());
    assert(n > 0 ==> branches_view(v, n) == branches_view(v, n - 1).push(
        BranchV {
            expr: v@[n - 1].expr@,
            modules: modules_view(v@[n - 1].modules, v@[n - 1].modules@.len() as int),
            skip_failure: v@[n - 1].skip_failure,
        },
    ));
    if n > 0 {
        lemma_modules_view_is_deep_view(v@[n - 1].modules, v@[n - 1].modules@.len() as int);
        assert(v@[n - 1].modules.deep_view().subrange(0, v@[n - 1].modules@.len() as int)
            =~= v@[n - 1].modules.deep_view());
    }
    assert(branches_view(v, n) =~= v.deep_view().subrange(0, n));
}

/// A module vector's whole prefix view is its element-wise view.
pub broadcast proof fn lemma_modules_full_view(v: Vec<FlowModule>)
    ensures
        #[trigger] modules_view(v, v@.len() as int) == v.deep_view(),
{
    lemma_modules_view_is_deep_view(v, v@.len() as int);
    assert(v.deep_view().subrange(0, v@.len() as int) =~= v.deep_view());
}

/// A branch vector's whole prefix view is its element-wise view.
pub broadcast proof fn lemma_branches_full_view(v: Vec<Branch>)
    ensures
        #[trigger] branches_view(v, v@.len() as int) == v.deep_view(),
{
    lemma_branches_view_is_deep_view(v, v@.len() as int);
    assert(v.deep_view().subrange(0, v@.len() as int) =~= v.deep_view());
}


impl Clone for InputTransform {
    /// Structural copy: the copy has the same mathematical value.
    fn clone(&self) -> (r: InputTransform)
        ensures
            r@ == self@,
    {
        match self {
            InputTransform::Static { value } => InputTransform::Static { value: value.clone() },
            InputTransform::Javascript { expr } => InputTransform::Javascript {
                expr: expr.clone(),
            },
        }
    }
}

impl Clone for StopAfterIf {
    /// Structural copy: the copy has the same mathematical value.
    fn clone(&self) -> (r: StopAfterIf)
        ensures
            r@ == self@,
    {
        StopAfterIf { expr: self.expr.clone(), skip_if_stopped: self.skip_if_stopped }
    }
}

/// Structural copy of an input-transform list.
#[verifier::loop_isolation(false)]
pub fn clone_transforms(v: &Vec<(String, InputTransform)>) -> (r: Vec<(String, InputTransform)>)
    ensures
        r.deep_view() == v.deep_view(),
{
    let mut out: Vec<(String, InputTransform)> = Vec::new();
    let mut i: usize = 0;
    while i < v.len()
        invariant
            i <= v@.len(),
            out.deep_view() =~= v.deep_view().subrange(0, i as int),
        decreases v@.len() - i,
    {
        out.push((v[i].0.clone(), v[i].1.clone()));
        proof {
            assert(out.deep_view() =~= v.deep_view().subrange(0, i as int + 1));
        }
        i = i + 1;
    }
    proof {
        assert(out.deep_view() =~= v.deep_view());
    }
    out
}

/// Structural copy of a module list.
#[verifier::loop_isolation(false)]
pub fn clone_modules(v: &Vec<FlowModule>) -> (r: Vec<FlowModule>)
    ensures
        r.deep_view() == v.deep_view(),
    decreases v,
{
    let mut out: Vec<FlowModule> = Vec::new();
    let mut i: usize = 0;
    while i < v.len()
        invariant
            i <= v@.len(),
            out.deep_view() =~= v.deep_view().subrange(0, i as int),
        decreases v@.len() - i,
    {
        out.push(v[i].clone());
        proof {
            assert(out.deep_view() =~= v.deep_view().subrange(0, i as int + 1));
        }
        i = i + 1;
    }
    proof {
        assert(out.deep_view() =~= v.deep_view());
    }
    out
}

/// Structural copy of a branch list.
#[verifier::loop_isolation(false)]
pub fn clone_branches(v: &Vec<Branch>) -> (r: Vec<Branch>)
    ensures
        r.deep_view() == v.deep_view(),
    decreases v,
{
    let mut out: Vec<Branch> = Vec::new();
    let mut i: usize = 0;
    while i < v.len()
        invariant
            i <= v@.len(),
            out.deep_view() =~= v.deep_view().subrange(0, i as int),
        decreases v@.len() - i,
    {
        out.push(
            Branch {
                expr: v[i].expr.clone(),
                modules: clone_modules(&v[i].modules),
                skip_failure: v[i].skip_failure,
            },
        );
        proof {
            assert(out.deep_view() =~= v.deep_view().subrange(0, i as int + 1));
        }
        i = i + 1;
    }
    proof {
        assert(out.deep_view() =~= v.deep_view());
    }
    out
}

impl Clone for FlowModuleValue {
    /// Structural copy: the copy has the same mathematical value.
    fn clone(&self) -> (r: FlowModuleValue)
        ensures
            r@ == self@,
        decreases self,
    {
        match self {
            FlowModuleValue::Identity => FlowModuleValue::Identity,
            FlowModuleValue::Script { path, input_transforms } => FlowModuleValue::Script {
                path: path.clone(),
                input_transforms: clone_transforms(input_transforms),
            },
            FlowModuleValue::RawScript { path, content, language, input_transforms } => {
                FlowModuleValue::RawScript {
                    path: match path {
                        Some(p) => Some(p.clone()),
                        None => None,
                    },
                    content: content.clone(),
                    language: *language,
                    input_transforms: clone_transforms(input_transforms),
                }
            }
            FlowModuleValue::ForloopFlow { modules, iterator, skip_failures } => {
                let ms = clone_modules(modules);
                proof {
                    lemma_modules_full_view(ms);
                    lemma_modules_full_view(*modules);
                }
                FlowModuleValue::ForloopFlow {
                    modules: ms,
                    iterator: iterator.clone(),
                    skip_failures: *skip_failures,
                }
            }
            FlowModuleValue::BranchOne { branches, default } => {
                let bs = clone_branches(branches);
                let ds = clone_modules(default);
                proof {
                    lemma_branches_full_view(bs);
                    lemma_branches_full_view(*branches);
                    lemma_modules_full_view(ds);
                    lemma_modules_full_view(*default);
                }
                FlowModuleValue::BranchOne { branches: bs, default: ds }
            }
            FlowModuleValue::BranchAll { branches } => {
                let bs = clone_branches(branches);
                proof {
                    lemma_branches_full_view(bs);
                    lemma_branches_full_view(*branches);
                }
                FlowModuleValue::BranchAll { branches: bs }
            }
        }
    }
}

impl Clone for FlowModule {
    /// Structural copy: the copy has the same mathematical value.
    fn clone(&self) -> (r: FlowModule)
        ensures
            r@ == self@,
        decreases self,
    {
        FlowModule {
            id: self.id.clone(),
            value: self.value.clone(),
            input_transforms: clone_transforms(&self.input_transforms),
            stop_after_if: match &self.stop_after_if {
                Some(s) => Some(s.clone()),
                None => None,
            },
            sleep: match &self.sleep {
                Some(t) => Some(t.clone()),
                None => None,
            },
            suspend: self.suspend,
            retry: self.retry,
        }
    }
}

impl Clone for FlowValue {
    /// Structural copy: the copy has the same mathematical value.
    fn clone(&self) -> (r: FlowValue)
        ensures
            r@ == self@,
    {
        FlowValue {
            modules: clone_modules(&self.modules),
            failure_module: match &self.failure_module {
                Some(m) => Some(m.clone()),
                None => None,
            },
            same_worker: self.same_worker,
        }
    }
}

/// Whether the flow defines a failure module. The driver consults this before
/// giving up on a failed step.
pub fn has_failure_module(flow: &FlowValue) -> (r: bool)
    ensures
        r == (flow@.failure_module is Some),
{
    flow.failure_module.is_some()
}

/// `skip_failures` of the for-each module at `step`, if that module is a
/// for-each; `None` otherwise.
pub fn compute_skip_loop_failures(flow: &FlowValue, step: usize) -> (r: Option<bool>)
    ensures
        r == (if step < flow@.modules.len()
            && flow@.modules[step as int].value is ForloopFlow {
            Some(flow@.modules[step as int].value->ForloopFlow_skip_failures)
        } else {
            None::<bool>
        }),
{
    if step < flow.modules.len() {
        match &flow.modules[step].value {
            FlowModuleValue::ForloopFlow { skip_failures, .. } => Some(*skip_failures),
            _ => None,
        }
    } else {
        None
    }
}

/// `skip_failure` of branch `branch` of the branch-all module at `step`, if
/// that module is a branch-all with such a branch; `None` otherwise.
pub fn compute_skip_branchall_failure(flow: &FlowValue, step: usize, branch: usize) -> (r: Option<
    bool,
>)
    ensures
        r == (if step < flow@.modules.len()
            && flow@.modules[step as int].value is BranchAll
            && branch < flow@.modules[step as int].value->BranchAll_branches.len() {
            Some(flow@.modules[step as int].value->BranchAll_branches[branch as int].skip_failure)
        } else {
            None::<bool>
        }),
{
    if step < flow.modules.len() {
        match &flow.modules[step].value {
            FlowModuleValue::BranchAll { branches } => {
                proof {
                    lemma_branches_full_view(*branches);
                }
                if branch < branches.len() {
                    Some(branches[branch].skip_failure)
                } else {
                    None
                }
            }
            _ => None,
        }
    } else {
        None
    }
}

} // verus!
