use vstd::prelude::*;

use crate::error::Error;
use crate::flow::{InputTransform, TransformV};
use crate::json::{
    flatten_previous_result, flatten_spec, insert_arg, obj_insert, JsonValue, Val,
};
use crate::flow::{FlowModule, JobId};
use crate::status::{clone_values, FlowStatus};

verus! {

/// The argument map after the first pass: static values set in order, so
/// that the expressions of the second pass observe them under `params`.
pub open spec fn static_args_spec(ts: Seq<(Seq<char>, TransformV)>) -> Seq<(Seq<char>, Val)>
    decreases ts.len(),
{
    if ts.len() == 0 {
        Seq::empty()
    } else {
        let prev = static_args_spec(ts.drop_last());
        match ts.last().1 {
            TransformV::Static { value } => obj_insert(prev, ts.last().0, value),
            TransformV::Javascript { .. } => prev,
        }
    }
}

/// How many transforms of the list are expressions.
pub open spec fn js_count(ts: Seq<(Seq<char>, TransformV)>) -> int
    decreases ts.len(),
{
    if ts.len() == 0 {
        0
    } else {
        js_count(ts.drop_last()) + if ts.last().1 is Javascript {
            1int
        } else {
            0int
        }
    }
}

/// The expression transforms of the list, in order: each field name with its
/// expression.
pub open spec fn js_list(ts: Seq<(Seq<char>, TransformV)>) -> Seq<(Seq<char>, Seq<char>)>
    decreases ts.len(),
{
    if ts.len() == 0 {
        Seq::empty()
    } else {
        let prev = js_list(ts.drop_last());
        match ts.last().1 {
            TransformV::Javascript { expr } => prev.push((ts.last().0, expr)),
            TransformV::Static { .. } => prev,
        }
    }
}

/// The argument map after the second pass: each expression's evaluated value
/// set under its field name, in order, over `base`. `vals` holds the
/// evaluated values, one per expression transform.
pub open spec fn apply_js_spec(
    ts: Seq<(Seq<char>, TransformV)>,
    vals: Seq<Val>,
    base: Seq<(Seq<char>, Val)>,
) -> Seq<(Seq<char>, Val)>
    decreases ts.len(),
{
    if ts.len() == 0 {
        base
    } else {
        let prev = apply_js_spec(ts.drop_last(), vals, base);
        match ts.last().1 {
            TransformV::Javascript { .. } => obj_insert(
                prev,
                ts.last().0,
                vals[js_count(ts.drop_last())],
            ),
            TransformV::Static { .. } => prev,
        }
    }
}

/// Longer prefixes of a transform list never hold fewer expressions.
pub proof fn lemma_js_count_mono(ts: Seq<(Seq<char>, TransformV)>, i: int, j: int)
    requires
        0 <= i <= j <= ts.len(),
    ensures
        js_count(ts.subrange(0, i)) <= js_count(ts.subrange(0, j)),
    decreases j - i,
{
    if i < j {
        lemma_js_count_mono(ts, i, j - 1);
        assert(ts.subrange(0, j).drop_last() =~= ts.subrange(0, j - 1));
    }
}

/// First pass of the resolver: sets every static transform's value, in
/// order, into a fresh argument map.
#[verifier::loop_isolation(false)]
pub fn static_args(transforms: &Vec<(String, InputTransform)>) -> (r: Vec<(String, JsonValue)>)
    ensures
        r.deep_view() == static_args_spec(transforms.deep_view()),
{
    let mut acc: Vec<(String, JsonValue)> = Vec::new();
    let mut i: usize = 0;
    while i < transforms.len()
        invariant
            i <= transforms@.len(),
            acc.deep_view() == static_args_spec(transforms.deep_view().subrange(0, i as int)),
        decreases transforms@.len() - i,
    {
        let ghost pre = transforms.deep_view().subrange(0, i as int);
        let ghost cur = transforms.deep_view().subrange(0, i as int + 1);
        proof {
            assert(cur.drop_last() =~= pre);
            assert(cur.last() == transforms.deep_view()[i as int]);
        }
        match &transforms[i].1 {
            InputTransform::Static { value } => {
                insert_arg(&mut acc, transforms[i].0.clone(), value.clone());
            }
            InputTransform::Javascript { .. } => {}
        }
        i = i + 1;
    }
    proof {
        assert(transforms.deep_view().subrange(0, transforms@.len() as int)
            =~= transforms.deep_view());
    }
    acc
}

/// The expression transforms, in order, for the driver to evaluate one by
/// one.
#[verifier::loop_isolation(false)]
pub fn list_js_transforms(transforms: &Vec<(String, InputTransform)>) -> (r: Vec<(String, String)>)
    ensures
        r.deep_view() == js_list(transforms.deep_view()),
{
    let mut acc: Vec<(String, String)> = Vec::new();
    let mut i: usize = 0;
    while i < transforms.len()
        invariant
            i <= transforms@.len(),
            acc.deep_view() == js_list(transforms.deep_view().subrange(0, i as int)),
        decreases transforms@.len() - i,
    {
        let ghost pre = transforms.deep_view().subrange(0, i as int);
        let ghost cur = transforms.deep_view().subrange(0, i as int + 1);
        proof {
            assert(cur.drop_last() =~= pre);
            assert(cur.last() == transforms.deep_view()[i as int]);
        }
        match &transforms[i].1 {
            InputTransform::Javascript { expr } => {
                acc.push((transforms[i].0.clone(), expr.clone()));
                proof {
                    assert(acc.deep_view() =~= js_list(cur));
                }
            }
            InputTransform::Static { .. } => {}
        }
        i = i + 1;
    }
    proof {
        assert(transforms.deep_view().subrange(0, transforms@.len() as int)
            =~= transforms.deep_view());
    }
    acc
}

/// The variable environment one expression transform sees: the arguments
/// gathered so far under `params`, the flattened previous result, the flow's
/// own input, and the resume events (the last one under `resume`, all of
/// them under `resumes`).
pub open spec fn js_env_spec(
    params: Seq<(Seq<char>, Val)>,
    last: Val,
    flow_args: Option<Val>,
    resumes: Seq<Val>,
) -> Seq<(Seq<char>, Val)> {
    seq![
        ("params"@, Val::Obj(params)),
        ("previous_result"@, flatten_spec(last)),
        (
            "flow_input"@,
            match flow_args {
                Some(v) => v,
                None => Val::Obj(Seq::empty()),
            },
        ),
        (
            "resume"@,
            if resumes.len() == 0 {
                Val::Null
            } else {
                resumes.last()
            },
        ),
        ("resumes"@, Val::Arr(resumes)),
    ]
}

/// Builds the variable environment one expression transform sees.
pub fn js_eval_env(
    params: &Vec<(String, JsonValue)>,
    last_result: &JsonValue,
    flow_args: &Option<JsonValue>,
    resumes: &Vec<JsonValue>,
) -> (r: Vec<(String, JsonValue)>)
    ensures
        r.deep_view() == js_env_spec(
            params.deep_view(),
            last_result@,
            flow_args.deep_view(),
            resumes.deep_view(),
        ),
{
    let mut env: Vec<(String, JsonValue)> = Vec::new();
    env.push((String::from_str("params"), crate::json::args_to_value(clone_entries(params))));
    env.push((
        String::from_str("previous_result"),
        flatten_previous_result(last_result.clone()),
    ));
    env.push((
        String::from_str("flow_input"),
        match flow_args {
            Some(v) => v.clone(),
            None => JsonValue::empty_object(),
        },
    ));
    env.push((
        String::from_str("resume"),
        if resumes.len() == 0 {
            JsonValue::Null
        } else {
            resumes[resumes.len() - 1].clone()
        },
    ));
    let vs = clone_values(resumes);
    proof {
        crate::json::lemma_arr_full_view(vs);
    }
    env.push((String::from_str("resumes"), JsonValue::Arr(vs)));
    proof {
        assert(env.deep_view() =~= js_env_spec(
            params.deep_view(),
            last_result@,
            flow_args.deep_view(),
            resumes.deep_view(),
        ));
    }
    env
}

/// Structural copy of an argument list.
#[verifier::loop_isolation(false)]
pub fn clone_entries(v: &Vec<(String, JsonValue)>) -> (r: Vec<(String, JsonValue)>)
    ensures
        r.deep_view() == v.deep_view(),
{
    let mut out: Vec<(String, JsonValue)> = Vec::new();
    let mut i: usize = 0;
    while i < v.len()
        invariant
            i <= v@.len(),
            out.deep_view() =~= v.deep_view().subrange(0, i as int),
        decreases v@.len() - i,
    {
        out.push((v[i].0.clone(), v[i].1.clone()));
        proof {
            assert(out.deep_view() =~= v.deep_view().subrange(0, i as int + 1));
        }
        i = i + 1;
    }
    proof {
        assert(out.deep_view() =~= v.deep_view());
    }
    out
}

/// The whole resolver, given the evaluated value of each expression
/// transform in order: statics are set first, then each expression's value
/// under its field name. Fails when the number of evaluated values does not
/// match the number of expression transforms.
#[verifier::loop_isolation(false)]
pub fn transform_input(
    transforms: &Vec<(String, InputTransform)>,
    evaluated: &Vec<JsonValue>,
) -> (r: Result<Vec<(String, JsonValue)>, Error>)
    ensures
        evaluated@.len() == js_count(transforms.deep_view()) ==> (r matches Ok(args)
            && args.deep_view() == apply_js_spec(
            transforms.deep_view(),
            evaluated.deep_view(),
            static_args_spec(transforms.deep_view()),
        )),
        evaluated@.len() != js_count(transforms.deep_view()) ==> (r matches Err(e)
            && e@ is InternalErr),
{
    let mut acc: Vec<(String, JsonValue)> = static_args(transforms);
    let ghost base = acc.deep_view();
    let mut i: usize = 0;
    let mut k: usize = 0;
    while i < transforms.len()
        invariant
            i <= transforms@.len(),
            k as int == js_count(transforms.deep_view().subrange(0, i as int)),
            k <= i,
            acc.deep_view() == apply_js_spec(
                transforms.deep_view().subrange(0, i as int),
                evaluated.deep_view(),
                base,
            ),
        decreases transforms@.len() - i,
    {
        let ghost pre = transforms.deep_view().subrange(0, i as int);
        let ghost cur = transforms.deep_view().subrange(0, i as int + 1);
        proof {
            assert(cur.drop_last() =~= pre);
            assert(cur.last() == transforms.deep_view()[i as int]);
        }
        match &transforms[i].1 {
            InputTransform::Javascript { .. } => {
                if k >= evaluated.len() {
                    proof {
                        lemma_js_count_mono(
                            transforms.deep_view(),
                            i as int + 1,
                            transforms@.len() as int,
                        );
                        assert(transforms.deep_view().subrange(0, transforms@.len() as int)
                            =~= transforms.deep_view());
                    }
                    return Err(
                        Error::InternalErr(
                            String::from_str("missing evaluated value for an input transform"),
                        ),
                    );
                }
                insert_arg(&mut acc, transforms[i].0.clone(), evaluated[k].clone());
                k = k + 1;
            }
            InputTransform::Static { .. } => {}
        }
        i = i + 1;
    }
    proof {
        assert(transforms.deep_view().subrange(0, transforms@.len() as int)
            =~= transforms.deep_view());
    }
    if k != evaluated.len() {
        return Err(
            Error::InternalErr(String::from_str("unused evaluated values for input transforms")),
        );
    }
    Ok(acc)
}


/// One job id per module entry: the job each recorded status names, with
/// the nil id for entries that never ran one. Expressions may refer to
/// prior steps through these.
#[verifier::loop_isolation(false)]
pub fn steps_of_status(status: &FlowStatus) -> (r: Vec<JobId>)
    ensures
        r@.len() == status@.modules.len(),
        forall|i: int|
            0 <= i < r@.len() ==> r@[i] == (match status@.modules[i].job_of() {
                Some(j) => j,
                None => crate::flow::NIL_JOB,
            }),
{
    let mut out: Vec<JobId> = Vec::new();
    let mut i: usize = 0;
    while i < status.modules.len()
        invariant
            i <= status@.modules.len(),
            out@.len() == i,
            forall|j: int|
                0 <= j < i ==> out@[j] == (match status@.modules[j].job_of() {
                    Some(x) => x,
                    None => crate::flow::NIL_JOB,
                }),
        decreases status@.modules.len() - i,
    {
        out.push(status.modules[i].job_or_nil());
        i = i + 1;
    }
    out
}

/// The map from module id to the job that ran it, for expressions that read
/// another step's result by its id: ids zipped with the given job list.
#[verifier::loop_isolation(false)]
pub fn id_map(modules: &Vec<FlowModule>, steps: &Vec<JobId>) -> (r: Vec<(String, JobId)>)
    ensures
        r@.len() == vstd::math::min(modules@.len() as int, steps@.len() as int),
        forall|i: int|
            0 <= i < r@.len() ==> r@[i].0@ == modules.deep_view()[i].id && r@[i].1 == steps@[i],
{
    let n: usize = if modules.len() < steps.len() {
        modules.len()
    } else {
        steps.len()
    };
    let mut out: Vec<(String, JobId)> = Vec::new();
    let mut i: usize = 0;
    while i < n
        invariant
            i <= n,
            n == vstd::math::min(modules@.len() as int, steps@.len() as int),
            out@.len() == i,
            forall|j: int|
                0 <= j < i ==> (#[trigger] out@[j]).0@ == modules.deep_view()[j].id && out@[j].1
                    == steps@[j],
        decreases n - i,
    {
        out.push((modules[i].id.clone(), steps[i]));
        i = i + 1;
    }
    out
}

} // verus!
