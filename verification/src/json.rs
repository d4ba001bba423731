use vstd::prelude::*;

verus! {

broadcast use vstd::std_specs::vec::axiom_vec_index_decreases;

/// A structured value as the flow engine sees it: flow arguments, step
/// results, expression values and the persisted pieces of a flow definition.
/// Numbers are modelled as 64-bit integers, the only numeric form the engine
/// itself inspects (iteration indices and sleep durations).
#[derive(Debug, PartialEq, Eq)]
pub enum JsonValue {
    Null,
    Bool(bool),
    Int(i64),
    Str(String),
    Arr(Vec<JsonValue>),
    Obj(Vec<(String, JsonValue)>),
}

/// The mathematical shape of a `JsonValue`; every contract over structured
/// values speaks of this form.
#[verifier::ext_equal]
pub enum Val {
    Null,
    Bool(bool),
    Int(i64),
    Str(Seq<char>),
    Arr(Seq<Val>),
    Obj(Seq<(Seq<char>, Val)>),
}

/// Views of the first `n` elements of an array's backing vector.
pub open spec fn arr_view(a: Vec<JsonValue>, n: int) -> Seq<Val>
    decreases a, n,
{
    if n <= 0 || n > a@.len() {
        Seq::empty()
    } else {
        arr_view(a, n - 1).push(a@[n - 1]@)
    }
}

/// Views of the first `n` entries of an object's backing vector.
pub open spec fn obj_view(o: Vec<(String, JsonValue)>, n: int) -> Seq<(Seq<char>, Val)>
    decreases o, n,
{
    if n <= 0 || n > o@.len() {
        Seq::empty()
    } else {
        obj_view(o, n - 1).push((o@[n - 1].0@, o@[n - 1].1@))
    }
}

impl View for JsonValue {
    type V = Val;

    open spec fn view(&self) -> Val
        decreases self,
    {
        match self {
            JsonValue::Null => Val::Null,
            JsonValue::Bool(b) => Val::Bool(*b),
            JsonValue::Int(i) => Val::Int(*i),
            JsonValue::Str(s) => Val::Str(s@),
            JsonValue::Arr(a) => Val::Arr(arr_view(*a, a@.len() as int)),
            JsonValue::Obj(o) => Val::Obj(obj_view(*o, o@.len() as int)),
        }
    }
}

impl DeepView for JsonValue {
    type V = Val;

    open spec fn deep_view(&self) -> Val {
        self.view()
    }
}

/// An array value's view is the element-wise view of its vector.
pub proof fn lemma_arr_view_is_deep_view(a: Vec<JsonValue>, n: int)
    requires
        0 <= n <= a@.len(),
    ensures
        arr_view(a, n) == a.deep_view().subrange(0, n),
    decreases n,
{
    if n > 0 {
        lemma_arr_view_is_deep_view(a, n - 1);
    }
    assert(arr_view(a, 0) == Seq::<Val>::empty());
    assert(n > 0 ==> arr_view(a, n) == arr_view(a, n - 1).push(a@[n - 1]@));
    assert(arr_view(a, n) =~= a.deep_view().subrange(0, n));
}

/// An object value's view is the entry-wise view of its vector.
pub proof fn lemma_obj_view_is_deep_view(o: Vec<(String, JsonValue)>, n: int)
    requires
        0 <= n <= o@.len(),
    ensures
        obj_view(o, n) == o.deep_view().subrange(0, n),
    decreases n,
{
    if n > 0 {
        lemma_obj_view_is_deep_view(o, n - 1);
    }
    assert(obj_view(o, 0) == Seq::<(Seq<char>, Val)>::empty());
    assert(n > 0 ==> obj_view(o, n) == obj_view(o, n - 1).push((o@[n - 1].0@, o@[n - 1].1@)));
    assert(obj_view(o, n) =~= o.deep_view().subrange(0, n));
}

impl Clone for JsonValue {
    /// Structural copy: the copy has the same mathematical value.
    #[verifier::loop_isolation(false)]
    fn clone(&self) -> (r: JsonValue)
        ensures
            r@ == self@,
        decreases self,
    {
        match self {
            JsonValue::Null => JsonValue::Null,
            JsonValue::Bool(b) => JsonValue::Bool(*b),
            JsonValue::Int(i) => JsonValue::Int(*i),
            JsonValue::Str(s) => JsonValue::Str(s.clone()),
            JsonValue::Arr(a) => {
                let mut out: Vec<JsonValue> = Vec::new();
                let mut i: usize = 0;
                while i < a.len()
                    invariant
                        i <= a@.len(),
                        out.deep_view() =~= a.deep_view().subrange(0, i as int),
                    decreases a.len() - i,
                {
                    out.push(a[i].clone());
                    proof {
                        assert(out.deep_view() =~= a.deep_view().subrange(0, i as int + 1));
                    }
                    i = i + 1;
                }
                proof {
                    lemma_arr_view_is_deep_view(out, out@.len() as int);
                    lemma_arr_view_is_deep_view(*a, a@.len() as int);
                    assert(out.deep_view() =~= a.deep_view());
                    assert(out.deep_view().subrange(0, out@.len() as int) =~= out.deep_view());
                    assert(a.deep_view().subrange(0, a@.len() as int) =~= a.deep_view());
                }
                JsonValue::Arr(out)
            }
            JsonValue::Obj(o) => {
                let mut out: Vec<(String, JsonValue)> = Vec::new();
                let mut i: usize = 0;
                while i < o.len()
                    invariant
                        i <= o@.len(),
                        out.deep_view() =~= o.deep_view().subrange(0, i as int),
                    decreases o.len() - i,
                {
                    out.push((o[i].0.clone(), o[i].1.clone()));
                    proof {
                        assert(out.deep_view() =~= o.deep_view().subrange(0, i as int + 1));
                    }
                    i = i + 1;
                }
                proof {
                    lemma_obj_view_is_deep_view(out, out@.len() as int);
                    lemma_obj_view_is_deep_view(*o, o@.len() as int);
                    assert(out.deep_view() =~= o.deep_view());
                    assert(out.deep_view().subrange(0, out@.len() as int) =~= out.deep_view());
                    assert(o.deep_view().subrange(0, o@.len() as int) =~= o.deep_view());
                }
                JsonValue::Obj(out)
            }
        }
    }
}


/// An array value's whole prefix view is its element-wise view.
pub broadcast proof fn lemma_arr_full_view(a: Vec<JsonValue>)
    ensures
        #[trigger] arr_view(a, a@.len() as int) == a.deep_view(),
{
    lemma_arr_view_is_deep_view(a, a@.len() as int);
    assert(a.deep_view().subrange(0, a@.len() as int) =~= a.deep_view());
}

/// An object value's whole prefix view is its entry-wise view.
pub broadcast proof fn lemma_obj_full_view(o: Vec<(String, JsonValue)>)
    ensures
        #[trigger] obj_view(o, o@.len() as int) == o.deep_view(),
{
    lemma_obj_view_is_deep_view(o, o@.len() as int);
    assert(o.deep_view().subrange(0, o@.len() as int) =~= o.deep_view());
}

/// The index of the first entry with the given key, or -1 when there is none.
pub open spec fn key_index(entries: Seq<(Seq<char>, Val)>, key: Seq<char>) -> int
    decreases entries.len(),
{
    if entries.len() == 0 {
        -1
    } else if entries[0].0 == key {
        0
    } else {
        let r = key_index(entries.drop_first(), key);
        if r < 0 {
            -1
        } else {
            r + 1
        }
    }
}

/// What the first entry with the given key holds, if any.
pub open spec fn obj_get(entries: Seq<(Seq<char>, Val)>, key: Seq<char>) -> Option<Val> {
    if key_index(entries, key) < 0 {
        None
    } else {
        Some(entries[key_index(entries, key)].1)
    }
}

/// Setting a key: the first entry with it is replaced, or a new entry is
/// appended.
pub open spec fn obj_insert(entries: Seq<(Seq<char>, Val)>, key: Seq<char>, v: Val) -> Seq<
    (Seq<char>, Val),
> {
    if key_index(entries, key) < 0 {
        entries.push((key, v))
    } else {
        entries.update(key_index(entries, key), (key, v))
    }
}

/// `key_index` points at the first entry with the key, inside bounds.
pub proof fn lemma_key_index_props(entries: Seq<(Seq<char>, Val)>, key: Seq<char>)
    ensures
        -1 <= key_index(entries, key) < entries.len(),
        key_index(entries, key) >= 0 ==> entries[key_index(entries, key)].0 == key,
        key_index(entries, key) == -1 ==> forall|k: int|
            0 <= k < entries.len() ==> (#[trigger] entries[k]).0 != key,
        forall|k: int| 0 <= k < key_index(entries, key) ==> (#[trigger] entries[k]).0 != key,
    decreases entries.len(),
{
    if entries.len() > 0 && entries[0].0 != key {
        lemma_key_index_props(entries.drop_first(), key);
        assert(forall|k: int|
            1 <= k < entries.len() ==> #[trigger] entries[k] == entries.drop_first()[k - 1]);
    }
}

/// A scan that saw no entry with the key up to `i` settles `key_index`: it is
/// `i` if entry `i` carries the key, and -1 if the scan reached the end.
pub proof fn lemma_key_index_scan(entries: Seq<(Seq<char>, Val)>, key: Seq<char>, i: int)
    requires
        0 <= i <= entries.len(),
        forall|k: int| 0 <= k < i ==> (#[trigger] entries[k]).0 != key,
    ensures
        i == entries.len() ==> key_index(entries, key) == -1,
        i < entries.len() && entries[i].0 == key ==> key_index(entries, key) == i,
    decreases entries.len(),
{
    if entries.len() > 0 && i > 0 {
        assert(entries[0].0 != key);
        assert(forall|k: int|
            1 <= k < entries.len() ==> #[trigger] entries[k] == entries.drop_first()[k - 1]);
        lemma_key_index_scan(entries.drop_first(), key, i - 1);
    }
}

/// The flatten rule: what expression evaluation sees as `previous_result`.
/// An object that carries a `previous_result` key hands that nested value
/// through; any other value passes unchanged.
pub open spec fn flatten_spec(v: Val) -> Val {
    match v {
        Val::Obj(entries) => match obj_get(entries, "previous_result"@) {
            Some(inner) => inner,
            None => v,
        },
        _ => v,
    }
}

/// Applies the flatten rule to a value.
#[verifier::loop_isolation(false)]
pub fn flatten_previous_result(last_result: JsonValue) -> (r: JsonValue)
    ensures
        r@ == flatten_spec(last_result@),
{
    let found: Option<JsonValue> = match &last_result {
        JsonValue::Obj(entries) => {
            proof {
                lemma_obj_full_view(*entries);
            }
            let key: String = String::from_str("previous_result");
            let mut i: usize = 0;
            let mut res: Option<JsonValue> = None;
            while i < entries.len()
                invariant
                    i <= entries@.len(),
                    res is None ==> forall|k: int|
                        0 <= k < i ==> (#[trigger] entries.deep_view()[k]).0
                            != "previous_result"@,
                    res matches Some(v) ==> obj_get(entries.deep_view(), "previous_result"@)
                        == Some(v@),
                decreases entries@.len() - i,
            {
                if res.is_none() && entries[i].0 == key {
                    proof {
                        lemma_key_index_scan(entries.deep_view(), "previous_result"@, i as int);
                    }
                    res = Some(entries[i].1.clone());
                }
                i = i + 1;
            }
            proof {
                if res is None {
                    lemma_key_index_scan(
                        entries.deep_view(),
                        "previous_result"@,
                        entries@.len() as int,
                    );
                }
            }
            res
        }
        _ => None,
    };
    match found {
        Some(v) => v,
        None => last_result,
    }
}

impl JsonValue {
    /// The empty object.
    pub fn empty_object() -> (r: JsonValue)
        ensures
            r@ == Val::Obj(Seq::empty()),
    {
        let entries: Vec<(String, JsonValue)> = Vec::new();
        proof {
            lemma_obj_full_view(entries);
        }
        JsonValue::Obj(entries)
    }

    /// The array behind this value, or the value itself when it is no array.
    pub fn into_array(self) -> (r: Result<Vec<JsonValue>, JsonValue>)
        ensures
            self@ matches Val::Arr(elems) ==> (r matches Ok(a) && a.deep_view() == elems),
            !(self@ is Arr) ==> (r matches Err(v) && v@ == self@),
    {
        match self {
            JsonValue::Arr(a) => {
                proof {
                    lemma_arr_full_view(a);
                }
                Ok(a)
            }
            v => Err(v),
        }
    }
}

/// Wraps an argument list as an object value.
pub fn args_to_value(args: Vec<(String, JsonValue)>) -> (r: JsonValue)
    ensures
        r@ == Val::Obj(args.deep_view()),
{
    proof {
        lemma_obj_full_view(args);
    }
    JsonValue::Obj(args)
}

/// Sets `key` in an argument list: the first entry with it is replaced, or a
/// new entry is appended.
#[verifier::loop_isolation(false)]
pub fn insert_arg(args: &mut Vec<(String, JsonValue)>, key: String, value: JsonValue)
    ensures
        final(args).deep_view() == obj_insert(old(args).deep_view(), key@, value@),
{
    let mut i: usize = 0;
    let mut found: Option<usize> = None;
    while i < args.len()
        invariant
            i <= args@.len(),
            found is None ==> forall|k: int|
                0 <= k < i ==> (#[trigger] args.deep_view()[k]).0 != key@,
            found matches Some(j) ==> j < i && key_index(args.deep_view(), key@) == j as int,
        decreases args@.len() - i,
    {
        if found.is_none() && args[i].0 == key {
            proof {
                lemma_key_index_scan(args.deep_view(), key@, i as int);
            }
            found = Some(i);
        }
        i = i + 1;
    }
    proof {
        if found is None {
            lemma_key_index_scan(args.deep_view(), key@, args@.len() as int);
        }
    }
    match found {
        Some(j) => {
            args.set(j, (key, value));
            proof {
                assert(args.deep_view() =~= obj_insert(old(args).deep_view(), key@, value@));
            }
        }
        None => {
            args.push((key, value));
            proof {
                assert(args.deep_view() =~= obj_insert(old(args).deep_view(), key@, value@));
            }
        }
    }
}

} // verus!
