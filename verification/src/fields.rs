use vstd::prelude::*;
use crate::error::{ContentError, ContentErrorView, msg, message, result_view, views, vec_result_view, collect, lemma_collect_step, lemma_collect_err_prefix};
use crate::json::{Json, JsonNumber};

verus! {

/// `item.get(key).ok_or(missing)`.
pub open spec fn field(j: Json, key: Seq<char>, missing: Seq<char>) -> Result<Json, ContentErrorView> {
    match j.get_spec(key) {
        Some(v) => Ok(v),
        None => Err(msg(missing)),
    }
}

/// `item.get(key).ok_or(missing)?.as_str().ok_or(wrong)`.
pub open spec fn str_field(j: Json, key: Seq<char>, missing: Seq<char>, wrong: Seq<char>) -> Result<Seq<char>, ContentErrorView> {
    match j.get_spec(key) {
        None => Err(msg(missing)),
        Some(v) => match v.str_spec() {
            Some(s) => Ok(s),
            None => Err(msg(wrong)),
        },
    }
}

/// `item.get(key).ok_or(missing)?.as_str().unwrap_or_default()`.
pub open spec fn str_or_empty_field(j: Json, key: Seq<char>, missing: Seq<char>) -> Result<Seq<char>, ContentErrorView> {
    match j.get_spec(key) {
        None => Err(msg(missing)),
        Some(v) => match v.str_spec() {
            Some(s) => Ok(s),
            None => Ok(seq![]),
        },
    }
}

/// `item.get(key).ok_or(missing)?.as_u64().ok_or(wrong)`.
pub open spec fn u64_field(j: Json, key: Seq<char>, missing: Seq<char>, wrong: Seq<char>) -> Result<u64, ContentErrorView> {
    match j.get_spec(key) {
        None => Err(msg(missing)),
        Some(v) => match v.u64_spec() {
            Some(n) => Ok(n),
            None => Err(msg(wrong)),
        },
    }
}

/// `item.get(key).ok_or(missing)?.as_f64().ok_or(wrong)`, keeping the number itself.
pub open spec fn number_field(j: Json, key: Seq<char>, missing: Seq<char>, wrong: Seq<char>) -> Result<JsonNumber, ContentErrorView> {
    match j.get_spec(key) {
        None => Err(msg(missing)),
        Some(v) => match v.number_spec() {
            Some(n) => Ok(n),
            None => Err(msg(wrong)),
        },
    }
}

/// `item.get(key).ok_or(missing)?.as_array().ok_or(wrong)`.
pub open spec fn array_field(j: Json, key: Seq<char>, missing: Seq<char>, wrong: Seq<char>) -> Result<Seq<Json>, ContentErrorView> {
    match j.get_spec(key) {
        None => Err(msg(missing)),
        Some(v) => match v.array_spec() {
            Some(a) => Ok(a),
            None => Err(msg(wrong)),
        },
    }
}

/// `item.get(key).ok_or(missing)?.as_object().ok_or(wrong)`, keeping the object itself.
pub open spec fn object_field(j: Json, key: Seq<char>, missing: Seq<char>, wrong: Seq<char>) -> Result<Json, ContentErrorView> {
    match j.get_spec(key) {
        None => Err(msg(missing)),
        Some(v) => if v.is_object() {
            Ok(v)
        } else {
            Err(msg(wrong))
        },
    }
}

/// `item.get(key).and_then(as_str).unwrap_or_default()`.
pub open spec fn str_or_empty(j: Json, key: Seq<char>) -> Seq<char> {
    match j.get_spec(key) {
        Some(v) => match v.str_spec() {
            Some(s) => s,
            None => seq![],
        },
        None => seq![],
    }
}

pub fn get_field<'a>(j: &'a Json, key: &str, missing: &str) -> (r: Result<&'a Json, ContentError>)
    ensures
        match r {
            Ok(v) => field(*j, key@, missing@) == Ok::<Json, ContentErrorView>(*v),
            Err(e) => field(*j, key@, missing@) == Err::<Json, ContentErrorView>(e@),
        },
{
    match j.get(key) {
        Some(v) => Ok(v),
        None => Err(message(missing)),
    }
}

pub fn get_str<'a>(j: &'a Json, key: &str, missing: &str, wrong: &str) -> (r: Result<&'a str, ContentError>)
    ensures
        match r {
            Ok(s) => str_field(*j, key@, missing@, wrong@) == Ok::<Seq<char>, ContentErrorView>(s@),
            Err(e) => str_field(*j, key@, missing@, wrong@) == Err::<Seq<char>, ContentErrorView>(e@),
        },
{
    match j.get(key) {
        None => Err(message(missing)),
        Some(v) => match v.as_str() {
            Some(s) => Ok(s),
            None => Err(message(wrong)),
        },
    }
}

pub fn get_str_or_empty<'a>(j: &'a Json, key: &str, missing: &str) -> (r: Result<&'a str, ContentError>)
    ensures
        match r {
            Ok(s) => str_or_empty_field(*j, key@, missing@) == Ok::<Seq<char>, ContentErrorView>(s@),
            Err(e) => str_or_empty_field(*j, key@, missing@) == Err::<Seq<char>, ContentErrorView>(e@),
        },
{
    match j.get(key) {
        None => Err(message(missing)),
        Some(v) => match v.as_str() {
            Some(s) => Ok(s),
            None => {
                proof {
                    reveal_strlit("");
                    assert(""@ =~= Seq::<char>::empty());
                }
                Ok("")
            },
        },
    }
}

pub fn get_u64(j: &Json, key: &str, missing: &str, wrong: &str) -> (r: Result<u64, ContentError>)
    ensures
        match r {
            Ok(n) => u64_field(*j, key@, missing@, wrong@) == Ok::<u64, ContentErrorView>(n),
            Err(e) => u64_field(*j, key@, missing@, wrong@) == Err::<u64, ContentErrorView>(e@),
        },
{
    match j.get(key) {
        None => Err(message(missing)),
        Some(v) => match v.as_u64() {
            Some(n) => Ok(n),
            None => Err(message(wrong)),
        },
    }
}

pub fn get_number<'a>(j: &'a Json, key: &str, missing: &str, wrong: &str) -> (r: Result<&'a JsonNumber, ContentError>)
    ensures
        match r {
            Ok(n) => number_field(*j, key@, missing@, wrong@) == Ok::<JsonNumber, ContentErrorView>(*n),
            Err(e) => number_field(*j, key@, missing@, wrong@) == Err::<JsonNumber, ContentErrorView>(e@),
        },
{
    match j.get(key) {
        None => Err(message(missing)),
        Some(v) => match v.as_number() {
            Some(n) => Ok(n),
            None => Err(message(wrong)),
        },
    }
}

pub fn get_array<'a>(j: &'a Json, key: &str, missing: &str, wrong: &str) -> (r: Result<&'a Vec<Json>, ContentError>)
    ensures
        match r {
            Ok(a) => array_field(*j, key@, missing@, wrong@) == Ok::<Seq<Json>, ContentErrorView>(a@),
            Err(e) => array_field(*j, key@, missing@, wrong@) == Err::<Seq<Json>, ContentErrorView>(e@),
        },
{
    match j.get(key) {
        None => Err(message(missing)),
        Some(v) => match v.as_array() {
            Some(a) => Ok(a),
            None => Err(message(wrong)),
        },
    }
}

pub fn get_object<'a>(j: &'a Json, key: &str, missing: &str, wrong: &str) -> (r: Result<&'a Json, ContentError>)
    ensures
        match r {
            Ok(o) => object_field(*j, key@, missing@, wrong@) == Ok::<Json, ContentErrorView>(*o),
            Err(e) => object_field(*j, key@, missing@, wrong@) == Err::<Json, ContentErrorView>(e@),
        },
{
    match j.get(key) {
        None => Err(message(missing)),
        Some(v) => match v {
            Json::Object(_) => Ok(v),
            _ => Err(message(wrong)),
        },
    }
}

pub fn get_str_or_empty_opt<'a>(j: &'a Json, key: &str) -> (r: &'a str)
    ensures
        r@ == str_or_empty(*j, key@),
{
    match j.get(key) {
        Some(v) => match v.as_str() {
            Some(s) => s,
            None => {
                proof {
                    reveal_strlit("");
                }
                ""
            },
        },
        None => {
            proof {
                reveal_strlit("");
            }
            ""
        },
    }
}

/// `j.get(outer).unwrap_or_default().as_object()`, then the string `inner` of it or `""`.
pub open spec fn nested_str_or_empty(j: Json, outer: Seq<char>, inner: Seq<char>) -> Seq<char> {
    match j.get_spec(outer) {
        Some(o) => if o.is_object() {
            str_or_empty(o, inner)
        } else {
            seq![]
        },
        None => seq![],
    }
}

pub fn get_nested_str_or_empty<'a>(j: &'a Json, outer: &str, inner: &str) -> (r: &'a str)
    ensures
        r@ == nested_str_or_empty(*j, outer@, inner@),
{
    match j.get(outer) {
        Some(o) => match o {
            Json::Object(_) => get_str_or_empty_opt(o, inner),
            _ => {
                proof {
                    reveal_strlit("");
                    assert(""@ =~= Seq::<char>::empty());
                }
                ""
            },
        },
        None => {
            proof {
                reveal_strlit("");
                assert(""@ =~= Seq::<char>::empty());
            }
            ""
        },
    }
}

/// `j.get(key).map(|v| v.as_str().unwrap_or_default())`.
pub open spec fn present_str_or_empty(j: Json, key: Seq<char>) -> Option<Seq<char>> {
    match j.get_spec(key) {
        Some(v) => match v.str_spec() {
            Some(s) => Some(s),
            None => Some(seq![]),
        },
        None => None,
    }
}

pub fn get_present_str_or_empty<'a>(j: &'a Json, key: &str) -> (r: Option<&'a str>)
    ensures
        match r {
            Some(s) => present_str_or_empty(*j, key@) == Some(s@),
            None => present_str_or_empty(*j, key@) is None,
        },
{
    match j.get(key) {
        Some(v) => match v.as_str() {
            Some(s) => Some(s),
            None => {
                proof {
                    reveal_strlit("");
                    assert(""@ =~= Seq::<char>::empty());
                }
                Some("")
            },
        },
        None => None,
    }
}

/// `j.get(key).and_then(as_str)`.
pub open spec fn opt_str(j: Json, key: Seq<char>) -> Option<Seq<char>> {
    match j.get_spec(key) {
        Some(v) => v.str_spec(),
        None => None,
    }
}

/// `j.get(key).and_then(as_bool)`.
pub open spec fn opt_bool(j: Json, key: Seq<char>) -> Option<bool> {
    match j.get_spec(key) {
        Some(v) => v.bool_spec(),
        None => None,
    }
}

/// `j.get(outer).and_then(|f| f.get(inner))`.
pub open spec fn nested(j: Json, outer: Seq<char>, inner: Seq<char>) -> Option<Json> {
    match j.get_spec(outer) {
        Some(o) => o.get_spec(inner),
        None => None,
    }
}

pub fn get_opt_str<'a>(j: &'a Json, key: &str) -> (r: Option<&'a str>)
    ensures
        match r {
            Some(s) => opt_str(*j, key@) == Some(s@),
            None => opt_str(*j, key@) is None,
        },
{
    match j.get(key) {
        Some(v) => v.as_str(),
        None => None,
    }
}

pub fn get_opt_bool(j: &Json, key: &str) -> (r: Option<bool>)
    ensures
        r == opt_bool(*j, key@),
{
    match j.get(key) {
        Some(v) => v.as_bool(),
        None => None,
    }
}

pub fn get_nested<'a>(j: &'a Json, outer: &str, inner: &str) -> (r: Option<&'a Json>)
    ensures
        match r {
            Some(v) => nested(*j, outer@, inner@) == Some(*v),
            None => nested(*j, outer@, inner@) is None,
        },
{
    match j.get(outer) {
        Some(o) => o.get(inner),
        None => None,
    }
}

/// Reads each item with `f`, stopping at the first failure.
pub(crate) fn collect_items<T: View, F: Fn(&Json) -> Result<T, ContentError>>(
    items: &Vec<Json>,
    f: F,
    Ghost(spec_f): Ghost<spec_fn(Json) -> Result<T::V, ContentErrorView>>,
) -> (r: Result<Vec<T>, ContentError>)
    requires
        forall|j: &Json| f.requires((j,)),
        forall|j: &Json, out: Result<T, ContentError>| f.ensures((j,), out) ==> result_view(out) == spec_f(*j),
    ensures
        vec_result_view(r) == collect(items@, spec_f),
{
    let mut out: Vec<T> = Vec::new();
    let mut i: usize = 0;
    proof {
        assert(items@.take(0) =~= Seq::<Json>::empty());
        assert(views(out@) =~= Seq::<T::V>::empty());
    }
    while i < items.len()
        invariant
            i <= items@.len(),
            forall|j: &Json| f.requires((j,)),
            forall|j: &Json, out: Result<T, ContentError>| f.ensures((j,), out) ==> result_view(out) == spec_f(*j),
            collect(items@.take(i as int), spec_f) == Ok::<Seq<T::V>, ContentErrorView>(views(out@)),
        decreases items@.len() - i,
    {
        proof {
            lemma_collect_step(items@, spec_f, i as int);
        }
        let res = f(&items[i]);
        match res {
            Ok(v) => {
                proof {
                    assert(views(out@.push(v)) =~= views(out@).push(v@));
                }
                out.push(v);
            },
            Err(e) => {
                proof {
                    lemma_collect_err_prefix(items@, spec_f, i + 1);
                }
                return Err(e);
            },
        }
        i += 1;
    }
    proof {
        assert(items@.take(items@.len() as int) =~= items@);
    }
    Ok(out)
}

/// The values of an object's members, in order.
pub open spec fn member_values(members: Seq<(String, Json)>) -> Seq<Json> {
    members.map_values(|m: (String, Json)| m.1)
}

/// Reads the value of each member with `f`, stopping at the first failure.
pub(crate) fn collect_member_values<T: View, F: Fn(&Json) -> Result<T, ContentError>>(
    members: &Vec<(String, Json)>,
    f: F,
    Ghost(spec_f): Ghost<spec_fn(Json) -> Result<T::V, ContentErrorView>>,
) -> (r: Result<Vec<T>, ContentError>)
    requires
        forall|j: &Json| f.requires((j,)),
        forall|j: &Json, out: Result<T, ContentError>| f.ensures((j,), out) ==> result_view(out) == spec_f(*j),
    ensures
        vec_result_view(r) == collect(member_values(members@), spec_f),
{
    let ghost values = member_values(members@);
    let mut out: Vec<T> = Vec::new();
    let mut i: usize = 0;
    proof {
        assert(values.take(0) =~= Seq::<Json>::empty());
        assert(views(out@) =~= Seq::<T::V>::empty());
    }
    while i < members.len()
        invariant
            i <= members@.len(),
            values == member_values(members@),
            forall|j: &Json| f.requires((j,)),
            forall|j: &Json, out: Result<T, ContentError>| f.ensures((j,), out) ==> result_view(out) == spec_f(*j),
            collect(values.take(i as int), spec_f) == Ok::<Seq<T::V>, ContentErrorView>(views(out@)),
        decreases members@.len() - i,
    {
        proof {
            lemma_collect_step(values, spec_f, i as int);
        }
        let res = f(&members[i].1);
        match res {
            Ok(v) => {
                proof {
                    assert(views(out@.push(v)) =~= views(out@).push(v@));
                }
                out.push(v);
            },
            Err(e) => {
                proof {
                    lemma_collect_err_prefix(values, spec_f, i + 1);
                }
                return Err(e);
            },
        }
        i += 1;
    }
    proof {
        assert(values.take(members@.len() as int) =~= values);
    }
    Ok(out)
}

} // verus!
