//! A model of JSON values as plain data, so that the protocol logic that
//! reads them can be verified. The transport layer converts between this
//! type and whatever JSON representation it parses on the wire.

use vstd::prelude::*;
use vstd::string::StringExecFns;

verus! {

broadcast use vstd::std_specs::vec::group_vec_axioms, vstd::seq::group_seq_axioms;

/// A JSON value. An integral number that fits in `i64` is held exactly in
/// `Int`; any other number is kept as its decimal text in `Num`, which the
/// protocol logic never interprets.
#[derive(Debug, PartialEq)]
pub enum Json {
    Null,
    Bool(bool),
    Int(i64),
    Num(String),
    Str(String),
    Arr(Vec<Json>),
    Obj(Vec<(String, Json)>),
}

/// The mathematical shape of a [`Json`] value.
pub enum JsonV {
    Null,
    Bool(bool),
    Int(int),
    Num(Seq<char>),
    Str(Seq<char>),
    Arr(Seq<JsonV>),
    Obj(Seq<(Seq<char>, JsonV)>),
}

/// The shape of each element of a JSON array, in order.
pub open spec fn arr_views(items: Seq<Json>) -> Seq<JsonV>
    decreases items,
{
    if items.len() == 0 {
        Seq::empty()
    } else {
        seq![json_view(items[0])] + arr_views(items.drop_first())
    }
}

/// The shape of each entry of a JSON object, in order.
pub open spec fn obj_views(entries: Seq<(String, Json)>) -> Seq<(Seq<char>, JsonV)>
    decreases entries,
{
    if entries.len() == 0 {
        Seq::empty()
    } else {
        seq![(entries[0].0@, json_view(entries[0].1))] + obj_views(entries.drop_first())
    }
}

/// The mathematical shape of a JSON value.
pub open spec fn json_view(j: Json) -> JsonV
    decreases j,
{
    match j {
        Json::Null => JsonV::Null,
        Json::Bool(b) => JsonV::Bool(b),
        Json::Int(i) => JsonV::Int(i as int),
        Json::Num(s) => JsonV::Num(s@),
        Json::Str(s) => JsonV::Str(s@),
        Json::Arr(items) => JsonV::Arr(arr_views(items@)),
        Json::Obj(entries) => JsonV::Obj(obj_views(entries@)),
    }
}

impl DeepView for Json {
    type V = JsonV;

    open spec fn deep_view(&self) -> JsonV {
        json_view(*self)
    }
}

/// The first value bound to `key` in an object's entry list; the wire format
/// never carries a key twice, so later duplicates are ignored.
pub open spec fn lookup_entries(entries: Seq<(Seq<char>, JsonV)>, key: Seq<char>) -> Option<JsonV>
    decreases entries.len(),
{
    if entries.len() == 0 {
        None
    } else if entries[0].0 == key {
        Some(entries[0].1)
    } else {
        lookup_entries(entries.drop_first(), key)
    }
}

impl JsonV {
    /// Field lookup: `Some` only on an object that carries the key.
    pub open spec fn get(self, key: Seq<char>) -> Option<JsonV> {
        match self {
            JsonV::Obj(entries) => lookup_entries(entries, key),
            _ => None,
        }
    }
}

/// `arr_views` maps `json_view` over the elements, keeping length and order.
pub broadcast proof fn lemma_arr_views(items: Seq<Json>)
    ensures
        (#[trigger] arr_views(items)).len() == items.len(),
        forall|i: int| 0 <= i < items.len() ==> arr_views(items)[i] == json_view(items[i]),
    decreases items.len(),
{
    if items.len() > 0 {
        lemma_arr_views(items.drop_first());
    }
}

/// `obj_views` maps the entry views over the entries, keeping length and order.
pub broadcast proof fn lemma_obj_views(entries: Seq<(String, Json)>)
    ensures
        (#[trigger] obj_views(entries)).len() == entries.len(),
        forall|i: int| 0 <= i < entries.len() ==> obj_views(entries)[i] == (
            entries[i].0@,
            json_view(entries[i].1),
        ),
    decreases entries.len(),
{
    if entries.len() > 0 {
        lemma_obj_views(entries.drop_first());
    }
}

/// A lookup passes over every entry whose key differs.
proof fn lemma_lookup_entries_skip(entries: Seq<(Seq<char>, JsonV)>, key: Seq<char>, i: int)
    requires
        0 <= i <= entries.len(),
        forall|j: int| 0 <= j < i ==> entries[j].0 != key,
    ensures
        lookup_entries(entries, key) == lookup_entries(entries.skip(i), key),
    decreases i,
{
    if i > 0 {
        lemma_lookup_entries_skip(entries, key, i - 1);
        assert(entries.skip(i - 1).drop_first() =~= entries.skip(i));
    } else {
        assert(entries.skip(0) =~= entries);
    }
}

impl Json {
    /// The first value bound to `key` when `self` is an object; `None` on any
    /// other shape or when the key is absent.
    pub fn get<'a>(&'a self, key: &str) -> (r: Option<&'a Json>)
        ensures
            match r {
                Some(v) => json_view(*self).get(key@) == Some(json_view(*v)),
                None => json_view(*self).get(key@) is None,
            },
    {
        match self {
            Json::Obj(entries) => {
                let wanted = String::from_str(key);
                let ghost views = obj_views(entries@);
                proof {
                    lemma_obj_views(entries@);
                }
                let n = entries.len();
                let mut i: usize = 0;
                while i < n
                    invariant
                        i <= n,
                        n == entries@.len(),
                        views == obj_views(entries@),
                        views.len() == n,
                        forall|j: int| 0 <= j < n ==> views[j] == (
                            entries@[j].0@,
                            json_view(entries@[j].1),
                        ),
                        wanted@ == key@,
                        json_view(*self) == JsonV::Obj(views),
                        forall|j: int| 0 <= j < i ==> views[j].0 != key@,
                    decreases n - i,
                {
                    if entries[i].0 == wanted {
                        proof {
                            lemma_lookup_entries_skip(views, key@, i as int);
                            assert(views.skip(i as int)[0] == views[i as int]);
                        }
                        return Some(&entries[i].1);
                    }
                    i += 1;
                }
                proof {
                    lemma_lookup_entries_skip(views, key@, n as int);
                    assert(views.skip(n as int) =~= Seq::empty());
                }
                None
            },
            _ => None,
        }
    }
}

/// A deep copy of each element of an array.
fn clone_json_vec(items: &Vec<Json>) -> (res: Vec<Json>)
    ensures
        arr_views(res@) == arr_views(items@),
    decreases items,
{
    let mut out: Vec<Json> = Vec::new();
    let n = items.len();
    let mut i: usize = 0;
    while i < n
        invariant
            i <= n,
            n == items@.len(),
            out@.len() == i,
            forall|j: int| 0 <= j < i ==> json_view(#[trigger] out@[j]) == json_view(items@[j]),
        decreases n - i,
    {
        let c = items[i].clone();
        out.push(c);
        i += 1;
    }
    proof {
        lemma_arr_views(out@);
        lemma_arr_views(items@);
        assert(arr_views(out@) =~= arr_views(items@));
    }
    out
}

/// A deep copy of each entry of an object.
fn clone_json_entries(entries: &Vec<(String, Json)>) -> (res: Vec<(String, Json)>)
    ensures
        obj_views(res@) == obj_views(entries@),
    decreases entries,
{
    let mut out: Vec<(String, Json)> = Vec::new();
    let n = entries.len();
    let mut i: usize = 0;
    while i < n
        invariant
            i <= n,
            n == entries@.len(),
            out@.len() == i,
            forall|j: int| 0 <= j < i ==> (#[trigger] out@[j]).0@ == entries@[j].0@
                && json_view(out@[j].1) == json_view(entries@[j].1),
        decreases n - i,
    {
        let key = entries[i].0.clone();
        let value = entries[i].1.clone();
        out.push((key, value));
        i += 1;
    }
    proof {
        lemma_obj_views(out@);
        lemma_obj_views(entries@);
        assert(obj_views(out@) =~= obj_views(entries@));
    }
    out
}

impl Clone for Json {
    /// A deep copy: the clone has the same mathematical shape as the source.
    fn clone(&self) -> (res: Self)
        ensures
            json_view(res) == json_view(*self),
        decreases self,
    {
        match self {
            Json::Null => Json::Null,
            Json::Bool(b) => Json::Bool(*b),
            Json::Int(i) => Json::Int(*i),
            Json::Num(s) => Json::Num(s.clone()),
            Json::Str(s) => Json::Str(s.clone()),
            Json::Arr(items) => Json::Arr(clone_json_vec(items)),
            Json::Obj(entries) => Json::Obj(clone_json_entries(entries)),
        }
    }
}

} // verus!
