//! The JSON value model that the hub's logic works on.
//!
//! Wire text is decoded into this tree by the host program before it reaches
//! the library; numbers are carried as their decimal text so that a tree
//! round-trips without loss and without floating point.

use vstd::prelude::*;

verus! {

broadcast use vstd::std_specs::vec::group_vec_axioms;

/// Ghost mirror of [`Json`]: the shape of a JSON value with every string
/// replaced by its character sequence.  Contracts speak of this form.
#[verifier::ext_equal]
pub enum JsonV {
    Null,
    Bool(bool),
    Num(Seq<char>),
    Text(Seq<char>),
    Arr(Seq<JsonV>),
    Obj(Seq<(Seq<char>, JsonV)>),
}

/// A JSON value as the logic holds it: object fields keep their order, and a
/// number keeps its decimal text.
#[derive(Debug, PartialEq, Eq)]
pub enum Json {
    Null,
    Bool(bool),
    Num(String),
    Text(String),
    Arr(Vec<Json>),
    Obj(Vec<(String, Json)>),
}

/// The ghost form of an array's item list.
pub open spec fn arr_model(items: Seq<Json>) -> Seq<JsonV>
    decreases items,
{
    Seq::new(
        items.len(),
        |i: int|
            if 0 <= i < items.len() {
                items[i]@
            } else {
                JsonV::Null
            },
    )
}

/// The ghost form of an object's field list.
pub open spec fn obj_model(entries: Seq<(String, Json)>) -> Seq<(Seq<char>, JsonV)>
    decreases entries,
{
    Seq::new(
        entries.len(),
        |i: int|
            if 0 <= i < entries.len() {
                (entries[i].0@, entries[i].1@)
            } else {
                (Seq::<char>::empty(), JsonV::Null)
            },
    )
}

impl View for Json {
    type V = JsonV;

    open spec fn view(&self) -> JsonV
        decreases self,
    {
        match self {
            Json::Null => JsonV::Null,
            Json::Bool(b) => JsonV::Bool(*b),
            Json::Num(s) => JsonV::Num(s@),
            Json::Text(s) => JsonV::Text(s@),
            Json::Arr(items) => JsonV::Arr(arr_model(items@)),
            Json::Obj(entries) => JsonV::Obj(obj_model(entries@)),
        }
    }
}

/// The value of the first field named `key` among `entries`, if any.
pub open spec fn spec_lookup(entries: Seq<(Seq<char>, JsonV)>, key: Seq<char>) -> Option<JsonV>
    decreases entries.len(),
{
    if entries.len() == 0 {
        None
    } else if entries[0].0 == key {
        Some(entries[0].1)
    } else {
        spec_lookup(entries.drop_first(), key)
    }
}

/// The value of field `key` of `j`, where `j` is an object that has it.
pub open spec fn spec_field(j: JsonV, key: Seq<char>) -> Option<JsonV> {
    match j {
        JsonV::Obj(entries) => spec_lookup(entries, key),
        _ => None,
    }
}

impl Clone for Json {
    /// A deep copy; the ghost form is kept exactly.
    #[verifier::loop_isolation(false)]
    fn clone(&self) -> (r: Json)
        ensures
            r@ == self@,
        decreases *self,
    {
        match self {
            Json::Null => Json::Null,
            Json::Bool(b) => Json::Bool(*b),
            Json::Num(s) => Json::Num(s.clone()),
            Json::Text(s) => Json::Text(s.clone()),
            Json::Arr(items) => {
                let mut out: Vec<Json> = Vec::new();
                let n = items.len();
                let mut i: usize = 0;
                while i < n
                    invariant
                        n == items@.len(),
                        i <= n,
                        out@.len() == i as int,
                        forall|k: int| 0 <= k < i ==> out@[k]@ == arr_model(items@)[k],
                    decreases n - i,
                {
                    let item = &items[i];
                    proof {
                        assert(decreases_to!(*self => (*self)->Arr_0));
                        assert(decreases_to!(*items => items@));
                        assert(decreases_to!(items@ => items@[i as int]));
                    }
                    out.push(item.clone());
                    i = i + 1;
                }
                proof {
                    assert(arr_model(out@) =~= arr_model(items@));
                }
                Json::Arr(out)
            }
            Json::Obj(entries) => {
                let mut out: Vec<(String, Json)> = Vec::new();
                let n = entries.len();
                let mut i: usize = 0;
                while i < n
                    invariant
                        n == entries@.len(),
                        i <= n,
                        out@.len() == i as int,
                        forall|k: int| 0 <= k < i ==> out@[k].0@ == entries@[k].0@
                            && out@[k].1@ == entries@[k].1@,
                    decreases n - i,
                {
                    let entry = &entries[i];
                    proof {
                        assert(decreases_to!(*self => (*self)->Obj_0));
                        assert(decreases_to!(*entries => entries@));
                        assert(decreases_to!(entries@ => entries@[i as int]));
                        assert(decreases_to!(entries@[i as int] => entries@[i as int].1));
                    }
                    out.push((entry.0.clone(), entry.1.clone()));
                    i = i + 1;
                }
                proof {
                    assert(obj_model(out@) =~= obj_model(entries@));
                }
                Json::Obj(out)
            }
        }
    }
}

impl Json {
    /// The carried text, if this value is a string.
    pub fn as_text<'a>(&'a self) -> (r: Option<&'a String>)
        ensures
            match r {
                Some(s) => self@ == JsonV::Text(s@),
                None => !(self@ matches JsonV::Text(_)),
            },
    {
        match self {
            Json::Text(s) => Some(s),
            _ => None,
        }
    }

    /// The field named `key`, if this value is an object carrying one.
    pub fn get<'a>(&'a self, key: &String) -> (r: Option<&'a Json>)
        ensures
            match r {
                Some(v) => spec_field(self@, key@) == Some(v@),
                None => spec_field(self@, key@) is None,
            },
    {
        match self {
            Json::Obj(entries) => {
                let ghost m = obj_model(entries@);
                proof {
                    assert(m.skip(0) =~= m);
                }
                let n = entries.len();
                let mut i: usize = 0;
                while i < n
                    invariant
                        n == entries@.len(),
                        i <= n,
                        m == obj_model(entries@),
                        self@ == JsonV::Obj(m),
                        spec_lookup(m, key@) == spec_lookup(m.skip(i as int), key@),
                    decreases n - i,
                {
                    let entry = &entries[i];
                    if entry.0 == *key {
                        proof {
                            assert(m.skip(i as int)[0] == m[i as int]);
                        }
                        return Some(&entry.1);
                    }
                    proof {
                        assert(m.skip(i as int)[0] == m[i as int]);
                        assert(m.skip(i as int).drop_first() =~= m.skip(i as int + 1));
                    }
                    i = i + 1;
                }
                None
            }
            _ => None,
        }
    }
}

} // verus!
