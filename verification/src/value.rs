//! The JSON value carried through the dispatch core, and its mathematical
//! model.
//!
//! A request's params, a handler's result and the response envelope are all
//! values of this type. Contracts speak about `JsonVal`, the model reached
//! through `@`.

use vstd::prelude::*;

verus! {

/// Mathematical model of a JSON document.
pub enum JsonVal {
    Null,
    Bool(bool),
    Int(int),
    Text(Seq<char>),
    Arr(Seq<JsonVal>),
    Obj(Seq<(Seq<char>, JsonVal)>),
}

/// A JSON value: the wire currency of the dispatch core.
///
/// Numbers are modelled as signed integers; the surrounding transport maps
/// any other number shape before the core sees it.
#[derive(Debug)]
pub enum Value {
    Null,
    Bool(bool),
    Int(i64),
    Text(String),
    Arr(Vec<Value>),
    Obj(Vec<(String, Value)>),
}

/// Model of a sequence of values, element by element.
pub open spec fn seq_view(s: Seq<Value>) -> Seq<JsonVal>
    decreases s,
{
    Seq::new(s.len(), |i: int| if 0 <= i < s.len() { s[i]@ } else { JsonVal::Null })
}

/// Model of the field list of a JSON object, entry by entry.
pub open spec fn entries_view(s: Seq<(String, Value)>) -> Seq<(Seq<char>, JsonVal)>
    decreases s,
{
    Seq::new(
        s.len(),
        |i: int| if 0 <= i < s.len() {
            (s[i].0@, s[i].1@)
        } else {
            (Seq::<char>::empty(), JsonVal::Null)
        },
    )
}

impl View for Value {
    type V = JsonVal;

    open spec fn view(&self) -> JsonVal
        decreases self,
    {
        match self {
            Value::Null => JsonVal::Null,
            Value::Bool(b) => JsonVal::Bool(*b),
            Value::Int(i) => JsonVal::Int(*i as int),
            Value::Text(s) => JsonVal::Text(s@),
            Value::Arr(items) => JsonVal::Arr(seq_view(items@)),
            Value::Obj(entries) => JsonVal::Obj(entries_view(entries@)),
        }
    }
}

pub broadcast proof fn lemma_seq_view(s: Seq<Value>)
    ensures
        (#[trigger] seq_view(s)).len() == s.len(),
        forall|i: int| 0 <= i < s.len() ==> seq_view(s)[i] == s[i]@,
{
}

pub broadcast proof fn lemma_entries_view(s: Seq<(String, Value)>)
    ensures
        (#[trigger] entries_view(s)).len() == s.len(),
        forall|i: int| 0 <= i < s.len() ==> entries_view(s)[i] == (s[i].0@, s[i].1@),
{
}

/// First entry of an object's field list with the given key, if any.
pub open spec fn spec_obj_get(entries: Seq<(Seq<char>, JsonVal)>, key: Seq<char>) -> Option<JsonVal>
    decreases entries.len(),
{
    if entries.len() == 0 {
        None
    } else if entries.first().0 == key {
        Some(entries.first().1)
    } else {
        spec_obj_get(entries.drop_first(), key)
    }
}

/// Field lookup on the model of a value: a field of a JSON object, or nothing.
pub open spec fn spec_get(v: JsonVal, key: Seq<char>) -> Option<JsonVal> {
    match v {
        JsonVal::Obj(entries) => spec_obj_get(entries, key),
        _ => None,
    }
}

impl Value {
    /// Looks up the first field with the given name; `None` on any value that
    /// is not an object with such a field.
    pub fn get<'a>(&'a self, key: &str) -> (r: Option<&'a Value>)
        ensures
            match spec_get(self@, key@) {
                Some(v) => r matches Some(x) && x@ == v,
                None => r is None,
            },
    {
        broadcast use lemma_entries_view;

        match self {
            Value::Obj(entries) => {
                let needle = String::from_str(key);
                let n = entries.len();
                let mut i: usize = 0;
                proof {
                    assert(entries_view(entries@).skip(0) =~= entries_view(entries@));
                }
                while i < n
                    invariant
                        i <= n,
                        n == entries@.len(),
                        needle@ == key@,
                        self@ == JsonVal::Obj(entries_view(entries@)),
                        spec_obj_get(entries_view(entries@), key@) == spec_obj_get(
                            entries_view(entries@).skip(i as int),
                            key@,
                        ),
                    decreases n - i,
                {
                    let entry = &entries[i];
                    proof {
                        let es = entries_view(entries@);
                        assert(es.skip(i as int).first() == es[i as int]);
                        assert(es.skip(i as int).drop_first() =~= es.skip(i as int + 1));
                    }
                    if entry.0 == needle {
                        return Some(&entry.1);
                    }
                    i = i + 1;
                }
                proof {
                    assert(entries_view(entries@).skip(n as int) =~= Seq::<
                        (Seq<char>, JsonVal),
                    >::empty());
                }
                None
            },
            _ => None,
        }
    }
}

impl Clone for Value {
    /// A clone denotes the same JSON document as the original.
    fn clone(&self) -> (res: Self)
        ensures
            res@ == self@,
        decreases self,
    {
        broadcast use lemma_seq_view, lemma_entries_view;

        match self {
            Value::Null => Value::Null,
            Value::Bool(b) => Value::Bool(*b),
            Value::Int(i) => Value::Int(*i),
            Value::Text(s) => Value::Text(s.clone()),
            Value::Arr(items) => {
                let n = items.len();
                let mut out: Vec<Value> = Vec::new();
                let mut i: usize = 0;
                while i < n
                    invariant
                        i <= n,
                        n == items@.len(),
                        *self == Value::Arr(*items),
                        out@.len() == i,
                        forall|j: int| 0 <= j < i ==> out@[j]@ == items@[j]@,
                    decreases n - i,
                {
                    proof {
                        assert(decreases_to!(*self => self->Arr_0));
                        assert(self->Arr_0 == *items);
                        assert(decreases_to!(*items => items@));
                        assert(decreases_to!(items@ => items@[i as int]));
                        assert(decreases_to!(self => items@[i as int]));
                    }
                    out.push(items[i].clone());
                    i = i + 1;
                }
                let res = Value::Arr(out);
                proof {
                    assert(seq_view(out@) =~= seq_view(items@));
                }
                res
            },
            Value::Obj(entries) => {
                let n = entries.len();
                let mut out: Vec<(String, Value)> = Vec::new();
                let mut i: usize = 0;
                while i < n
                    invariant
                        i <= n,
                        n == entries@.len(),
                        *self == Value::Obj(*entries),
                        out@.len() == i,
                        forall|j: int|
                            0 <= j < i ==> out@[j].0@ == entries@[j].0@ && out@[j].1@
                                == entries@[j].1@,
                    decreases n - i,
                {
                    let entry = &entries[i];
                    proof {
                        assert(decreases_to!(*self => self->Obj_0));
                        assert(self->Obj_0 == *entries);
                        assert(decreases_to!(*entries => entries@));
                        assert(decreases_to!(entries@ => entries@[i as int]));
                        assert(decreases_to!(entries@[i as int] => entries@[i as int].1));
                        assert(decreases_to!(self => entries@[i as int].1));
                    }
                    out.push((entry.0.clone(), entry.1.clone()));
                    i = i + 1;
                }
                let res = Value::Obj(out);
                proof {
                    assert(entries_view(out@) =~= entries_view(entries@));
                }
                res
            },
        }
    }
}

} // verus!
