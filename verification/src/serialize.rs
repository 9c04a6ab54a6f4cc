//! Serialization of handler results back to the wire's JSON representation.

use vstd::prelude::*;

use crate::value::{JsonVal, Value};

verus! {

/// A type a handler may return: it has one JSON representation.
pub trait IntoJson: View + Sized {
    /// The document a value of this type is written as.
    spec fn spec_to_json(t: Self::V) -> JsonVal;

    fn to_json(self) -> (r: Value)
        ensures
            r@ == Self::spec_to_json(self@),
    ;
}

impl IntoJson for Value {
    open spec fn spec_to_json(t: JsonVal) -> JsonVal {
        t
    }

    fn to_json(self) -> (r: Value) {
        self
    }
}

impl IntoJson for bool {
    open spec fn spec_to_json(t: bool) -> JsonVal {
        JsonVal::Bool(t)
    }

    fn to_json(self) -> (r: Value) {
        Value::Bool(self)
    }
}

impl IntoJson for i64 {
    open spec fn spec_to_json(t: i64) -> JsonVal {
        JsonVal::Int(t as int)
    }

    fn to_json(self) -> (r: Value) {
        Value::Int(self)
    }
}

impl IntoJson for String {
    open spec fn spec_to_json(t: Seq<char>) -> JsonVal {
        JsonVal::Text(t)
    }

    fn to_json(self) -> (r: Value) {
        Value::Text(self)
    }
}

impl<T: IntoJson> IntoJson for Vec<T> {
    open spec fn spec_to_json(t: Seq<T>) -> JsonVal {
        JsonVal::Arr(
            Seq::new(
                t.len(),
                |i: int| if 0 <= i < t.len() {
                    T::spec_to_json(t[i]@)
                } else {
                    JsonVal::Null
                },
            ),
        )
    }

    fn to_json(self) -> (r: Value) {
        broadcast use crate::value::lemma_seq_view;

        let ghost full = self@;
        let mut items = self;
        let mut out: Vec<Value> = Vec::new();
        let n = items.len();
        let mut i: usize = 0;
        while i < n
            invariant
                i <= n,
                n == full.len(),
                items@ == full.skip(i as int),
                out@.len() == i,
                forall|j: int| 0 <= j < i ==> out@[j]@ == T::spec_to_json(full[j]@),
            decreases n - i,
        {
            proof {
                assert(full.skip(i as int)[0] == full[i as int]);
                assert(full.skip(i as int).remove(0) =~= full.skip(i as int + 1));
            }
            let item = items.remove(0);
            out.push(item.to_json());
            i = i + 1;
        }
        let r = Value::Arr(out);
        proof {
            assert(crate::value::seq_view(out@) =~= Self::spec_to_json(full)->Arr_0);
        }
        r
    }
}

} // verus!
