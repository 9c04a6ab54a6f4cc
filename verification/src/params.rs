//! Parameter binding: from an optional JSON payload to a handler's typed
//! parameter value.
//!
//! Two policies exist, chosen by the parameter type itself: a type binding
//! through [`IntoParams`] alone requires a payload; one that also opts into
//! [`IntoDefaultParams`] binds its default value when the payload is absent.
//! Exactly one policy applies per type.

use vstd::prelude::*;

use crate::error::ParseError;
use crate::ident::{parse_uuid, uuid_of};
use crate::order_by::{parse_list_options, spec_list_options_of, ListOptions, ListOptionsV};
use crate::value::{spec_get, JsonVal, Value};

verus! {

/// A type readable from one JSON value.
pub trait FromJson: View + Sized {
    /// Which documents this type accepts, and what they denote.
    spec fn spec_from_json(v: JsonVal) -> Option<Self::V>;

    fn from_json(v: &Value) -> (r: Result<Self, ParseError>)
        ensures
            match Self::spec_from_json(v@) {
                Some(t) => r matches Ok(x) && x@ == t,
                None => r is Err,
            },
    ;
}

/// Why a payload did not bind.
#[derive(Debug)]
pub enum ParamsFailure {
    /// The parameter type requires a payload and none was given.
    Missing,
    /// A payload was given and does not match the expected shape.
    Shape(ParseError),
}

/// A handler's parameter type: what a payload binds to, and what an absent
/// payload means.
pub trait IntoParams: View + Sized {
    /// Which payloads bind, and what they denote.
    spec fn spec_parse(v: JsonVal) -> Option<Self::V>;

    /// What an absent payload binds to: a value, or nothing for the
    /// required-payload policy.
    spec fn spec_absent() -> Option<Self::V>;

    fn into_params(value: Option<Value>) -> (r: Result<Self, ParamsFailure>)
        ensures
            match value {
                Some(v) => match Self::spec_parse(v@) {
                    Some(t) => r matches Ok(x) && x@ == t,
                    None => r matches Err(f) && f is Shape,
                },
                None => match Self::spec_absent() {
                    Some(t) => r matches Ok(x) && x@ == t,
                    None => r matches Err(f) && f is Missing,
                },
            },
    ;
}

/// The default-on-absent binding policy: a parameter type with a default
/// value, bound in place of a missing payload.
pub trait IntoDefaultParams: View + Sized {
    /// Which payloads bind, and what they denote.
    spec fn spec_parse_present(v: JsonVal) -> Option<Self::V>;

    /// What an absent payload binds to.
    spec fn spec_default() -> Self::V;

    fn parse_present(v: &Value) -> (r: Result<Self, ParseError>)
        ensures
            match Self::spec_parse_present(v@) {
                Some(t) => r matches Ok(x) && x@ == t,
                None => r is Err,
            },
    ;

    fn default_params() -> (r: Self)
        ensures
            r@ == Self::spec_default(),
    ;
}

impl<P: IntoDefaultParams> IntoParams for P {
    open spec fn spec_parse(v: JsonVal) -> Option<Self::V> {
        P::spec_parse_present(v)
    }

    open spec fn spec_absent() -> Option<Self::V> {
        Some(P::spec_default())
    }

    fn into_params(value: Option<Value>) -> (r: Result<Self, ParamsFailure>) {
        match value {
            Some(v) => match P::parse_present(&v) {
                Ok(x) => Ok(x),
                Err(e) => Err(ParamsFailure::Shape(e)),
            },
            None => Ok(P::default_params()),
        }
    }
}

/// The denotations of the elements of a value sequence, if every element is
/// readable as an `F`.
pub open spec fn spec_all_from_json<F: FromJson>(items: Seq<JsonVal>) -> Option<Seq<F::V>>
    decreases items.len(),
{
    if items.len() == 0 {
        Some(Seq::empty())
    } else {
        match F::spec_from_json(items.first()) {
            Some(t) => match spec_all_from_json::<F>(items.drop_first()) {
                Some(rest) => Some(seq![t] + rest),
                None => None,
            },
            None => None,
        }
    }
}

/// What a one-or-many field denotes: an array reads element by element, and
/// a bare value reads as the one-element sequence.
pub open spec fn spec_one_or_many<F: FromJson>(v: JsonVal) -> Option<Seq<F::V>> {
    match v {
        JsonVal::Arr(items) => spec_all_from_json::<F>(items),
        _ => match F::spec_from_json(v) {
            Some(t) => Some(seq![t]),
            None => None,
        },
    }
}

/// A bare value and the one-element array holding it bind to the same
/// sequence.
pub proof fn lemma_one_or_many_normalizes<F: FromJson>(v: JsonVal)
    requires
        !(v is Arr),
    ensures
        spec_one_or_many::<F>(JsonVal::Arr(seq![v])) == spec_one_or_many::<F>(v),
{
    let items = seq![v];
    assert(items.first() == v);
    assert(items.drop_first() =~= Seq::<JsonVal>::empty());
    assert(spec_all_from_json::<F>(items.drop_first()) == Some(Seq::<F::V>::empty()));
    match F::spec_from_json(v) {
        Some(t) => {
            assert(seq![t] + Seq::<F::V>::empty() =~= seq![t]);
            assert(spec_all_from_json::<F>(items) == Some(seq![t]));
        },
        None => {
            assert(spec_all_from_json::<F>(items) is None);
        },
    }
}

/// The denotations of a sequence of typed values.
pub open spec fn vec_deep_v<F: View>(fs: Seq<F>) -> Seq<F::V> {
    Seq::new(fs.len(), |i: int| fs[i]@)
}

/// Reads a one-or-many field.
pub fn parse_one_or_many<F: FromJson>(v: &Value) -> (r: Result<Vec<F>, ParseError>)
    ensures
        match spec_one_or_many::<F>(v@) {
            Some(ts) => r matches Ok(fs) && vec_deep_v(fs@) == ts,
            None => r is Err,
        },
{
    broadcast use crate::value::lemma_seq_view;

    match v {
        Value::Arr(items) => {
            let ghost full = crate::value::seq_view(items@);
            proof {
                assert(v@ == JsonVal::Arr(full));
            }
            let n = items.len();
            let mut out: Vec<F> = Vec::new();
            let mut i: usize = 0;
            proof {
                assert(full.skip(0) =~= full);
            }
            while i < n
                invariant
                    i <= n,
                    n == items@.len(),
                    full == crate::value::seq_view(items@),
                    v@ == JsonVal::Arr(full),
                    out@.len() == i,
                    match spec_all_from_json::<F>(full.skip(i as int)) {
                        Some(rest) => spec_all_from_json::<F>(full) == Some(
                            vec_deep_v(out@) + rest,
                        ),
                        None => spec_all_from_json::<F>(full) is None,
                    },
                decreases n - i,
            {
                proof {
                    assert(full.skip(i as int).first() == full[i as int]);
                    assert(full.skip(i as int).drop_first() =~= full.skip(i as int + 1));
                    assert(full[i as int] == items@[i as int]@);
                }
                let ghost pre = out@;
                match F::from_json(&items[i]) {
                    Ok(f) => {
                        out.push(f);
                        proof {
                            match spec_all_from_json::<F>(full.skip(i as int + 1)) {
                                Some(rest) => {
                                    assert(vec_deep_v(pre) + (seq![f@] + rest) =~= vec_deep_v(out@)
                                        + rest);
                                },
                                None => {},
                            }
                        }
                    },
                    Err(e) => {
                        proof {
                            assert(spec_all_from_json::<F>(full.skip(i as int)) is None);
                        }
                        return Err(e);
                    },
                }
                i = i + 1;
            }
            proof {
                assert(full.skip(n as int) =~= Seq::<JsonVal>::empty());
                assert(vec_deep_v(out@) + Seq::<F::V>::empty() =~= vec_deep_v(out@));
            }
            Ok(out)
        },
        _ => {
            match F::from_json(v) {
                Ok(f) => {
                    let mut out: Vec<F> = Vec::new();
                    out.push(f);
                    proof {
                        assert(vec_deep_v(out@) =~= seq![f@]);
                    }
                    Ok(out)
                },
                Err(e) => Err(e),
            }
        },
    }
}

/// The payload of a create call: `{ "data": ... }`.
pub struct ParamsForCreate<D> {
    pub data: D,
}

impl<D: View> View for ParamsForCreate<D> {
    type V = D::V;

    open spec fn view(&self) -> D::V {
        self.data@
    }
}

impl<D: FromJson> IntoParams for ParamsForCreate<D> {
    open spec fn spec_parse(v: JsonVal) -> Option<Self::V> {
        match spec_get(v, "data"@) {
            Some(d) => D::spec_from_json(d),
            None => None,
        }
    }

    open spec fn spec_absent() -> Option<Self::V> {
        None
    }

    fn into_params(value: Option<Value>) -> (r: Result<Self, ParamsFailure>) {
        let v = match value {
            Some(v) => v,
            None => {
                return Err(ParamsFailure::Missing);
            },
        };
        match v.get("data") {
            Some(d) => match D::from_json(d) {
                Ok(data) => Ok(ParamsForCreate { data }),
                Err(e) => Err(ParamsFailure::Shape(e)),
            },
            None => Err(ParamsFailure::Shape(ParseError::MissingField(String::from_str("data")))),
        }
    }
}

/// The payload of an update call: `{ "id": ..., "data": ... }`.
pub struct ParamsForUpdate<D> {
    pub id: u128,
    pub data: D,
}

impl<D: View> View for ParamsForUpdate<D> {
    type V = (u128, D::V);

    open spec fn view(&self) -> (u128, D::V) {
        (self.id, self.data@)
    }
}

impl<D: FromJson> IntoParams for ParamsForUpdate<D> {
    open spec fn spec_parse(v: JsonVal) -> Option<Self::V> {
        match (spec_get(v, "id"@), spec_get(v, "data"@)) {
            (Some(JsonVal::Text(s)), Some(d)) => match (uuid_of(s), D::spec_from_json(d)) {
                (Some(id), Some(t)) => Some((id, t)),
                _ => None,
            },
            _ => None,
        }
    }

    open spec fn spec_absent() -> Option<Self::V> {
        None
    }

    fn into_params(value: Option<Value>) -> (r: Result<Self, ParamsFailure>) {
        let v = match value {
            Some(v) => v,
            None => {
                return Err(ParamsFailure::Missing);
            },
        };
        let id: u128 = match take_ident(&v, "id") {
            Ok(id) => id,
            Err(e) => {
                return Err(ParamsFailure::Shape(e));
            },
        };
        match v.get("data") {
            Some(d) => match D::from_json(d) {
                Ok(data) => Ok(ParamsForUpdate { id, data }),
                Err(e) => Err(ParamsFailure::Shape(e)),
            },
            None => Err(ParamsFailure::Shape(ParseError::MissingField(String::from_str("data")))),
        }
    }
}

/// The payload of a call that names one entity: `{ "id": ... }`.
pub struct ParamsIded {
    pub id: u128,
}

impl View for ParamsIded {
    type V = u128;

    open spec fn view(&self) -> u128 {
        self.id
    }
}

impl IntoParams for ParamsIded {
    open spec fn spec_parse(v: JsonVal) -> Option<u128> {
        match spec_get(v, "id"@) {
            Some(JsonVal::Text(s)) => uuid_of(s),
            _ => None,
        }
    }

    open spec fn spec_absent() -> Option<u128> {
        None
    }

    fn into_params(value: Option<Value>) -> (r: Result<Self, ParamsFailure>) {
        let v = match value {
            Some(v) => v,
            None => {
                return Err(ParamsFailure::Missing);
            },
        };
        match take_ident(&v, "id") {
            Ok(id) => Ok(ParamsIded { id }),
            Err(e) => Err(ParamsFailure::Shape(e)),
        }
    }
}

/// Reads a field holding an identifier in its textual form.
pub fn take_ident(v: &Value, key: &str) -> (r: Result<u128, ParseError>)
    ensures
        match spec_get(v@, key@) {
            Some(JsonVal::Text(s)) => match uuid_of(s) {
                Some(id) => r matches Ok(x) && x == id,
                None => r is Err,
            },
            _ => r is Err,
        },
{
    match v.get(key) {
        Some(f) => match f {
            Value::Text(s) => match parse_uuid(s.as_str()) {
                Some(id) => Ok(id),
                None => Err(ParseError::InvalidIdent(s.clone())),
            },
            _ => Err(ParseError::ExpectedText),
        },
        None => Err(ParseError::MissingField(String::from_str(key))),
    }
}

/// The payload of a list call: optional filters (one or many) and optional
/// list options. An absent payload binds to the default: no filters, no
/// options.
pub struct ParamsList<F> {
    pub filters: Option<Vec<F>>,
    pub list_options: Option<ListOptions>,
}

/// Model of a [`ParamsList`].
pub struct ParamsListV<FV> {
    pub filters: Option<Seq<FV>>,
    pub list_options: Option<ListOptionsV>,
}

impl<F: View> View for ParamsList<F> {
    type V = ParamsListV<F::V>;

    open spec fn view(&self) -> ParamsListV<F::V> {
        ParamsListV {
            filters: match self.filters {
                Some(fs) => Some(vec_deep_v(fs@)),
                None => None,
            },
            list_options: match self.list_options {
                Some(o) => Some(o@),
                None => None,
            },
        }
    }
}

impl<F: FromJson> IntoDefaultParams for ParamsList<F> {
    open spec fn spec_parse_present(v: JsonVal) -> Option<Self::V> {
        if !(v is Obj) {
            None
        } else {
            let filters = match spec_get(v, "filters"@) {
                Some(fv) => match spec_one_or_many::<F>(fv) {
                    Some(ts) => Some(Some(ts)),
                    None => None,
                },
                None => Some(None),
            };
            let list_options = match spec_get(v, "list_options"@) {
                Some(lv) => match spec_list_options_of(lv) {
                    Some(o) => Some(Some(o)),
                    None => None,
                },
                None => Some(None),
            };
            match (filters, list_options) {
                (Some(filters), Some(list_options)) => Some(ParamsListV { filters, list_options }),
                _ => None,
            }
        }
    }

    open spec fn spec_default() -> Self::V {
        ParamsListV { filters: None, list_options: None }
    }

    fn parse_present(v: &Value) -> (r: Result<Self, ParseError>) {
        match v {
            Value::Obj(_) => {},
            _ => {
                return Err(ParseError::ExpectedObject);
            },
        }
        let filters: Option<Vec<F>> = match v.get("filters") {
            Some(fv) => match parse_one_or_many::<F>(fv) {
                Ok(fs) => Some(fs),
                Err(e) => {
                    return Err(e);
                },
            },
            None => None,
        };
        let list_options: Option<ListOptions> = match v.get("list_options") {
            Some(lv) => match parse_list_options(lv) {
                Ok(o) => Some(o),
                Err(e) => {
                    return Err(e);
                },
            },
            None => None,
        };
        Ok(ParamsList { filters, list_options })
    }

    fn default_params() -> (r: Self) {
        ParamsList { filters: None, list_options: None }
    }
}

} // verus!
