//! List options of list-style methods: ordering, offset and limit.
//!
//! An ordering term is written as a column name, with a leading `!` for a
//! descending order. The `order_bys` field of a payload accepts one term or
//! an array of terms; both bind to the same sequence.

use vstd::prelude::*;
use vstd::string::StrSliceExecFns;

use crate::error::{HandlerError, HandlerErrorV, ParseError};
use crate::value::{spec_get, JsonVal, Value};

verus! {

/// Largest limit a caller may ask for.
pub const LIST_LIMIT_MAX: i64 = 5000;

/// Limit applied when a caller asks for none.
pub const LIST_LIMIT_DEFAULT: i64 = 1000;

/// One ordering term: a column, ascending or descending.
#[derive(Debug)]
pub enum OrderBy {
    Asc(String),
    Desc(String),
}

/// Model of an [`OrderBy`].
pub enum OrderByV {
    Asc(Seq<char>),
    Desc(Seq<char>),
}

impl View for OrderBy {
    type V = OrderByV;

    open spec fn view(&self) -> OrderByV {
        match self {
            OrderBy::Asc(c) => OrderByV::Asc(c@),
            OrderBy::Desc(c) => OrderByV::Desc(c@),
        }
    }
}

impl OrderBy {
    /// The term a text denotes: descending when it starts with `!`.
    pub open spec fn spec_of_text(s: Seq<char>) -> OrderByV {
        if s.len() > 0 && s[0] == '!' {
            OrderByV::Desc(s.subrange(1, s.len() as int))
        } else {
            OrderByV::Asc(s)
        }
    }

    /// Reads one ordering term from its text.
    pub fn from_text(s: &str) -> (r: Self)
        ensures
            r@ == Self::spec_of_text(s@),
    {
        let n = s.unicode_len();
        if n > 0 && s.get_char(0) == '!' {
            OrderBy::Desc(String::from_str(s.substring_char(1, n)))
        } else {
            OrderBy::Asc(String::from_str(s))
        }
    }

    /// The column and direction of the term, direction as a descending flag.
    pub fn into_col_order(self) -> (r: (String, bool))
        ensures
            self@ matches OrderByV::Asc(c) ==> r.0@ == c && r.1 == false,
            self@ matches OrderByV::Desc(c) ==> r.0@ == c && r.1 == true,
    {
        match self {
            OrderBy::Asc(col) => (col, false),
            OrderBy::Desc(col) => (col, true),
        }
    }
}

/// The ordering terms of one list call, in the order they apply.
#[derive(Debug)]
pub struct OrderBys(Vec<OrderBy>);

impl View for OrderBys {
    type V = Seq<OrderByV>;

    closed spec fn view(&self) -> Seq<OrderByV> {
        Seq::new(self.0@.len(), |i: int| self.0@[i]@)
    }
}

impl OrderBys {
    pub fn new(v: Vec<OrderBy>) -> (r: Self)
        ensures
            r@.len() == v@.len(),
            forall|i: int| 0 <= i < v@.len() ==> r@[i] == v@[i]@,
    {
        OrderBys(v)
    }

    pub fn order_bys(self) -> (r: Vec<OrderBy>)
        ensures
            r@.len() == self@.len(),
            forall|i: int| 0 <= i < r@.len() ==> r@[i]@ == self@[i],
    {
        self.0
    }
}

/// The terms an array of texts denotes, or nothing if an element is not a
/// text.
pub open spec fn spec_order_bys_all(items: Seq<JsonVal>) -> Option<Seq<OrderByV>>
    decreases items.len(),
{
    if items.len() == 0 {
        Some(Seq::empty())
    } else {
        match items.first() {
            JsonVal::Text(s) => match spec_order_bys_all(items.drop_first()) {
                Some(rest) => Some(seq![OrderBy::spec_of_text(s)] + rest),
                None => None,
            },
            _ => None,
        }
    }
}

/// The terms an `order_bys` field denotes: one text, or an array of texts.
pub open spec fn spec_order_bys_of(v: JsonVal) -> Option<Seq<OrderByV>> {
    match v {
        JsonVal::Text(s) => Some(seq![OrderBy::spec_of_text(s)]),
        JsonVal::Arr(items) => spec_order_bys_all(items),
        _ => None,
    }
}

/// Reads the `order_bys` field of a payload: a bare text and the array
/// holding that one text bind to the same sequence of terms.
pub fn parse_order_bys(v: Value) -> (r: Result<OrderBys, ParseError>)
    ensures
        match spec_order_bys_of(v@) {
            Some(terms) => r matches Ok(o) && o@ == terms,
            None => r is Err,
        },
{
    broadcast use crate::value::lemma_seq_view;

    match v {
        Value::Text(s) => {
            let one = OrderBy::from_text(s.as_str());
            let mut terms: Vec<OrderBy> = Vec::new();
            terms.push(one);
            let r = OrderBys::new(terms);
            proof {
                assert(r@ =~= seq![OrderBy::spec_of_text(s@)]);
            }
            Ok(r)
        },
        Value::Arr(items) => {
            let ghost full = crate::value::seq_view(items@);
            proof {
                assert(v@ == JsonVal::Arr(full));
            }
            let n = items.len();
            let mut terms: Vec<OrderBy> = Vec::new();
            let mut i: usize = 0;
            proof {
                assert(full.skip(0) =~= full);
            }
            while i < n
                invariant
                    i <= n,
                    n == items@.len(),
                    full == crate::value::seq_view(items@),
                    v@ == JsonVal::Arr(full),
                    terms@.len() == i,
                    match spec_order_bys_all(full.skip(i as int)) {
                        Some(rest) => spec_order_bys_all(full) == Some(
                            Seq::new(terms@.len(), |j: int| terms@[j]@) + rest,
                        ),
                        None => spec_order_bys_all(full) is None,
                    },
                decreases n - i,
            {
                proof {
                    assert(full.skip(i as int).first() == full[i as int]);
                    assert(full.skip(i as int).drop_first() =~= full.skip(i as int + 1));
                }
                let ghost pre = terms@;
                match &items[i] {
                    Value::Text(s) => {
                        let one = OrderBy::from_text(s.as_str());
                        terms.push(one);
                        proof {
                            match spec_order_bys_all(full.skip(i as int + 1)) {
                                Some(rest) => {
                                    assert(Seq::new(pre.len(), |j: int| pre[j]@) + (seq![
                                        OrderBy::spec_of_text(s@),
                                    ] + rest) =~= Seq::new(terms@.len(), |j: int| terms@[j]@)
                                        + rest);
                                },
                                None => {},
                            }
                        }
                    },
                    _ => {
                        proof {
                            assert(full[i as int] == items@[i as int]@);
                            assert(!(full.skip(i as int).first() is Text));
                            assert(spec_order_bys_all(full.skip(i as int)) is None);
                            assert(spec_order_bys_all(full) is None);
                            assert(spec_order_bys_of(v@) is None);
                        }
                        return Err(ParseError::ExpectedText);
                    },
                }
                i = i + 1;
            }
            proof {
                assert(full.skip(n as int) =~= Seq::<JsonVal>::empty());
                assert(Seq::new(terms@.len(), |j: int| terms@[j]@) + Seq::<OrderByV>::empty()
                    =~= Seq::new(terms@.len(), |j: int| terms@[j]@));
            }
            let r = OrderBys::new(terms);
            proof {
                assert(r@ =~= Seq::new(terms@.len(), |j: int| terms@[j]@));
            }
            Ok(r)
        },
        _ => Err(ParseError::ExpectedText),
    }
}

/// What a caller may say about a list call: all fields optional.
#[derive(Debug)]
pub struct ListOptions {
    pub limit: Option<i64>,
    pub offset: Option<i64>,
    pub order_bys: Option<OrderBys>,
}

/// Model of [`ListOptions`].
pub struct ListOptionsV {
    pub limit: Option<i64>,
    pub offset: Option<i64>,
    pub order_bys: Option<Seq<OrderByV>>,
}

impl View for ListOptions {
    type V = ListOptionsV;

    open spec fn view(&self) -> ListOptionsV {
        ListOptionsV {
            limit: self.limit,
            offset: self.offset,
            order_bys: match self.order_bys {
                Some(o) => Some(o@),
                None => None,
            },
        }
    }
}

impl ListOptions {
    /// The limit as the store applies it: a negative limit asks for nothing.
    pub fn effective_limit(&self) -> (r: Option<u64>)
        ensures
            match self@.limit {
                Some(l) => r == Some(if l < 0 {
                    0u64
                } else {
                    l as u64
                }),
                None => r is None,
            },
    {
        match self.limit {
            Some(l) => Some(if l < 0 {
                0
            } else {
                l as u64
            }),
            None => None,
        }
    }

    /// The offset as the store applies it: a negative offset starts at the
    /// beginning.
    pub fn effective_offset(&self) -> (r: Option<u64>)
        ensures
            match self@.offset {
                Some(o) => r == Some(if o < 0 {
                    0u64
                } else {
                    o as u64
                }),
                None => r is None,
            },
    {
        match self.offset {
            Some(o) => Some(if o < 0 {
                0
            } else {
                o as u64
            }),
            None => None,
        }
    }
}

/// What an optional integer field denotes: absent, an integer, or (outer
/// `None`) a shape that is no integer.
pub open spec fn spec_opt_i64_of(f: Option<JsonVal>) -> Option<Option<i64>> {
    match f {
        None => Some(None),
        Some(JsonVal::Int(i)) => if i64::MIN <= i <= i64::MAX {
            Some(Some(i as i64))
        } else {
            None
        },
        Some(_) => None,
    }
}

/// What an optional `order_bys` field denotes.
pub open spec fn spec_opt_order_bys_of(f: Option<JsonVal>) -> Option<Option<Seq<OrderByV>>> {
    match f {
        None => Some(None),
        Some(ov) => match spec_order_bys_of(ov) {
            Some(terms) => Some(Some(terms)),
            None => None,
        },
    }
}

/// What a `list_options` payload denotes: an object whose `limit`, `offset`
/// and `order_bys` fields are all optional.
pub open spec fn spec_list_options_of(v: JsonVal) -> Option<ListOptionsV> {
    if !(v is Obj) {
        None
    } else {
        match (
            spec_opt_i64_of(spec_get(v, "limit"@)),
            spec_opt_i64_of(spec_get(v, "offset"@)),
            spec_opt_order_bys_of(spec_get(v, "order_bys"@)),
        ) {
            (Some(limit), Some(offset), Some(order_bys)) => Some(
                ListOptionsV { limit, offset, order_bys },
            ),
            _ => None,
        }
    }
}

/// Reads the list options of a payload.
pub fn parse_list_options(v: &Value) -> (r: Result<ListOptions, ParseError>)
    ensures
        match spec_list_options_of(v@) {
            Some(o) => r matches Ok(x) && x@ == o,
            None => r is Err,
        },
{
    match v {
        Value::Obj(_) => {},
        _ => {
            return Err(ParseError::ExpectedObject);
        },
    }
    let limit: Option<i64> = match v.get("limit") {
        None => None,
        Some(f) => match f {
            Value::Int(i) => Some(*i),
            _ => {
                return Err(ParseError::ExpectedInt);
            },
        },
    };
    let offset: Option<i64> = match v.get("offset") {
        None => None,
        Some(f) => match f {
            Value::Int(i) => Some(*i),
            _ => {
                return Err(ParseError::ExpectedInt);
            },
        },
    };
    let order_bys: Option<OrderBys> = match v.get("order_bys") {
        None => None,
        Some(f) => {
            let owned = f.clone();
            match parse_order_bys(owned) {
                Ok(o) => Some(o),
                Err(e) => {
                    return Err(e);
                },
            }
        },
    };
    Ok(ListOptions { limit, offset, order_bys })
}

/// Settles the list options of one call: a missing payload gets the default
/// limit and the identifier ordering; a limit over [`LIST_LIMIT_MAX`] is
/// refused; a payload without a limit gets [`LIST_LIMIT_DEFAULT`].
pub fn compute_list_options(list_options: Option<ListOptions>) -> (r: Result<
    ListOptions,
    HandlerError,
>)
    ensures
        match list_options {
            Some(o) => match o@.limit {
                Some(l) => if l > LIST_LIMIT_MAX {
                    r matches Err(e) && e@ == (HandlerErrorV::ListLimitOverMax {
                        max: LIST_LIMIT_MAX,
                        actual: l,
                    })
                } else {
                    r matches Ok(x) && x@ == o@
                },
                None => r matches Ok(x) && x@ == (ListOptionsV {
                    limit: Some(LIST_LIMIT_DEFAULT),
                    offset: o@.offset,
                    order_bys: o@.order_bys,
                }),
            },
            None => r matches Ok(x) && x@ == (ListOptionsV {
                limit: Some(LIST_LIMIT_DEFAULT),
                offset: None,
                order_bys: Some(seq![OrderByV::Asc("id"@)]),
            }),
        },
{
    match list_options {
        Some(mut o) => {
            match o.limit {
                Some(l) => {
                    if l > LIST_LIMIT_MAX {
                        Err(HandlerError::ListLimitOverMax { max: LIST_LIMIT_MAX, actual: l })
                    } else {
                        Ok(o)
                    }
                },
                None => {
                    o.limit = Some(LIST_LIMIT_DEFAULT);
                    Ok(o)
                },
            }
        },
        None => {
            let mut terms: Vec<OrderBy> = Vec::new();
            terms.push(OrderBy::Asc(String::from_str("id")));
            let order_bys = OrderBys::new(terms);
            proof {
                assert(order_bys@ =~= seq![OrderByV::Asc("id"@)]);
            }
            Ok(
                ListOptions {
                    limit: Some(LIST_LIMIT_DEFAULT),
                    offset: None,
                    order_bys: Some(order_bys),
                },
            )
        },
    }
}

} // verus!
