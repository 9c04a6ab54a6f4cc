//! Parameter binding: payload shapes, the one-or-many normalization, list
//! options, and ordering terms.

use lib_rpc::error::HandlerError;
use lib_rpc::order_by::{
    compute_list_options, parse_list_options, parse_order_bys, ListOptions, OrderBy,
};
use lib_rpc::params::{
    FromJson, IntoParams, ParamsForCreate, ParamsForUpdate, ParamsIded, ParamsList,
};
use lib_rpc::project::{ProjectForCreate, ProjectForUpdate};
use lib_rpc::task::{TaskFilter, TaskForCreate, TaskForUpdate};
use lib_rpc::value::Value;
use lib_rpc::RpcRequest;

fn obj(entries: Vec<(&str, Value)>) -> Value {
    Value::Obj(
        entries
            .into_iter()
            .map(|(k, v)| (k.to_string(), v))
            .collect(),
    )
}

fn text(s: &str) -> Value {
    Value::Text(s.to_string())
}

fn value_eq(a: &Value, b: &Value) -> bool {
    match (a, b) {
        (Value::Null, Value::Null) => true,
        (Value::Bool(x), Value::Bool(y)) => x == y,
        (Value::Int(x), Value::Int(y)) => x == y,
        (Value::Text(x), Value::Text(y)) => x == y,
        (Value::Arr(x), Value::Arr(y)) => {
            x.len() == y.len() && x.iter().zip(y.iter()).all(|(u, v)| value_eq(u, v))
        }
        (Value::Obj(x), Value::Obj(y)) => {
            x.len() == y.len()
                && x.iter()
                    .zip(y.iter())
                    .all(|(u, v)| u.0 == v.0 && value_eq(&u.1, &v.1))
        }
        _ => false,
    }
}

const SOME_UUID: &str = "dff86abf-4769-4269-92fa-4461f75ea5e3";

#[test]
fn test_order_by() {
    let payload = obj(vec![
        ("offset", Value::Int(0)),
        ("limit", Value::Int(2)),
        ("order_bys", text("!title")),
    ]);
    let list_options: ListOptions = parse_list_options(&payload).expect("parse");
    assert_eq!(list_options.offset, Some(0));
    assert_eq!(list_options.limit, Some(2));
    let order_bys = list_options.order_bys.expect("order_bys");
    let terms = order_bys.order_bys();
    assert_eq!(terms.len(), 1);
    match &terms[0] {
        OrderBy::Desc(col) => assert_eq!(col, "title"),
        OrderBy::Asc(_) => panic!("expected a descending term"),
    }
}

#[test]
fn order_by_text_forms() {
    match OrderBy::from_text("title") {
        OrderBy::Asc(col) => assert_eq!(col, "title"),
        _ => panic!("expected ascending"),
    }
    match OrderBy::from_text("!done") {
        OrderBy::Desc(col) => assert_eq!(col, "done"),
        _ => panic!("expected descending"),
    }
}

#[test]
fn order_bys_accepts_one_or_many() {
    let one = parse_order_bys(text("!title")).expect("bare term");
    let many = parse_order_bys(Value::Arr(vec![text("!title")])).expect("array term");
    let one = one.order_bys();
    let many = many.order_bys();
    assert_eq!(one.len(), 1);
    assert_eq!(many.len(), 1);
    match (&one[0], &many[0]) {
        (OrderBy::Desc(a), OrderBy::Desc(b)) => assert_eq!(a, b),
        _ => panic!("expected two equal descending terms"),
    }
}

#[test]
fn filters_accept_one_or_many() {
    let filter = obj(vec![(
        "title",
        obj(vec![("$contains", text("x"))]),
    )]);
    let bare = obj(vec![("filters", filter.clone())]);
    let arrayed = obj(vec![("filters", Value::Arr(vec![filter]))]);

    let p1: ParamsList<TaskFilter> = ParamsList::into_params(Some(bare)).expect("bare binds");
    let p2: ParamsList<TaskFilter> = ParamsList::into_params(Some(arrayed)).expect("array binds");
    let f1 = p1.filters.expect("filters bound");
    let f2 = p2.filters.expect("filters bound");
    assert_eq!(f1.len(), 1);
    assert_eq!(f2.len(), 1);
    assert!(value_eq(&f1[0].term, &f2[0].term));
}

#[test]
fn params_list_rejects_bad_filters() {
    let bad = obj(vec![("filters", text("nope"))]);
    assert!(ParamsList::<TaskFilter>::into_params(Some(bad)).is_err());
}

#[test]
fn params_ided_binds_and_rejects() {
    let good = obj(vec![("id", text(SOME_UUID))]);
    let p = ParamsIded::into_params(Some(good)).expect("binds");
    assert_eq!(p.id, uuid::Uuid::parse_str(SOME_UUID).unwrap().as_u128());

    assert!(ParamsIded::into_params(Some(text("zz"))).is_err());
    assert!(ParamsIded::into_params(Some(obj(vec![("id", text("not-a-uuid"))]))).is_err());
    assert!(ParamsIded::into_params(None).is_err());
}

#[test]
fn params_for_create_binds_task() {
    let payload = obj(vec![(
        "data",
        obj(vec![
            ("title", text("first task")),
            ("project_id", text(SOME_UUID)),
        ]),
    )]);
    let p: ParamsForCreate<TaskForCreate> =
        ParamsForCreate::into_params(Some(payload)).expect("binds");
    assert_eq!(p.data.title, "first task");
    assert_eq!(
        p.data.project_id,
        uuid::Uuid::parse_str(SOME_UUID).unwrap().as_u128()
    );

    let missing_data = obj(vec![("other", Value::Null)]);
    assert!(ParamsForCreate::<TaskForCreate>::into_params(Some(missing_data)).is_err());
}

#[test]
fn params_for_update_binds_task() {
    let payload = obj(vec![
        ("id", text(SOME_UUID)),
        (
            "data",
            obj(vec![("title", text("renamed")), ("done", Value::Bool(true))]),
        ),
    ]);
    let p: ParamsForUpdate<TaskForUpdate> =
        ParamsForUpdate::into_params(Some(payload)).expect("binds");
    assert_eq!(p.id, uuid::Uuid::parse_str(SOME_UUID).unwrap().as_u128());
    assert_eq!(p.data.title, Some("renamed".to_string()));
    assert_eq!(p.data.done, Some(true));
}

#[test]
fn task_for_update_fields_are_optional() {
    let empty = obj(vec![]);
    let u = TaskForUpdate::from_json(&empty).expect("binds");
    assert_eq!(u.title, None);
    assert_eq!(u.done, None);

    let wrong = obj(vec![("done", text("yes"))]);
    assert!(TaskForUpdate::from_json(&wrong).is_err());
}

#[test]
fn project_payloads_bind() {
    let c = ProjectForCreate::from_json(&obj(vec![("name", text("home"))])).expect("binds");
    assert_eq!(c.name, "home");
    assert!(ProjectForCreate::from_json(&obj(vec![])).is_err());

    let u = ProjectForUpdate::from_json(&obj(vec![
        ("name", text("work")),
        ("owner_id", Value::Int(9)),
    ]))
    .expect("binds");
    assert_eq!(u.name, Some("work".to_string()));
    assert_eq!(u.owner_id, Some(9));
}

#[test]
fn compute_list_options_defaults_and_limits() {
    let r = compute_list_options(None).expect("default");
    assert_eq!(r.limit, Some(1000));
    assert_eq!(r.offset, None);
    let terms = r.order_bys.expect("default ordering").order_bys();
    assert_eq!(terms.len(), 1);
    match &terms[0] {
        OrderBy::Asc(col) => assert_eq!(col, "id"),
        _ => panic!("expected ascending id"),
    }

    let no_limit = ListOptions {
        limit: None,
        offset: Some(3),
        order_bys: None,
    };
    let r = compute_list_options(Some(no_limit)).expect("fills default");
    assert_eq!(r.limit, Some(1000));
    assert_eq!(r.offset, Some(3));

    let over = ListOptions {
        limit: Some(5001),
        offset: None,
        order_bys: None,
    };
    match compute_list_options(Some(over)) {
        Err(HandlerError::ListLimitOverMax { max, actual }) => {
            assert_eq!(max, 5000);
            assert_eq!(actual, 5001);
        }
        other => panic!("expected ListLimitOverMax, got {:?}", other),
    }

    let at_max = ListOptions {
        limit: Some(5000),
        offset: None,
        order_bys: None,
    };
    let r = compute_list_options(Some(at_max)).expect("at the bound");
    assert_eq!(r.limit, Some(5000));
}

#[test]
fn value_get_finds_first_field() {
    let v = obj(vec![("a", Value::Int(1)), ("b", Value::Int(2))]);
    assert!(value_eq(v.get("a").unwrap(), &Value::Int(1)));
    assert!(value_eq(v.get("b").unwrap(), &Value::Int(2)));
    assert!(v.get("c").is_none());
    assert!(Value::Null.get("a").is_none());
}

#[test]
fn request_envelope_binds() {
    let envelope = obj(vec![
        ("id", Value::Int(7)),
        ("method", text("create_task")),
        ("params", obj(vec![("data", Value::Null)])),
    ]);
    let req = RpcRequest::from_value(&envelope).expect("well-formed envelope");
    assert_eq!(req.method, "create_task");
    assert!(matches!(req.id, Some(Value::Int(7))));
    assert!(req.params.is_some());

    // absent and null are the same absence
    let bare = obj(vec![("method", text("m")), ("id", Value::Null)]);
    let req = RpcRequest::from_value(&bare).expect("well-formed envelope");
    assert!(req.id.is_none());
    assert!(req.params.is_none());

    // a method is owed, and must be a non-empty text
    assert!(RpcRequest::from_value(&obj(vec![])).is_err());
    assert!(RpcRequest::from_value(&obj(vec![("method", text(""))])).is_err());
    assert!(RpcRequest::from_value(&obj(vec![("method", Value::Int(3))])).is_err());
    assert!(RpcRequest::from_value(&text("nope")).is_err());
}

#[test]
fn effective_bounds_clamp_negatives() {
    let o = ListOptions {
        limit: Some(-5),
        offset: Some(-1),
        order_bys: None,
    };
    assert_eq!(o.effective_limit(), Some(0));
    assert_eq!(o.effective_offset(), Some(0));

    let o = ListOptions {
        limit: Some(10),
        offset: None,
        order_bys: None,
    };
    assert_eq!(o.effective_limit(), Some(10));
    assert_eq!(o.effective_offset(), None);
}
