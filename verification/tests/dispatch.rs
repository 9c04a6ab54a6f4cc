//! Dispatch behaviour: registered and unregistered methods, binding
//! policies, composition, and isolation between calls.

use lib_rpc::ctx::Ctx;
use lib_rpc::error::{Error, HandlerError, ResourceKind};
use lib_rpc::handle_rpc_request;
use lib_rpc::ident::uuid_string;
use lib_rpc::params::{ParamsIded, ParamsList};
use lib_rpc::resources::{ModelManager, RpcResources};
use lib_rpc::router::{add, extend, RpcHandlerWrapper, RpcRoute, RpcRouter, RpcRouterJoin, RpcRouterTrait};
use lib_rpc::task::TaskFilter;
use lib_rpc::value::Value;
use lib_rpc::RpcRequest;

fn value_eq(a: &Value, b: &Value) -> bool {
    match (a, b) {
        (Value::Null, Value::Null) => true,
        (Value::Bool(x), Value::Bool(y)) => x == y,
        (Value::Int(x), Value::Int(y)) => x == y,
        (Value::Text(x), Value::Text(y)) => x == y,
        (Value::Arr(x), Value::Arr(y)) => {
            x.len() == y.len() && x.iter().zip(y.iter()).all(|(u, v)| value_eq(u, v))
        }
        (Value::Obj(x), Value::Obj(y)) => {
            x.len() == y.len()
                && x.iter()
                    .zip(y.iter())
                    .all(|(u, v)| u.0 == v.0 && value_eq(&u.1, &v.1))
        }
        _ => false,
    }
}

fn bag_with_identity(user_id: u128) -> RpcResources {
    RpcResources {
        ctx: Some(Ctx::new(user_id).expect("nonzero id")),
        mm: ModelManager::new(),
    }
}

fn bag_without_identity() -> RpcResources {
    RpcResources {
        ctx: None,
        mm: ModelManager::new(),
    }
}

fn echo_id(ctx: Ctx) -> Result<Value, HandlerError> {
    Ok(Value::Obj(vec![(
        "id".to_string(),
        Value::Text(uuid_string(ctx.user_id())),
    )]))
}

fn needs_id(_ctx: Ctx, _mm: ModelManager, params: ParamsIded) -> Result<Value, HandlerError> {
    Ok(Value::Text(uuid_string(params.id)))
}

fn list_with_defaults(
    _ctx: Ctx,
    _mm: ModelManager,
    params: ParamsList<TaskFilter>,
) -> Result<Value, HandlerError> {
    let n = params.filters.map(|f| f.len() as i64);
    Ok(Value::Obj(vec![(
        "filters".to_string(),
        n.map(Value::Int).unwrap_or(Value::Null),
    )]))
}

fn always_fails(_ctx: Ctx) -> Result<Value, HandlerError> {
    Err(HandlerError::EntityNotFound {
        entity: "tasks".to_string(),
        id: 7,
    })
}

#[test]
fn registered_method_returns_handler_result() {
    let router = add(
        RpcRouter::new(),
        "echo_id",
        echo_id as fn(Ctx) -> Result<Value, HandlerError>,
    );
    let r = router.call("echo_id", None, bag_with_identity(1)).expect("dispatch");
    let expected = Value::Obj(vec![(
        "id".to_string(),
        Value::Text("00000000-0000-0000-0000-000000000001".to_string()),
    )]);
    assert!(value_eq(&r, &expected));
}

#[test]
fn unregistered_method_is_method_unknown() {
    let router = add(
        RpcRouter::new(),
        "echo_id",
        echo_id as fn(Ctx) -> Result<Value, HandlerError>,
    );
    match router.call("no_such_method", None, bag_with_identity(1)) {
        Err(Error::MethodUnknown(name)) => assert_eq!(name, "no_such_method"),
        other => panic!("expected MethodUnknown, got {:?}", other),
    }
}

#[test]
fn required_params_absent_is_missing_params() {
    let router = add(
        RpcRouter::new(),
        "needs_id",
        needs_id as fn(Ctx, ModelManager, ParamsIded) -> Result<Value, HandlerError>,
    );
    match router.call("needs_id", None, bag_with_identity(1)) {
        Err(Error::MissingParams { method }) => assert_eq!(method, "needs_id"),
        other => panic!("expected MissingParams, got {:?}", other),
    }
}

#[test]
fn default_params_absent_binds_the_default() {
    let router = add(
        RpcRouter::new(),
        "list_tasks",
        list_with_defaults as fn(Ctx, ModelManager, ParamsList<TaskFilter>) -> Result<Value, HandlerError>,
    );
    let r = router.call("list_tasks", None, bag_with_identity(1)).expect("dispatch");
    let expected = Value::Obj(vec![("filters".to_string(), Value::Null)]);
    assert!(value_eq(&r, &expected));
}

#[test]
fn malformed_params_is_shape_mismatch() {
    let router = add(
        RpcRouter::new(),
        "needs_id",
        needs_id as fn(Ctx, ModelManager, ParamsIded) -> Result<Value, HandlerError>,
    );
    let bad = Value::Text("not an object".to_string());
    match router.call("needs_id", Some(bad), bag_with_identity(1)) {
        Err(Error::ParamsShapeMismatch { method, cause: _ }) => assert_eq!(method, "needs_id"),
        other => panic!("expected ParamsShapeMismatch, got {:?}", other),
    }
}

#[test]
fn handler_error_is_passed_through() {
    let router = add(
        RpcRouter::new(),
        "always_fails",
        always_fails as fn(Ctx) -> Result<Value, HandlerError>,
    );
    match router.call("always_fails", None, bag_with_identity(1)) {
        Err(Error::HandlerFailed(HandlerError::EntityNotFound { entity, id })) => {
            assert_eq!(entity, "tasks");
            assert_eq!(id, 7);
        }
        other => panic!("expected HandlerFailed, got {:?}", other),
    }
}

fn stamp_one(_ctx: Ctx) -> Result<Value, HandlerError> {
    Ok(Value::Int(1))
}

fn stamp_two(_ctx: Ctx) -> Result<Value, HandlerError> {
    Ok(Value::Int(2))
}

fn stamp_three(_ctx: Ctx) -> Result<Value, HandlerError> {
    Ok(Value::Int(3))
}

#[test]
fn later_registration_wins_on_merge() {
    let a = add(
        RpcRouter::new(),
        "create",
        stamp_one as fn(Ctx) -> Result<Value, HandlerError>,
    );
    let b = add(
        RpcRouter::new(),
        "create",
        stamp_two as fn(Ctx) -> Result<Value, HandlerError>,
    );
    let merged = extend(a, b);
    let r = merged.call("create", None, bag_with_identity(1)).expect("dispatch");
    assert!(value_eq(&r, &Value::Int(2)));

    let a = add(
        RpcRouter::new(),
        "create",
        stamp_one as fn(Ctx) -> Result<Value, HandlerError>,
    );
    let b = add(
        RpcRouter::new(),
        "create",
        stamp_two as fn(Ctx) -> Result<Value, HandlerError>,
    );
    let merged_other_way = extend(b, a);
    let r = merged_other_way.call("create", None, bag_with_identity(1)).expect("dispatch");
    assert!(value_eq(&r, &Value::Int(1)));
}

#[test]
fn merge_resolution_is_associative() {
    let build = || {
        let a = add(
            RpcRouter::new(),
            "one",
            stamp_one as fn(Ctx) -> Result<Value, HandlerError>,
        );
        let b = add(
            RpcRouter::new(),
            "two",
            stamp_two as fn(Ctx) -> Result<Value, HandlerError>,
        );
        let c = add(
            RpcRouter::new(),
            "three",
            stamp_three as fn(Ctx) -> Result<Value, HandlerError>,
        );
        (a, b, c)
    };
    let (a, b, c) = build();
    let left = extend(extend(a, b), c);
    let (a, b, c) = build();
    let right = extend(a, extend(b, c));
    for name in ["one", "two", "three"] {
        let x = left.call(name, None, bag_with_identity(1)).expect("left");
        let y = right.call(name, None, bag_with_identity(1)).expect("right");
        assert!(value_eq(&x, &y));
    }
}

#[test]
fn concurrent_style_dispatches_see_only_their_own_bag() {
    let router = add(
        RpcRouter::new(),
        "echo_id",
        echo_id as fn(Ctx) -> Result<Value, HandlerError>,
    );
    let ids: [u128; 3] = [1, 2, 0xdead_beef];
    let results: Vec<Value> = ids
        .iter()
        .map(|id| router.call("echo_id", None, bag_with_identity(*id)).expect("dispatch"))
        .collect();
    for (id, r) in ids.iter().zip(results.iter()) {
        let expected = Value::Obj(vec![(
            "id".to_string(),
            Value::Text(uuid_string(*id)),
        )]);
        assert!(value_eq(r, &expected));
    }
}

#[test]
fn echo_id_end_to_end() {
    let router = add(
        RpcRouter::new(),
        "echo_id",
        echo_id as fn(Ctx) -> Result<Value, HandlerError>,
    );
    let user = 0x00000000_0000_0000_0000_0000000000a1u128;
    let req = RpcRequest {
        id: Some(Value::Int(42)),
        method: "echo_id".to_string(),
        params: None,
    };
    let env = handle_rpc_request(&router, req, bag_with_identity(user)).expect("dispatch");
    let expected = Value::Obj(vec![
        ("id".to_string(), Value::Int(42)),
        (
            "result".to_string(),
            Value::Obj(vec![(
                "id".to_string(),
                Value::Text(uuid_string(user)),
            )]),
        ),
    ]);
    assert!(value_eq(&env, &expected));

    let req = RpcRequest {
        id: None,
        method: "echo_id".to_string(),
        params: None,
    };
    match handle_rpc_request(&router, req, bag_without_identity()) {
        Err(Error::ResourceMissing(ResourceKind::Ctx)) => {}
        other => panic!("expected ResourceMissing, got {:?}", other),
    }
}

fn list_fixed_tasks(
    ctx: Ctx,
    _mm: ModelManager,
    _params: ParamsList<TaskFilter>,
) -> Result<Vec<lib_rpc::task::Task>, HandlerError> {
    let stamp = lib_rpc::time_utils::Moment {
        secs: 1705314600,
        nanos: 0,
    };
    Ok(vec![lib_rpc::task::Task {
        id: 5,
        project_id: 6,
        title: "only task".to_string(),
        done: true,
        cid: ctx.user_id(),
        ctime: stamp,
        mid: ctx.user_id(),
        mtime: stamp,
    }])
}

#[test]
fn handler_returning_entities_serializes_them() {
    let router = add(
        RpcRouter::new(),
        "list_tasks",
        list_fixed_tasks
            as fn(Ctx, ModelManager, ParamsList<TaskFilter>) -> Result<
                Vec<lib_rpc::task::Task>,
                HandlerError,
            >,
    );
    let r = router.call("list_tasks", None, bag_with_identity(9)).expect("dispatch");
    match r {
        Value::Arr(items) => {
            assert_eq!(items.len(), 1);
            match &items[0] {
                Value::Obj(entries) => {
                    let title = entries.iter().find(|e| e.0 == "title").expect("title");
                    assert!(value_eq(&title.1, &Value::Text("only task".to_string())));
                    let done = entries.iter().find(|e| e.0 == "done").expect("done");
                    assert!(value_eq(&done.1, &Value::Bool(true)));
                }
                _ => panic!("expected an object"),
            }
        }
        _ => panic!("expected an array"),
    }
}

#[test]
fn routes_compose_by_hand() {
    let wrapper = RpcHandlerWrapper::new(echo_id as fn(Ctx) -> Result<Value, HandlerError>);
    let route = RpcRoute::new("echo_id".to_string(), wrapper);
    let router = RpcRouterJoin {
        earlier: RpcRouter::new(),
        later: route,
    };
    assert!(router.is_route_for("echo_id"));
    assert!(!router.is_route_for("other"));
    let r = router.call("echo_id", None, bag_with_identity(3)).expect("dispatch");
    let expected = Value::Obj(vec![(
        "id".to_string(),
        Value::Text(uuid_string(3)),
    )]);
    assert!(value_eq(&r, &expected));
}

fn version_stamp() -> Result<Value, HandlerError> {
    Ok(Value::Text("1.0".to_string()))
}

fn both_resources(ctx: Ctx, _mm: ModelManager) -> Result<Value, HandlerError> {
    Ok(Value::Text(uuid_string(ctx.user_id())))
}

fn only_params(params: ParamsIded) -> Result<Value, HandlerError> {
    Ok(Value::Text(uuid_string(params.id)))
}

#[test]
fn every_handler_arity_dispatches() {
    let router = add(
        add(
            add(
                RpcRouter::new(),
                "version",
                version_stamp as fn() -> Result<Value, HandlerError>,
            ),
            "whoami",
            both_resources as fn(Ctx, ModelManager) -> Result<Value, HandlerError>,
        ),
        "resolve",
        only_params as fn(ParamsIded) -> Result<Value, HandlerError>,
    );

    let r = router.call("version", None, bag_with_identity(4)).expect("no inputs");
    assert!(value_eq(&r, &Value::Text("1.0".to_string())));

    let r = router.call("whoami", None, bag_with_identity(4)).expect("two resources");
    assert!(value_eq(&r, &Value::Text(uuid_string(4))));

    let payload = Value::Obj(vec![(
        "id".to_string(),
        Value::Text(uuid_string(11)),
    )]);
    let r = router.call("resolve", Some(payload), bag_with_identity(4)).expect("params only");
    assert!(value_eq(&r, &Value::Text(uuid_string(11))));

    // a params-only method still needs its payload
    match router.call("resolve", None, bag_with_identity(4)) {
        Err(Error::MissingParams { method }) => assert_eq!(method, "resolve"),
        other => panic!("expected MissingParams, got {:?}", other),
    }
}
