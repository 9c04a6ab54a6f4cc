//! A verified method-dispatch core for a JSON-based RPC layer.
//!
//! Given a request carrying a method name and an optional JSON payload, the
//! core resolves the named handler, rebuilds the handler's typed inputs from
//! the per-call resource bag and the payload, invokes the handler, and
//! serializes its result. Every failure is a typed error value; nothing is
//! swallowed.

pub mod ctx;
pub mod error;
pub mod handler;
pub mod ident;
pub mod order_by;
pub mod params;
pub mod project;
pub mod resources;
pub mod router;
pub mod serialize;
pub mod task;
pub mod time_utils;
pub mod value;

use vstd::prelude::*;
use vstd::string::StrSliceExecFns;

use crate::error::{spec_opt_view, Error, ErrorV};
use crate::resources::RpcResources;
use crate::router::RpcRouterTrait;
use crate::value::{entries_view, JsonVal, Value};

verus! {

/// The inbound envelope: an opaque call identifier, echoed back verbatim, a
/// method name, and an optional params payload.
pub struct RpcRequest {
    pub id: Option<Value>,
    pub method: String,
    pub params: Option<Value>,
}

/// An optional envelope field: an absent field and an explicit null both
/// stand for nothing.
pub open spec fn spec_opt_field(v: JsonVal, key: Seq<char>) -> Option<JsonVal> {
    match crate::value::spec_get(v, key) {
        None => None,
        Some(JsonVal::Null) => None,
        Some(x) => Some(x),
    }
}

/// The request an envelope document denotes: the `method` field must be a
/// non-empty text; `id` and `params` are optional.
pub open spec fn spec_request_of(v: JsonVal) -> Option<
    (Option<JsonVal>, Seq<char>, Option<JsonVal>),
> {
    match crate::value::spec_get(v, "method"@) {
        Some(JsonVal::Text(m)) => if m.len() > 0 {
            Some((spec_opt_field(v, "id"@), m, spec_opt_field(v, "params"@)))
        } else {
            None
        },
        _ => None,
    }
}

impl RpcRequest {
    /// Reads the inbound envelope out of a JSON value; a document without a
    /// non-empty `method` text is refused, so every request this returns
    /// satisfies the dispatch entry point's precondition.
    pub fn from_value(v: &Value) -> (r: Result<RpcRequest, crate::error::ParseError>)
        ensures
            match spec_request_of(v@) {
                Some((id, m, ps)) => r matches Ok(req) && req.method@ == m && m.len() > 0
                    && spec_opt_view(req.id) == id && spec_opt_view(req.params) == ps,
                None => r is Err,
            },
    {
        let method: String = match v.get("method") {
            Some(Value::Text(m)) => m.clone(),
            _ => {
                return Err(crate::error::ParseError::ExpectedText);
            },
        };
        if method.as_str().unicode_len() == 0 {
            return Err(crate::error::ParseError::MissingField(String::from_str("method")));
        }
        let id: Option<Value> = match v.get("id") {
            None => None,
            Some(Value::Null) => None,
            Some(x) => Some(x.clone()),
        };
        let params: Option<Value> = match v.get("params") {
            None => None,
            Some(Value::Null) => None,
            Some(x) => Some(x.clone()),
        };
        Ok(RpcRequest { id, method, params })
    }
}

/// The identifier a response echoes: the request's, or null where the
/// request carried none.
pub open spec fn spec_id_view(id: Option<Value>) -> JsonVal {
    match id {
        Some(v) => v@,
        None => JsonVal::Null,
    }
}

/// The success envelope: the echoed identifier and the handler's result.
pub open spec fn spec_success_envelope(id: JsonVal, result: JsonVal) -> JsonVal {
    JsonVal::Obj(seq![("id"@, id), ("result"@, result)])
}

/// Serves one inbound call: dispatches the method and wraps a success in the
/// response envelope. A failure is returned as the typed error, for the
/// transport around the core to map; the envelope of the inbound request is
/// taken apart here and nowhere else.
pub fn handle_rpc_request<Router: RpcRouterTrait>(
    rpc_router: &Router,
    rpc_req: RpcRequest,
    rpc_resources: RpcResources,
) -> (r: Result<Value, Error>)
    requires
        rpc_router.wf(),
        rpc_req.method@.len() > 0,
    ensures
        rpc_router.spec_table().dom().contains(rpc_req.method@) ==> match r {
            Ok(env) => exists|out: JsonVal|
                #[trigger] rpc_router.spec_table()[rpc_req.method@](
                    rpc_req.method@,
                    rpc_resources,
                    spec_opt_view(rpc_req.params),
                    Ok(out),
                ) && env@ == spec_success_envelope(spec_id_view(rpc_req.id), out),
            Err(e) => rpc_router.spec_table()[rpc_req.method@](
                rpc_req.method@,
                rpc_resources,
                spec_opt_view(rpc_req.params),
                Err(e@),
            ),
        },
        !rpc_router.spec_table().dom().contains(rpc_req.method@) ==> (r matches Err(e) && e@
            == ErrorV::MethodUnknown(rpc_req.method@)),
{
    broadcast use crate::value::lemma_entries_view;

    let RpcRequest { id, method, params } = rpc_req;
    let result = match rpc_router.call(method.as_str(), params, rpc_resources) {
        Ok(v) => v,
        Err(e) => {
            return Err(e);
        },
    };
    let ghost out = result@;
    let id_value = match id {
        Some(v) => v,
        None => Value::Null,
    };
    let mut entries: Vec<(String, Value)> = Vec::new();
    entries.push((String::from_str("id"), id_value));
    entries.push((String::from_str("result"), result));
    let envelope = Value::Obj(entries);
    proof {
        assert(entries_view(entries@) =~= seq![
            ("id"@, spec_id_view(rpc_req.id)),
            ("result"@, out),
        ]);
    }
    Ok(envelope)
}

} // verus!
