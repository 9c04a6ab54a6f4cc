//! The handler abstraction: a callable taking declared resources and an
//! optional typed parameter, returning a serializable value or a typed
//! error.
//!
//! The trait is implemented once per arity the system uses — zero to two
//! resources, with or without one parameter — so that handler functions of
//! unrelated shapes share one call contract. The call path of every arity is
//! the same: extract each declared resource in declared order, bind the
//! parameter if the signature has one, invoke the underlying function, and
//! serialize its result; the call fails on the first step that fails,
//! before the handler body runs.

use vstd::prelude::*;

use crate::error::{spec_opt_view, spec_res_view, Error, ErrorV, HandlerError};
use crate::params::IntoParams;
use crate::resources::{FromResources, RpcResources};
use crate::serialize::IntoJson;
use crate::value::{JsonVal, Value};

verus! {

/// A handler: the types `T` and `P` name the resource tuple and the
/// parameter tuple of the underlying function, so that one function type
/// implements the trait once.
pub trait RpcHandler<T, P, R>: Sized {
    /// The underlying callable accepts every argument tuple.
    spec fn wf(&self) -> bool;

    /// The relation between one call's inputs and its outcome.
    spec fn spec_call(
        &self,
        method: Seq<char>,
        resources: RpcResources,
        params: Option<JsonVal>,
        out: Result<JsonVal, ErrorV>,
    ) -> bool;

    /// Runs the extract, bind, invoke, serialize pipeline once.
    fn call(&self, method: &str, rpc_resources: &RpcResources, params: Option<Value>) -> (r: Result<
        Value,
        Error,
    >)
        requires
            self.wf(),
        ensures
            self.spec_call(method@, *rpc_resources, spec_opt_view(params), spec_res_view(r)),
    ;
}

/// How a parameter type binds an optional payload, as seen from a method:
/// the bound value, the missing-payload error, or the shape error.
pub open spec fn spec_bind_rel<P: IntoParams>(
    m: Seq<char>,
    params: Option<JsonVal>,
    out: Result<P::V, ErrorV>,
) -> bool {
    match params {
        Some(v) => match P::spec_parse(v) {
            Some(t) => out == Ok::<P::V, ErrorV>(t),
            None => out matches Err(e) && (e matches ErrorV::ParamsShapeMismatch(mm, _) && mm
                == m),
        },
        None => match P::spec_absent() {
            Some(t) => out == Ok::<P::V, ErrorV>(t),
            None => out == Err::<P::V, ErrorV>(ErrorV::MissingParams(m)),
        },
    }
}

/// Binds a payload for the named method, wrapping a failure in the error the
/// method reports.
pub fn bind_params<P: IntoParams>(method: &str, value: Option<Value>) -> (r: Result<P, Error>)
    ensures
        match r {
            Ok(p) => spec_bind_rel::<P>(method@, spec_opt_view(value), Ok(p@)),
            Err(e) => spec_bind_rel::<P>(method@, spec_opt_view(value), Err(e@)),
        },
{
    match P::into_params(value) {
        Ok(p) => Ok(p),
        Err(crate::params::ParamsFailure::Missing) => Err(
            Error::MissingParams { method: String::from_str(method) },
        ),
        Err(crate::params::ParamsFailure::Shape(cause)) => Err(
            Error::ParamsShapeMismatch { method: String::from_str(method), cause },
        ),
    }
}

/// The outcome a handler's own result maps to: the serialized value, or the
/// handler's error passed through.
pub open spec fn spec_map_handler_result<R: IntoJson>(y: Result<R, HandlerError>) -> Result<
    JsonVal,
    ErrorV,
> {
    match y {
        Ok(r) => Ok(R::spec_to_json(r@)),
        Err(e) => Err(ErrorV::HandlerFailed(e@)),
    }
}

impl<F, R> RpcHandler<(), (), R> for F where
    F: Fn() -> Result<R, HandlerError> + Copy,
    R: IntoJson,
 {
    open spec fn wf(&self) -> bool {
        forall|a: ()| call_requires(*self, a)
    }

    open spec fn spec_call(
        &self,
        method: Seq<char>,
        resources: RpcResources,
        params: Option<JsonVal>,
        out: Result<JsonVal, ErrorV>,
    ) -> bool {
        exists|y: Result<R, HandlerError>|
            #[trigger] call_ensures(*self, (), y) && out == spec_map_handler_result::<R>(y)
    }

    fn call(&self, method: &str, rpc_resources: &RpcResources, params: Option<Value>) -> (r: Result<
        Value,
        Error,
    >) {
        let y = (*self)();
        let ghost gy = y;
        match y {
            Ok(out) => {
                let jv = out.to_json();
                proof {
                    assert(call_ensures(*self, (), gy) && spec_res_view(Ok::<Value, Error>(jv))
                        == spec_map_handler_result::<R>(gy));
                }
                Ok(jv)
            },
            Err(e) => Err(Error::HandlerFailed(e)),
        }
    }
}

impl<F, S1, R> RpcHandler<(S1,), (), R> for F where
    F: Fn(S1) -> Result<R, HandlerError> + Copy,
    S1: FromResources,
    R: IntoJson,
 {
    open spec fn wf(&self) -> bool {
        forall|s1: S1| call_requires(*self, (s1,))
    }

    open spec fn spec_call(
        &self,
        method: Seq<char>,
        resources: RpcResources,
        params: Option<JsonVal>,
        out: Result<JsonVal, ErrorV>,
    ) -> bool {
        match S1::spec_from_resources(resources) {
            Err(k) => out == Err::<JsonVal, ErrorV>(ErrorV::ResourceMissing(k)),
            Ok(s1) => exists|y: Result<R, HandlerError>|
                #[trigger] call_ensures(*self, (s1,), y) && out == spec_map_handler_result::<R>(y),
        }
    }

    fn call(&self, method: &str, rpc_resources: &RpcResources, params: Option<Value>) -> (r: Result<
        Value,
        Error,
    >) {
        let s1 = match S1::from_resources(rpc_resources) {
            Ok(v) => v,
            Err(e) => {
                return Err(e);
            },
        };
        let ghost gs1 = s1;
        let y = (*self)(s1);
        let ghost gy = y;
        match y {
            Ok(out) => {
                let jv = out.to_json();
                proof {
                    assert(call_ensures(*self, (gs1,), gy) && spec_res_view(Ok::<Value, Error>(jv))
                        == spec_map_handler_result::<R>(gy));
                }
                Ok(jv)
            },
            Err(e) => Err(Error::HandlerFailed(e)),
        }
    }
}

impl<F, S1, S2, R> RpcHandler<(S1, S2), (), R> for F where
    F: Fn(S1, S2) -> Result<R, HandlerError> + Copy,
    S1: FromResources,
    S2: FromResources,
    R: IntoJson,
 {
    open spec fn wf(&self) -> bool {
        forall|s1: S1, s2: S2| call_requires(*self, (s1, s2))
    }

    open spec fn spec_call(
        &self,
        method: Seq<char>,
        resources: RpcResources,
        params: Option<JsonVal>,
        out: Result<JsonVal, ErrorV>,
    ) -> bool {
        match S1::spec_from_resources(resources) {
            Err(k) => out == Err::<JsonVal, ErrorV>(ErrorV::ResourceMissing(k)),
            Ok(s1) => match S2::spec_from_resources(resources) {
                Err(k) => out == Err::<JsonVal, ErrorV>(ErrorV::ResourceMissing(k)),
                Ok(s2) => exists|y: Result<R, HandlerError>|
                    #[trigger] call_ensures(*self, (s1, s2), y) && out == spec_map_handler_result::<
                        R,
                    >(y),
            },
        }
    }

    fn call(&self, method: &str, rpc_resources: &RpcResources, params: Option<Value>) -> (r: Result<
        Value,
        Error,
    >) {
        let s1 = match S1::from_resources(rpc_resources) {
            Ok(v) => v,
            Err(e) => {
                return Err(e);
            },
        };
        let s2 = match S2::from_resources(rpc_resources) {
            Ok(v) => v,
            Err(e) => {
                return Err(e);
            },
        };
        let ghost gs1 = s1;
        let ghost gs2 = s2;
        let y = (*self)(s1, s2);
        let ghost gy = y;
        match y {
            Ok(out) => {
                let jv = out.to_json();
                proof {
                    assert(call_ensures(*self, (gs1, gs2), gy) && spec_res_view(
                        Ok::<Value, Error>(jv),
                    ) == spec_map_handler_result::<R>(gy));
                }
                Ok(jv)
            },
            Err(e) => Err(Error::HandlerFailed(e)),
        }
    }
}

impl<F, P, R> RpcHandler<(), (P,), R> for F where
    F: Fn(P) -> Result<R, HandlerError> + Copy,
    P: IntoParams,
    R: IntoJson,
 {
    open spec fn wf(&self) -> bool {
        forall|p: P| call_requires(*self, (p,))
    }

    open spec fn spec_call(
        &self,
        method: Seq<char>,
        resources: RpcResources,
        params: Option<JsonVal>,
        out: Result<JsonVal, ErrorV>,
    ) -> bool {
        ||| (out matches Err(e) && spec_bind_rel::<P>(method, params, Err(e)))
        ||| (exists|p: P, y: Result<R, HandlerError>|
            spec_bind_rel::<P>(method, params, Ok(p@)) && #[trigger] call_ensures(*self, (p,), y)
                && out == spec_map_handler_result::<R>(y))
    }

    fn call(&self, method: &str, rpc_resources: &RpcResources, params: Option<Value>) -> (r: Result<
        Value,
        Error,
    >) {
        let p: P = match bind_params::<P>(method, params) {
            Ok(p) => p,
            Err(e) => {
                return Err(e);
            },
        };
        let ghost gp = p;
        let y = (*self)(p);
        let ghost gy = y;
        match y {
            Ok(out) => {
                let jv = out.to_json();
                proof {
                    assert(call_ensures(*self, (gp,), gy) && spec_res_view(Ok::<Value, Error>(jv))
                        == spec_map_handler_result::<R>(gy));
                }
                Ok(jv)
            },
            Err(e) => Err(Error::HandlerFailed(e)),
        }
    }
}

impl<F, S1, P, R> RpcHandler<(S1,), (P,), R> for F where
    F: Fn(S1, P) -> Result<R, HandlerError> + Copy,
    S1: FromResources,
    P: IntoParams,
    R: IntoJson,
 {
    open spec fn wf(&self) -> bool {
        forall|s1: S1, p: P| call_requires(*self, (s1, p))
    }

    open spec fn spec_call(
        &self,
        method: Seq<char>,
        resources: RpcResources,
        params: Option<JsonVal>,
        out: Result<JsonVal, ErrorV>,
    ) -> bool {
        match S1::spec_from_resources(resources) {
            Err(k) => out == Err::<JsonVal, ErrorV>(ErrorV::ResourceMissing(k)),
            Ok(s1) => {
                ||| (out matches Err(e) && spec_bind_rel::<P>(method, params, Err(e)))
                ||| (exists|p: P, y: Result<R, HandlerError>|
                    spec_bind_rel::<P>(method, params, Ok(p@)) && #[trigger] call_ensures(
                        *self,
                        (s1, p),
                        y,
                    ) && out == spec_map_handler_result::<R>(y))
            },
        }
    }

    fn call(&self, method: &str, rpc_resources: &RpcResources, params: Option<Value>) -> (r: Result<
        Value,
        Error,
    >) {
        let s1 = match S1::from_resources(rpc_resources) {
            Ok(v) => v,
            Err(e) => {
                return Err(e);
            },
        };
        let p: P = match bind_params::<P>(method, params) {
            Ok(p) => p,
            Err(e) => {
                return Err(e);
            },
        };
        let ghost gs1 = s1;
        let ghost gp = p;
        let y = (*self)(s1, p);
        let ghost gy = y;
        match y {
            Ok(out) => {
                let jv = out.to_json();
                proof {
                    assert(call_ensures(*self, (gs1, gp), gy) && spec_res_view(
                        Ok::<Value, Error>(jv),
                    ) == spec_map_handler_result::<R>(gy));
                }
                Ok(jv)
            },
            Err(e) => Err(Error::HandlerFailed(e)),
        }
    }
}

impl<F, S1, S2, P, R> RpcHandler<(S1, S2), (P,), R> for F where
    F: Fn(S1, S2, P) -> Result<R, HandlerError> + Copy,
    S1: FromResources,
    S2: FromResources,
    P: IntoParams,
    R: IntoJson,
 {
    open spec fn wf(&self) -> bool {
        forall|s1: S1, s2: S2, p: P| call_requires(*self, (s1, s2, p))
    }

    open spec fn spec_call(
        &self,
        method: Seq<char>,
        resources: RpcResources,
        params: Option<JsonVal>,
        out: Result<JsonVal, ErrorV>,
    ) -> bool {
        match S1::spec_from_resources(resources) {
            Err(k) => out == Err::<JsonVal, ErrorV>(ErrorV::ResourceMissing(k)),
            Ok(s1) => match S2::spec_from_resources(resources) {
                Err(k) => out == Err::<JsonVal, ErrorV>(ErrorV::ResourceMissing(k)),
                Ok(s2) => {
                    ||| (out matches Err(e) && spec_bind_rel::<P>(method, params, Err(e)))
                    ||| (exists|p: P, y: Result<R, HandlerError>|
                        spec_bind_rel::<P>(method, params, Ok(p@)) && #[trigger] call_ensures(
                            *self,
                            (s1, s2, p),
                            y,
                        ) && out == spec_map_handler_result::<R>(y))
                },
            },
        }
    }

    fn call(&self, method: &str, rpc_resources: &RpcResources, params: Option<Value>) -> (r: Result<
        Value,
        Error,
    >) {
        let s1 = match S1::from_resources(rpc_resources) {
            Ok(v) => v,
            Err(e) => {
                return Err(e);
            },
        };
        let s2 = match S2::from_resources(rpc_resources) {
            Ok(v) => v,
            Err(e) => {
                return Err(e);
            },
        };
        let p: P = match bind_params::<P>(method, params) {
            Ok(p) => p,
            Err(e) => {
                return Err(e);
            },
        };
        let ghost gs1 = s1;
        let ghost gs2 = s2;
        let ghost gp = p;
        let y = (*self)(s1, s2, p);
        let ghost gy = y;
        match y {
            Ok(out) => {
                let jv = out.to_json();
                proof {
                    assert(call_ensures(*self, (gs1, gs2, gp), gy) && spec_res_view(
                        Ok::<Value, Error>(jv),
                    ) == spec_map_handler_result::<R>(gy));
                }
                Ok(jv)
            },
            Err(e) => Err(Error::HandlerFailed(e)),
        }
    }
}

} // verus!

verus! {

/// Law: a handler whose parameter type requires a payload rejects a call
/// without one. With every declared resource present and no payload, the one
/// possible outcome is the missing-params error for that method; the handler
/// body is never reached.
pub proof fn lemma_required_params_absent<F, S1, S2, P, R>(
    f: F,
    m: Seq<char>,
    res: RpcResources,
    out: Result<JsonVal, ErrorV>,
) where
    F: Fn(S1, S2, P) -> Result<R, HandlerError> + Copy,
    S1: FromResources,
    S2: FromResources,
    P: IntoParams,
    R: IntoJson,

    requires
        P::spec_absent() is None,
        S1::spec_from_resources(res) is Ok,
        S2::spec_from_resources(res) is Ok,
        f.spec_call(m, res, None, out),
    ensures
        out == Err::<JsonVal, ErrorV>(ErrorV::MissingParams(m)),
{
}

/// Law: a handler whose parameter type has the default-on-absent policy is
/// invoked on a call without a payload, with the type's default value bound
/// in the payload's place.
pub proof fn lemma_default_params_absent<F, S1, S2, P, R>(
    f: F,
    m: Seq<char>,
    res: RpcResources,
    s1: S1,
    s2: S2,
    out: Result<JsonVal, ErrorV>,
) where
    F: Fn(S1, S2, P) -> Result<R, HandlerError> + Copy,
    S1: FromResources,
    S2: FromResources,
    P: IntoParams,
    R: IntoJson,

    requires
        P::spec_absent() is Some,
        S1::spec_from_resources(res) == Ok::<S1, crate::error::ResourceKind>(s1),
        S2::spec_from_resources(res) == Ok::<S2, crate::error::ResourceKind>(s2),
        f.spec_call(m, res, None, out),
    ensures
        exists|p: P, y: Result<R, HandlerError>|
            p@ == P::spec_absent()->0 && #[trigger] call_ensures(f, (s1, s2, p), y) && out
                == spec_map_handler_result::<R>(y),
{
}

/// Law: a payload that does not match the handler's parameter shape yields
/// the shape-mismatch error for that method, and the handler body is never
/// reached.
pub proof fn lemma_malformed_params<F, S1, S2, P, R>(
    f: F,
    m: Seq<char>,
    res: RpcResources,
    v: JsonVal,
    out: Result<JsonVal, ErrorV>,
) where
    F: Fn(S1, S2, P) -> Result<R, HandlerError> + Copy,
    S1: FromResources,
    S2: FromResources,
    P: IntoParams,
    R: IntoJson,

    requires
        P::spec_parse(v) is None,
        S1::spec_from_resources(res) is Ok,
        S2::spec_from_resources(res) is Ok,
        f.spec_call(m, res, Some(v), out),
    ensures
        out matches Err(e) && (e matches ErrorV::ParamsShapeMismatch(mm, _) && mm == m),
{
}

/// Law: a handler is only ever reached with every declared resource
/// extracted; a bag without one of them yields the resource-missing error of
/// the first absent resource, in declared order.
pub proof fn lemma_resource_missing<F, S1, S2, P, R>(
    f: F,
    m: Seq<char>,
    res: RpcResources,
    params: Option<JsonVal>,
    k: crate::error::ResourceKind,
    out: Result<JsonVal, ErrorV>,
) where
    F: Fn(S1, S2, P) -> Result<R, HandlerError> + Copy,
    S1: FromResources,
    S2: FromResources,
    P: IntoParams,
    R: IntoJson,

    requires
        S1::spec_from_resources(res) == Err::<S1, crate::error::ResourceKind>(k),
        f.spec_call(m, res, params, out),
    ensures
        out == Err::<JsonVal, ErrorV>(ErrorV::ResourceMissing(k)),
{
}

} // verus!
