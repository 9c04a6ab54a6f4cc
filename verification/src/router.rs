//! The method router: a table from method name to handler.
//!
//! A router is composed once, at startup, from single registrations and
//! unions of sub-routers; its model is the map from method name to the
//! registered handler's call relation. While it serves, a router is only
//! ever borrowed: dispatch shares no mutable state between calls. A name
//! registered twice resolves to the later registration.

use core::marker::PhantomData;

use vstd::prelude::*;

use crate::error::{spec_opt_view, spec_res_view, Error, ErrorV};
use crate::handler::RpcHandler;
use crate::resources::RpcResources;
use crate::value::{JsonVal, Value};

verus! {

/// The call relation of a typed handler, as one spec value.
pub open spec fn spec_handler_rel<H: RpcHandler<T, P, R>, T, P, R>(handler: H) -> spec_fn(
    Seq<char>,
    RpcResources,
    Option<JsonVal>,
    Result<JsonVal, ErrorV>,
) -> bool {
    |m: Seq<char>, res: RpcResources, ps: Option<JsonVal>, out: Result<JsonVal, ErrorV>|
        handler.spec_call(m, res, ps, out)
}

/// Wraps a typed handler so that every registration exposes the same
/// invocation shape, whatever the handler's resource and parameter types.
pub struct RpcHandlerWrapper<H, T, P, R> {
    handler: H,
    _marker: PhantomData<(T, P, R)>,
}

impl<H, T, P, R> RpcHandlerWrapper<H, T, P, R> where H: RpcHandler<T, P, R> {
    /// The handler inside, for contracts.
    pub closed spec fn spec_handler(&self) -> H {
        self.handler
    }

    /// The wrapped callable accepts every argument tuple.
    pub open spec fn wf(&self) -> bool {
        self.spec_handler().wf()
    }

    /// The relation between one invocation's inputs and its outcome.
    pub open spec fn spec_invoke(&self) -> spec_fn(
        Seq<char>,
        RpcResources,
        Option<JsonVal>,
        Result<JsonVal, ErrorV>,
    ) -> bool {
        spec_handler_rel(self.spec_handler())
    }

    pub fn new(handler: H) -> (r: Self)
        ensures
            r.spec_handler() == handler,
    {
        RpcHandlerWrapper { handler, _marker: PhantomData }
    }

    /// Invokes the handler once; the method name is handed along for error
    /// reporting.
    pub fn invoke(&self, method: &str, rpc_resources: &RpcResources, params: Option<Value>) -> (r:
        Result<Value, Error>)
        requires
            self.wf(),
        ensures
            self.spec_invoke()(method@, *rpc_resources, spec_opt_view(params), spec_res_view(r)),
    {
        self.handler.call(method, rpc_resources, params)
    }
}

/// A router: something that resolves method names to handlers and
/// dispatches calls to them. Its model is a map from method name to the
/// handler's call relation.
pub trait RpcRouterTrait: Sized {
    /// The method table this router serves.
    spec fn spec_table(&self) -> Map<
        Seq<char>,
        spec_fn(Seq<char>, RpcResources, Option<JsonVal>, Result<JsonVal, ErrorV>) -> bool,
    >;

    /// Every registered handler accepts every argument tuple.
    spec fn wf(&self) -> bool;

    /// Whether this router serves the named method.
    fn is_route_for(&self, method: &str) -> (r: bool)
        ensures
            r == self.spec_table().dom().contains(method@),
    ;

    /// Dispatches one call: an unregistered name fails with the
    /// method-unknown error and invokes nothing; a registered name is served
    /// by its handler, invoked exactly once on this bag and payload.
    fn call(&self, method: &str, params: Option<Value>, rpc_resources: RpcResources) -> (r: Result<
        Value,
        Error,
    >)
        requires
            self.wf(),
        ensures
            self.spec_table().dom().contains(method@) ==> self.spec_table()[method@](
                method@,
                rpc_resources,
                spec_opt_view(params),
                spec_res_view(r),
            ),
            !self.spec_table().dom().contains(method@) ==> spec_res_view(r) == Err::<
                JsonVal,
                ErrorV,
            >(ErrorV::MethodUnknown(method@)),
    ;
}

/// The empty router: the starting point of composition. It knows no method.
pub struct RpcRouter {}

impl RpcRouter {
    pub fn new() -> (r: Self)
        ensures
            r.spec_table() == Map::<
                Seq<char>,
                spec_fn(Seq<char>, RpcResources, Option<JsonVal>, Result<JsonVal, ErrorV>) -> bool,
            >::empty(),
            r.wf(),
    {
        RpcRouter {  }
    }
}

impl RpcRouterTrait for RpcRouter {
    open spec fn spec_table(&self) -> Map<
        Seq<char>,
        spec_fn(Seq<char>, RpcResources, Option<JsonVal>, Result<JsonVal, ErrorV>) -> bool,
    > {
        Map::empty()
    }

    open spec fn wf(&self) -> bool {
        true
    }

    fn is_route_for(&self, method: &str) -> (r: bool) {
        false
    }

    fn call(&self, method: &str, params: Option<Value>, rpc_resources: RpcResources) -> (r: Result<
        Value,
        Error,
    >) {
        Err(Error::MethodUnknown(String::from_str(method)))
    }
}

/// One registration: a method name and the wrapped handler serving it. A
/// registration is itself a router serving exactly one method.
pub struct RpcRoute<H, T, P, R> {
    pub name: String,
    pub handler: RpcHandlerWrapper<H, T, P, R>,
}

impl<H, T, P, R> RpcRoute<H, T, P, R> where H: RpcHandler<T, P, R> {
    pub fn new(name: String, handler: RpcHandlerWrapper<H, T, P, R>) -> (r: RpcRoute<H, T, P, R>)
        ensures
            r.name == name,
            r.handler.spec_handler() == handler.spec_handler(),
    {
        RpcRoute { name, handler }
    }
}

impl<H, T, P, R> RpcRouterTrait for RpcRoute<H, T, P, R> where H: RpcHandler<T, P, R> {
    open spec fn spec_table(&self) -> Map<
        Seq<char>,
        spec_fn(Seq<char>, RpcResources, Option<JsonVal>, Result<JsonVal, ErrorV>) -> bool,
    > {
        map![self.name@ => self.handler.spec_invoke()]
    }

    open spec fn wf(&self) -> bool {
        self.handler.wf()
    }

    fn is_route_for(&self, method: &str) -> (r: bool) {
        let needle = String::from_str(method);
        self.name == needle
    }

    fn call(&self, method: &str, params: Option<Value>, rpc_resources: RpcResources) -> (r: Result<
        Value,
        Error,
    >) {
        let needle = String::from_str(method);
        if self.name == needle {
            self.handler.invoke(method, &rpc_resources, params)
        } else {
            Err(Error::MethodUnknown(String::from_str(method)))
        }
    }
}

/// The union of two routers: the table of the second laid over the table of
/// the first, so the later part of the composition wins a name both serve.
pub struct RpcRouterJoin<A, B> {
    pub earlier: A,
    pub later: B,
}

impl<A, B> RpcRouterTrait for RpcRouterJoin<A, B> where A: RpcRouterTrait, B: RpcRouterTrait {
    open spec fn spec_table(&self) -> Map<
        Seq<char>,
        spec_fn(Seq<char>, RpcResources, Option<JsonVal>, Result<JsonVal, ErrorV>) -> bool,
    > {
        self.earlier.spec_table().union_prefer_right(self.later.spec_table())
    }

    open spec fn wf(&self) -> bool {
        self.earlier.wf() && self.later.wf()
    }

    fn is_route_for(&self, method: &str) -> (r: bool) {
        self.later.is_route_for(method) || self.earlier.is_route_for(method)
    }

    fn call(&self, method: &str, params: Option<Value>, rpc_resources: RpcResources) -> (r: Result<
        Value,
        Error,
    >) {
        if self.later.is_route_for(method) {
            self.later.call(method, params, rpc_resources)
        } else {
            self.earlier.call(method, params, rpc_resources)
        }
    }
}

/// Registers a typed handler under a name on top of an existing router; the
/// new registration wins the name.
pub fn add<Base, H, T, P, R>(base: Base, name: &str, handler: H) -> (r: RpcRouterJoin<
    Base,
    RpcRoute<H, T, P, R>,
>) where Base: RpcRouterTrait, H: RpcHandler<T, P, R>
    ensures
        r.spec_table() == base.spec_table().insert(name@, spec_handler_rel(handler)),
        base.wf() && handler.wf() ==> r.wf(),
{
    let w = RpcHandlerWrapper::new(handler);
    let route = RpcRoute::new(String::from_str(name), w);
    let r = RpcRouterJoin { earlier: base, later: route };
    proof {
        assert(r.spec_table() =~= base.spec_table().insert(name@, w.spec_invoke()));
    }
    r
}

/// Unions two routers; a name served by both resolves to the second
/// router's handler.
pub fn extend<A, B>(earlier: A, later: B) -> (r: RpcRouterJoin<A, B>) where
    A: RpcRouterTrait,
    B: RpcRouterTrait,

    ensures
        r.spec_table() == earlier.spec_table().union_prefer_right(later.spec_table()),
        earlier.wf() && later.wf() ==> r.wf(),
        r.earlier == earlier,
        r.later == later,
{
    RpcRouterJoin { earlier, later }
}

/// Composition is associative with respect to method-name resolution:
/// however three routers are paired up, the same table serves every name.
pub proof fn lemma_extend_associative<A, B, C>(a: A, b: B, c: C) where
    A: RpcRouterTrait,
    B: RpcRouterTrait,
    C: RpcRouterTrait,

    ensures
        (RpcRouterJoin { earlier: RpcRouterJoin { earlier: a, later: b }, later: c }).spec_table()
            == (RpcRouterJoin { earlier: a, later: RpcRouterJoin { earlier: b, later: c } }).spec_table(),
{
    assert(a.spec_table().union_prefer_right(b.spec_table()).union_prefer_right(c.spec_table())
        =~= a.spec_table().union_prefer_right(b.spec_table().union_prefer_right(c.spec_table())));
}

/// Composition is commutative with respect to method-name resolution for
/// every name the two routers do not both serve.
pub proof fn lemma_extend_commutative_no_conflict<A, B>(a: A, b: B, name: Seq<char>) where
    A: RpcRouterTrait,
    B: RpcRouterTrait,

    requires
        !(a.spec_table().dom().contains(name) && b.spec_table().dom().contains(name)),
    ensures
        (RpcRouterJoin { earlier: a, later: b }).spec_table().dom().contains(name)
            == (RpcRouterJoin { earlier: b, later: a }).spec_table().dom().contains(name),
        (RpcRouterJoin { earlier: a, later: b }).spec_table().dom().contains(name) ==> (RpcRouterJoin {
            earlier: a,
            later: b,
        }).spec_table()[name] == (RpcRouterJoin { earlier: b, later: a }).spec_table()[name],
{
}

/// The override case: a name served by both sides of a union resolves to
/// the handler of the later side.
pub proof fn lemma_extend_override<A, B>(a: A, b: B, name: Seq<char>) where
    A: RpcRouterTrait,
    B: RpcRouterTrait,

    requires
        b.spec_table().dom().contains(name),
    ensures
        (RpcRouterJoin { earlier: a, later: b }).spec_table().dom().contains(name),
        (RpcRouterJoin { earlier: a, later: b }).spec_table()[name] == b.spec_table()[name],
{
}

} // verus!
