//! The per-call resource bag, and the extraction of typed values from it.
//!
//! The transport layer builds one bag per inbound call; a handler's declared
//! resources are pulled out of it one by one, and the call fails on the
//! first that is absent.

use vstd::prelude::*;

use crate::ctx::Ctx;
use crate::error::{Error, ErrorV, ResourceKind};

verus! {

/// A handle on the data-access layer. The core never looks inside it; it is
/// handed to handlers as they ask for it.
#[derive(Clone, Copy, PartialEq, Eq, Structural, Debug)]
pub struct ModelManager {}

impl ModelManager {
    pub fn new() -> (r: Self)
        ensures
            r == (ModelManager {  }),
    {
        ModelManager {  }
    }
}

/// The resource bag of one call: read-only while the call runs, discarded
/// after it.
#[derive(Clone, Copy, PartialEq, Eq, Structural, Debug)]
pub struct RpcResources {
    pub ctx: Option<Ctx>,
    pub mm: ModelManager,
}

/// A type a handler can take out of the resource bag.
pub trait FromResources: Sized {
    /// Which value the bag yields for this type, or which resource is
    /// reported missing.
    spec fn spec_from_resources(resources: RpcResources) -> Result<Self, ResourceKind>;

    fn from_resources(rpc_resources: &RpcResources) -> (r: Result<Self, Error>)
        ensures
            match Self::spec_from_resources(*rpc_resources) {
                Ok(v) => r matches Ok(x) && x == v,
                Err(k) => r matches Err(e) && e@ == ErrorV::ResourceMissing(k),
            },
    ;
}

impl FromResources for Ctx {
    open spec fn spec_from_resources(resources: RpcResources) -> Result<Self, ResourceKind> {
        match resources.ctx {
            Some(c) => Ok(c),
            None => Err(ResourceKind::Ctx),
        }
    }

    fn from_resources(rpc_resources: &RpcResources) -> (r: Result<Self, Error>) {
        match rpc_resources.ctx {
            Some(c) => Ok(c),
            None => Err(Error::ResourceMissing(ResourceKind::Ctx)),
        }
    }
}

impl FromResources for ModelManager {
    open spec fn spec_from_resources(resources: RpcResources) -> Result<Self, ResourceKind> {
        Ok(resources.mm)
    }

    fn from_resources(rpc_resources: &RpcResources) -> (r: Result<Self, Error>) {
        Ok(rpc_resources.mm)
    }
}

} // verus!
