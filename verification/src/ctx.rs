//! The identity context of a call: who the caller is.

use vstd::prelude::*;

verus! {

/// An error of this module.
#[derive(Clone, Copy, PartialEq, Eq, Structural, Debug)]
pub enum CtxError {
    CtxCannotNewRootCtx,
}

/// The authenticated identity a call runs under. The nil identifier is the
/// root context, reserved for the system itself.
#[derive(Clone, Copy, PartialEq, Eq, Structural, Debug)]
pub struct Ctx {
    user_id: u128,
}

impl Ctx {
    /// The identifier, for contracts.
    pub closed spec fn spec_user_id(self) -> u128 {
        self.user_id
    }

    /// The system's own context.
    pub fn root_ctx() -> (r: Self)
        ensures
            r.spec_user_id() == 0,
    {
        Ctx { user_id: 0 }
    }

    /// A user context; the nil identifier is refused.
    pub fn new(user_id: u128) -> (r: Result<Self, CtxError>)
        ensures
            user_id == 0 ==> (r matches Err(e) && e == CtxError::CtxCannotNewRootCtx),
            user_id != 0 ==> (r matches Ok(c) && c.spec_user_id() == user_id),
    {
        if user_id == 0 {
            Err(CtxError::CtxCannotNewRootCtx)
        } else {
            Ok(Ctx { user_id })
        }
    }

    pub fn user_id(&self) -> (r: u128)
        ensures
            r == self.spec_user_id(),
    {
        self.user_id
    }
}

} // verus!
