//! The actor on whose behalf an operation runs.

use vstd::prelude::*;
use vstd::string::StringExecFns;

verus! {

/// Why a context could not be built.
#[derive(Debug, Clone, Copy, PartialEq, Eq, Structural)]
pub enum Error {
    /// Id 0 is reserved for the root context, which only `Ctx::root_ctx` makes.
    CtxCannotNewRootCtx,
}

pub type Result<T> = core::result::Result<T, Error>;

/// Who is acting: a user id and a display name.
#[derive(Clone, Debug)]
pub struct Ctx {
    pub user_id: i64,
    pub user_name: String,
}

impl Ctx {
    /// The id that marks the root context.
    pub open spec fn spec_root_id() -> i64 {
        0
    }

    /// The root context: id 0, name "root".
    pub fn root_ctx() -> (ctx: Self)
        ensures
            ctx.user_id == Self::spec_root_id(),
            ctx.user_name@ == "root"@,
    {
        Ctx { user_id: 0, user_name: String::from_str("root") }
    }

    /// A context for an ordinary user. Id 0 is refused; every other id is
    /// accepted and kept together with the name as given.
    pub fn new(user_id: i64, user_name: String) -> (r: Result<Self>)
        ensures
            user_id == Self::spec_root_id() <==> r is Err,
            r matches Err(e) ==> e == Error::CtxCannotNewRootCtx,
            r matches Ok(ctx) ==> ctx.user_id == user_id && ctx.user_name == user_name,
    {
        if user_id == 0 {
            Err(Error::CtxCannotNewRootCtx)
        } else {
            Ok(Self { user_id, user_name })
        }
    }
}

} // verus!
