//! The configuration that the host hands to a directive handler.

use crate::host::pool::{Pool, PoolRef, PoolState};
use crate::host::string::NgxStr;
use crate::http::conf::{HttpConfCtx, HttpModuleConfType, NgxHttpConfExt};
use vstd::prelude::*;

verus! {

/// The host's configuration object, as a directive handler sees it. A
/// module never makes or owns one.
pub struct NgxConfRef {
    args: Option<Vec<NgxStr>>,
    pool: Pool,
    ctx: Option<HttpConfCtx>,
}

impl NgxConfRef {
    /// The arguments of the directive, where the host has set any.
    pub closed spec fn spec_args(&self) -> Option<Seq<NgxStr>> {
        match self.args {
            Some(v) => Some(v@),
            None => None,
        }
    }

    /// The state of the configuration pool.
    pub closed spec fn spec_pool(&self) -> PoolState {
        self.pool@
    }

    /// The HTTP configuration context, where the directive is inside one.
    pub closed spec fn spec_ctx(&self) -> Option<HttpConfCtx> {
        self.ctx
    }

    /// A configuration object with these arguments, pool and context.
    pub fn new(args: Option<Vec<NgxStr>>, pool: Pool, ctx: Option<HttpConfCtx>) -> (cf: Self)
        ensures
            cf.spec_args() == match args {
                Some(v) => Some(v@),
                None => None,
            },
            cf.spec_pool() == pool@,
            cf.spec_ctx() == ctx,
    {
        NgxConfRef { args, pool, ctx }
    }

    /// The arguments of the current directive: none where the host has set
    /// none.
    pub fn args(&self) -> (r: &[NgxStr])
        ensures
            self.spec_args() matches Some(v) ==> r@ == v,
            self.spec_args() is None ==> r@.len() == 0,
    {
        match &self.args {
            Some(v) => v.as_slice(),
            None => &[],
        }
    }

    /// The configuration pool.
    pub fn pool(&mut self) -> (r: &mut PoolRef)
        ensures
            r@ == old(self).spec_pool(),
            final(self).spec_pool() == final(r)@,
            final(self).spec_args() == old(self).spec_args(),
            final(self).spec_ctx() == old(self).spec_ctx(),
    {
        self.pool.as_mut()
    }

    /// The HTTP configuration context, where the directive is inside one.
    pub fn ctx(&self) -> (r: Option<&HttpConfCtx>)
        ensures
            self.spec_ctx() matches Some(c) ==> r == Some(&c),
            self.spec_ctx() is None ==> r.is_none(),
    {
        self.ctx.as_ref()
    }
}

impl NgxHttpConfExt for NgxConfRef {
    open spec fn serves(&self, context: HttpModuleConfType) -> bool {
        true
    }

    open spec fn table(&self, context: HttpModuleConfType) -> Option<Seq<Option<usize>>> {
        match self.spec_ctx() {
            Some(c) => c.table(context),
            None => None,
        }
    }

    fn get_http_module_conf_unchecked(&self, context: HttpModuleConfType, ctx_index: usize) -> (r:
        Option<usize>) {
        match &self.ctx {
            Some(c) => {
                assert(self.table(context) == c.table(context));
                c.get_http_module_conf_unchecked(context, ctx_index)
            },
            None => {
                assert(self.table(context).is_none());
                None
            },
        }
    }
}

} // verus!
