use vstd::prelude::*;
use casbin::CachedEnforcer;
use std::sync::{Arc, RwLock};
use crate::cache::{recorded, DecisionCache};
use crate::engine::{evaluate, EvalError};
use crate::guard::guard_of;

verus! {

/// Authorization of requests of type `R` against one shared casbin engine.
///
/// An implementation says which values of a request the policy model reads
/// and which engine to ask; `enforce` does the rest.
pub trait CasbinMiddleware<R> {
    /// The values handed to the engine, usually `[subject, object, action]`,
    /// in the order of the model's request definition.
    fn casbin_vals(&self, req: &R) -> Vec<String>;

    /// The process-wide engine, shared by every request.
    fn cached_enforcer(&self) -> Arc<RwLock<CachedEnforcer>>;

    /// Authorizes `req` and records the decision in its slot. A request that
    /// already has a decision keeps it, and the engine is not asked again;
    /// otherwise the engine is asked once and the slot then holds the
    /// decision that its answer maps to.
    fn enforce(&self, req: &R, cache: &mut DecisionCache)
        ensures
            old(cache)@ is Some ==> final(cache)@ == old(cache)@,
            old(cache)@ is None ==> exists|r: Result<bool, EvalError>|
                final(cache)@ == recorded(old(cache)@, guard_of(r)),
    {
        if cache.is_evaluated() {
            return;
        }
        let vals = self.casbin_vals(req);
        let engine = self.cached_enforcer();
        let result = evaluate(&engine, vals);
        cache.record_result(result);
    }
}

} // verus!
