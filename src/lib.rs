//! Policy enforcement for web requests: a shared, lock-guarded casbin engine,
//! a write-once decision slot per request, and the guard that route handlers
//! consult before they run.

mod cache;
mod engine;
mod guard;
mod middleware;

pub use cache::{
    lemma_fail_closed, lemma_read_idempotent, lemma_write_once, read_of, recorded, DecisionCache,
};
pub use engine::{evaluate, EvalError};
pub use guard::{
    guard_of, lemma_result_mapping, outcome_of, CasbinGuard, GuardOutcome, STATUS_BAD_GATEWAY,
    STATUS_FORBIDDEN, STATUS_OK,
};
pub use middleware::CasbinMiddleware;
