use vstd::prelude::*;
use casbin::{CachedEnforcer, CoreApi};
use std::sync::{RwLock, RwLockWriteGuard};

verus! {

#[verifier::external_type_specification]
#[verifier::external_body]
pub struct ExCachedEnforcer(CachedEnforcer);

#[verifier::external_type_specification]
#[verifier::external_body]
pub struct ExCasbinError(casbin::Error);

#[verifier::external_type_specification]
#[verifier::external_body]
#[verifier::reject_recursive_types(T)]
pub struct ExRwLock<T: ?Sized>(RwLock<T>);

#[verifier::external_type_specification]
#[verifier::external_body]
#[verifier::reject_recursive_types(T)]
pub struct ExRwLockWriteGuard<'a, T: ?Sized + 'a>(RwLockWriteGuard<'a, T>);

/// Why an evaluation produced no answer.
#[derive(Clone, Copy, Debug, PartialEq, Eq, Structural)]
pub enum EvalError {
    /// The engine reported an error (a request of the wrong arity, a broken model).
    Engine,
    /// The lock was poisoned: an earlier evaluation panicked while holding it.
    Unavailable,
}

/// Relies on `std::sync::RwLock::write`: blocks until no other holder remains and
/// hands out exclusive access; `None` where the lock is poisoned. The lock is
/// never taken twice on one thread here: `evaluate` is its only caller and
/// releases it before returning.
#[verifier::external_body]
fn lock_exclusive(engine: &RwLock<CachedEnforcer>) -> (r: Option<RwLockWriteGuard<'_, CachedEnforcer>>) {
    match engine.write() {
        Ok(guard) => Some(guard),
        Err(_) => None,
    }
}

/// Relies on casbin's `CachedEnforcer::enforce_mut`: evaluates the request
/// values against the loaded policy. The guard is dropped on return, so the
/// engine is released as soon as the answer is known.
#[verifier::external_body]
fn enforce_and_release(mut guard: RwLockWriteGuard<'_, CachedEnforcer>, vals: Vec<String>) -> (r: Result<bool, casbin::Error>) {
    guard.enforce_mut(vals)
}

/// Evaluates `vals` once on the shared engine, holding its lock only for the
/// evaluation itself. An engine error or a poisoned lock is an `Err`.
pub fn evaluate(engine: &RwLock<CachedEnforcer>, vals: Vec<String>) -> (r: Result<bool, EvalError>) {
    match lock_exclusive(engine) {
        Some(guard) => match enforce_and_release(guard, vals) {
            Ok(allowed) => Ok(allowed),
            Err(_) => Err(EvalError::Engine),
        },
        None => Err(EvalError::Unavailable),
    }
}

} // verus!
