use vstd::prelude::*;
use crate::engine::EvalError;

verus! {

/// Status reported when the policy allows the request.
pub const STATUS_OK: u16 = 200;

/// Status reported when the policy denies the request.
pub const STATUS_FORBIDDEN: u16 = 403;

/// Status reported when the engine could not answer.
pub const STATUS_BAD_GATEWAY: u16 = 502;

/// The decision recorded for one request: the status to report, or `None`
/// when no evaluation produced one. Only `Some(STATUS_OK)` lets a handler run.
#[derive(Clone, Copy, Debug, PartialEq, Eq, Structural)]
pub struct CasbinGuard(pub Option<u16>);

/// What a route handler's guard observes.
#[derive(Clone, Copy, Debug, PartialEq, Eq, Structural)]
pub enum GuardOutcome {
    /// The handler may run.
    Success(CasbinGuard),
    /// The handler must not run; the request ends with this status.
    Failure(u16),
}

/// The decision that an evaluation result maps to.
pub open spec fn guard_of(r: Result<bool, EvalError>) -> CasbinGuard {
    match r {
        Ok(true) => CasbinGuard(Some(STATUS_OK)),
        Ok(false) => CasbinGuard(Some(STATUS_FORBIDDEN)),
        Err(_) => CasbinGuard(Some(STATUS_BAD_GATEWAY)),
    }
}

/// What the guard observes for a recorded decision: success only for an
/// explicit allow; a missing status fails with `STATUS_BAD_GATEWAY`.
pub open spec fn outcome_of(g: CasbinGuard) -> GuardOutcome {
    match g.0 {
        Some(s) => if s == STATUS_OK {
            GuardOutcome::Success(g)
        } else {
            GuardOutcome::Failure(s)
        },
        None => GuardOutcome::Failure(STATUS_BAD_GATEWAY),
    }
}

impl GuardOutcome {
    pub open spec fn is_success(self) -> bool {
        self is Success
    }
}

impl CasbinGuard {
    /// The placeholder of a request that was never evaluated.
    pub fn unevaluated() -> (r: CasbinGuard)
        ensures
            r == CasbinGuard(None),
    {
        CasbinGuard(None)
    }

    /// Maps an evaluation result to the decision to record: allowed, denied,
    /// or failed for want of an answer.
    pub fn for_evaluation(r: Result<bool, EvalError>) -> (g: CasbinGuard)
        ensures
            g == guard_of(r),
    {
        match r {
            Ok(true) => CasbinGuard(Some(STATUS_OK)),
            Ok(false) => CasbinGuard(Some(STATUS_FORBIDDEN)),
            Err(_) => CasbinGuard(Some(STATUS_BAD_GATEWAY)),
        }
    }

    /// What a handler guarded by this decision observes.
    pub fn outcome(&self) -> (o: GuardOutcome)
        ensures
            o == outcome_of(*self),
    {
        match self.0 {
            Some(s) => if s == STATUS_OK {
                GuardOutcome::Success(CasbinGuard(Some(STATUS_OK)))
            } else {
                GuardOutcome::Failure(s)
            },
            None => GuardOutcome::Failure(STATUS_BAD_GATEWAY),
        }
    }

    /// The status a response carries under this decision.
    pub fn status(&self) -> (s: u16)
        ensures
            s == match outcome_of(*self) {
                GuardOutcome::Success(_) => STATUS_OK,
                GuardOutcome::Failure(code) => code,
            },
    {
        match self.outcome() {
            GuardOutcome::Success(_) => STATUS_OK,
            GuardOutcome::Failure(code) => code,
        }
    }
}

/// Each evaluation result maps to its own outcome: an allow succeeds, a
/// denial fails with `STATUS_FORBIDDEN`, an error fails with
/// `STATUS_BAD_GATEWAY`, so a denial and an engine failure stay apart.
pub proof fn lemma_result_mapping(r: Result<bool, EvalError>)
    ensures
        outcome_of(guard_of(r)) == match r {
            Ok(true) => GuardOutcome::Success(CasbinGuard(Some(STATUS_OK))),
            Ok(false) => GuardOutcome::Failure(STATUS_FORBIDDEN),
            Err(_) => GuardOutcome::Failure(STATUS_BAD_GATEWAY),
        },
        outcome_of(guard_of(r)).is_success() <==> r == Ok::<bool, EvalError>(true),
{
}

} // verus!
