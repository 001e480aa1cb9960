use vstd::prelude::*;
use crate::engine::EvalError;
use crate::guard::{guard_of, outcome_of, CasbinGuard, GuardOutcome};

verus! {

/// The decision slot of one request. It starts empty, takes one decision,
/// and keeps that decision for the rest of the request.
#[derive(Debug)]
pub struct DecisionCache {
    slot: Option<CasbinGuard>,
}

impl View for DecisionCache {
    type V = Option<CasbinGuard>;

    closed spec fn view(&self) -> Option<CasbinGuard> {
        self.slot
    }
}

/// The slot after `g` is offered to it: the first decision stays.
pub open spec fn recorded(s: Option<CasbinGuard>, g: CasbinGuard) -> Option<CasbinGuard> {
    match s {
        Some(_) => s,
        None => Some(g),
    }
}

/// What a read of the slot returns: its decision, or the placeholder of an
/// unevaluated request.
pub open spec fn read_of(s: Option<CasbinGuard>) -> CasbinGuard {
    match s {
        Some(g) => g,
        None => CasbinGuard(None),
    }
}

impl DecisionCache {
    /// An empty slot, for a request that has not been evaluated.
    pub fn new() -> (c: DecisionCache)
        ensures
            c@ is None,
    {
        DecisionCache { slot: None }
    }

    /// Whether the slot already holds a decision.
    pub fn is_evaluated(&self) -> (b: bool)
        ensures
            b == self@ is Some,
    {
        self.slot.is_some()
    }

    /// Offers `g` to the slot and returns the decision that stands: `g` when
    /// the slot was empty, the earlier decision otherwise.
    pub fn record(&mut self, g: CasbinGuard) -> (stored: CasbinGuard)
        ensures
            final(self)@ == recorded(old(self)@, g),
            Some(stored) == final(self)@,
    {
        match self.slot {
            Some(prev) => prev,
            None => {
                self.slot = Some(g);
                g
            },
        }
    }

    /// Records the decision that an evaluation result maps to, unless the
    /// request already has one.
    pub fn record_result(&mut self, r: Result<bool, EvalError>)
        ensures
            final(self)@ == recorded(old(self)@, guard_of(r)),
    {
        let g = CasbinGuard::for_evaluation(r);
        self.record(g);
    }

    /// The decision of the request. An unevaluated request gets the
    /// placeholder, which is then kept, so later reads and a late
    /// evaluation cannot turn it into a success.
    pub fn get_or_default(&mut self) -> (g: CasbinGuard)
        ensures
            g == read_of(old(self)@),
            final(self)@ == Some(g),
    {
        let placeholder = CasbinGuard::unevaluated();
        self.record(placeholder)
    }
}

impl CasbinGuard {
    /// The guard of a route handler: reads the request's decision and tells
    /// whether the handler may run.
    pub fn from_request(cache: &mut DecisionCache) -> (o: GuardOutcome)
        ensures
            o == outcome_of(read_of(old(cache)@)),
            final(cache)@ == Some(read_of(old(cache)@)),
    {
        let g = cache.get_or_default();
        g.outcome()
    }
}

/// A request whose decision was never recorded fails at the guard: the
/// handler does not run.
pub proof fn lemma_fail_closed(s: Option<CasbinGuard>)
    requires
        s is None,
    ensures
        !outcome_of(read_of(s)).is_success(),
        outcome_of(read_of(s)) == GuardOutcome::Failure(crate::guard::STATUS_BAD_GATEWAY),
{
}

/// Once a request has a decision, offering it any further decision changes
/// nothing: the first evaluation is the only one that counts.
pub proof fn lemma_write_once(s: Option<CasbinGuard>, a: CasbinGuard, b: CasbinGuard)
    ensures
        recorded(recorded(s, a), b) == recorded(s, a),
        s is Some ==> recorded(s, a) == s,
{
}

/// Reading the decision twice gives the same result both times, and the
/// second read leaves the slot as the first left it.
pub proof fn lemma_read_idempotent(s: Option<CasbinGuard>)
    ensures
        read_of(Some(read_of(s))) == read_of(s),
        outcome_of(read_of(Some(read_of(s)))) == outcome_of(read_of(s)),
        recorded(Some(read_of(s)), CasbinGuard(None)) == Some(read_of(s)),
{
}

} // verus!
