//! The decisions of a policy-gated adoption, as a state machine.
//!
//! A driver evaluates every policy check, hands all their outcomes to [`step`]
//! at once, constructs the pet only when told to, and hands the construction's
//! outcome back. The machine never asks for construction after a failed check,
//! and never before every check has resolved.
use vstd::prelude::*;

use crate::AdoptionError;

verus! {

/// Where an adoption stands.
#[derive(Debug, Clone, Copy, PartialEq, Eq, Structural)]
pub enum AdoptionStage {
    /// Waiting for every policy check to resolve.
    CheckingPolicy,
    /// All checks passed; waiting for construction to resolve.
    Constructing,
    /// The adoption has its outcome.
    Finished,
}

/// What the driver reports back to the machine.
pub enum AdoptionEvent<T> {
    /// Every policy check has resolved, with these outcomes.
    PolicyResolved(Vec<Result<(), AdoptionError>>),
    /// Construction has resolved, with this outcome.
    Constructed(Result<T, AdoptionError>),
}

/// What the machine asks the driver to do next.
pub enum AdoptionAction<T> {
    /// Start construction and report its outcome.
    Construct,
    /// The adoption is over, with this outcome.
    Finish(Result<T, AdoptionError>),
}

/// Whether every check in `results` succeeded (vacuously so when there are none).
pub open spec fn policy_passes(results: Seq<Result<(), AdoptionError>>) -> bool {
    forall|i: int| 0 <= i < results.len() ==> results[i] is Ok
}

/// Whether the machine, in `stage`, accepts `event`.
pub open spec fn accepts<T>(stage: AdoptionStage, event: AdoptionEvent<T>) -> bool {
    match event {
        AdoptionEvent::PolicyResolved(_) => stage == AdoptionStage::CheckingPolicy,
        AdoptionEvent::Constructed(_) => stage == AdoptionStage::Constructing,
    }
}

/// The next stage and action once `event` arrives in a stage that accepts it.
pub open spec fn next<T>(event: AdoptionEvent<T>) -> (AdoptionStage, AdoptionAction<T>) {
    match event {
        AdoptionEvent::PolicyResolved(results) => if policy_passes(results@) {
            (AdoptionStage::Constructing, AdoptionAction::Construct)
        } else {
            (AdoptionStage::Finished, AdoptionAction::Finish(Err(AdoptionError)))
        },
        AdoptionEvent::Constructed(outcome) => (
            AdoptionStage::Finished,
            AdoptionAction::Finish(outcome),
        ),
    }
}

/// The outcome of a whole adoption whose checks resolved to `results`, and
/// whose construction, were it started, would resolve to `construction`.
pub open spec fn adoption_outcome<T>(
    results: Seq<Result<(), AdoptionError>>,
    construction: Result<T, AdoptionError>,
) -> Result<T, AdoptionError> {
    if policy_passes(results) {
        construction
    } else {
        Err(AdoptionError)
    }
}

/// Whether any check in `results` failed.
pub fn has_policy_failure(results: &Vec<Result<(), AdoptionError>>) -> (r: bool)
    ensures
        r == !policy_passes(results@),
{
    let mut i: usize = 0;
    while i < results.len()
        invariant
            i <= results@.len(),
            policy_passes(results@.take(i as int)),
        decreases results@.len() - i,
    {
        if results[i].is_err() {
            assert(results@[i as int] is Err);
            return true;
        }
        assert(results@.take(i as int + 1) =~= results@.take(i as int).push(results@[i as int]));
        i = i + 1;
    }
    assert(results@.take(i as int) =~= results@);
    false
}

/// Moves the adoption in `stage` on by `event`.
pub fn step<T>(stage: AdoptionStage, event: AdoptionEvent<T>) -> (r: (
    AdoptionStage,
    AdoptionAction<T>,
))
    requires
        accepts(stage, event),
    ensures
        r == next(event),
{
    match event {
        AdoptionEvent::PolicyResolved(results) => {
            if has_policy_failure(&results) {
                (AdoptionStage::Finished, AdoptionAction::Finish(Err(AdoptionError)))
            } else {
                (AdoptionStage::Constructing, AdoptionAction::Construct)
            }
        },
        AdoptionEvent::Constructed(outcome) => (AdoptionStage::Finished, AdoptionAction::Finish(outcome)),
    }
}

/// With no policy checks the adoption goes straight to construction and ends
/// with construction's own outcome: it succeeds exactly when construction does.
pub proof fn lemma_no_checks_constructs<T>(
    results: Vec<Result<(), AdoptionError>>,
    construction: Result<T, AdoptionError>,
)
    requires
        results@.len() == 0,
    ensures
        next::<T>(AdoptionEvent::PolicyResolved(results)) == (
            AdoptionStage::Constructing,
            AdoptionAction::<T>::Construct,
        ),
        next(AdoptionEvent::Constructed(construction)) == (
            AdoptionStage::Finished,
            AdoptionAction::Finish(construction),
        ),
        adoption_outcome(results@, construction) == construction,
        adoption_outcome(results@, construction) is Ok <==> construction is Ok,
{
}

/// When any check fails the adoption ends in the uniform error as soon as the
/// checks have resolved, and construction is never asked for.
pub proof fn lemma_failed_check_rejects<T>(
    results: Vec<Result<(), AdoptionError>>,
    construction: Result<T, AdoptionError>,
)
    requires
        exists|i: int| 0 <= i < results@.len() && results@[i] is Err,
    ensures
        next::<T>(AdoptionEvent::PolicyResolved(results)) == (
            AdoptionStage::Finished,
            AdoptionAction::<T>::Finish(Err(AdoptionError)),
        ),
        next::<T>(AdoptionEvent::PolicyResolved(results)).1 !is Construct,
        adoption_outcome(results@, construction) == Err::<T, AdoptionError>(AdoptionError),
{
}

/// When every check passes the adoption asks for construction and then ends
/// with whatever construction resolved to, success or error.
pub proof fn lemma_passing_checks_pass_through<T>(
    results: Vec<Result<(), AdoptionError>>,
    construction: Result<T, AdoptionError>,
)
    requires
        forall|i: int| 0 <= i < results@.len() ==> results@[i] is Ok,
    ensures
        next::<T>(AdoptionEvent::PolicyResolved(results)) == (
            AdoptionStage::Constructing,
            AdoptionAction::<T>::Construct,
        ),
        next(AdoptionEvent::Constructed(construction)) == (
            AdoptionStage::Finished,
            AdoptionAction::Finish(construction),
        ),
        adoption_outcome(results@, construction) == construction,
{
}

/// Adopting twice with the same check outcomes and the same construction
/// outcome gives the same decisions and the same result both times.
pub proof fn lemma_adoption_deterministic<T>(
    first: Vec<Result<(), AdoptionError>>,
    second: Vec<Result<(), AdoptionError>>,
    construction: Result<T, AdoptionError>,
)
    requires
        first@ == second@,
    ensures
        next::<T>(AdoptionEvent::PolicyResolved(first)) == next::<T>(
            AdoptionEvent::PolicyResolved(second),
        ),
        adoption_outcome(first@, construction) == adoption_outcome(second@, construction),
{
}

/// Driving the machine from its first stage yields the adoption's outcome:
/// either it finishes right after the checks, or it asks for construction
/// once and finishes with the outcome reported for it.
pub proof fn lemma_run_yields_outcome<T>(
    results: Vec<Result<(), AdoptionError>>,
    construction: Result<T, AdoptionError>,
)
    ensures
        accepts::<T>(AdoptionStage::CheckingPolicy, AdoptionEvent::PolicyResolved(results)),
        ({
            let (stage, action) = next::<T>(AdoptionEvent::PolicyResolved(results));
            match action {
                AdoptionAction::Construct => stage == AdoptionStage::Constructing && accepts(
                    stage,
                    AdoptionEvent::Constructed(construction),
                ) && next(AdoptionEvent::Constructed(construction)).1 == AdoptionAction::Finish(
                    adoption_outcome(results@, construction),
                ),
                AdoptionAction::Finish(r) => stage == AdoptionStage::Finished && r
                    == adoption_outcome(results@, construction),
            }
        }),
{
}

} // verus!
