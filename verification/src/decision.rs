//! Decision outcomes and the router that maps each outcome onto a
//! pipeline action.

use vstd::prelude::*;

verus! {

/// Status code returned when the request carries no usable identity.
pub const STATUS_UNAUTHORIZED: u16 = 401;

/// Status code returned when the policy denies the request.
pub const STATUS_FORBIDDEN: u16 = 403;

/// Status code returned when the evaluator itself failed, so the caller's
/// entitlement was never determined.
pub const STATUS_BAD_GATEWAY: u16 = 502;

/// The evaluator could not produce a decision (malformed rule, unreachable
/// policy store, evaluation error). Distinct from a legitimate deny.
#[derive(Clone, Copy, Debug, PartialEq, Eq, Structural)]
pub struct EvaluationFailure;

/// Classification of one request: allowed by policy, denied by policy,
/// evaluator failure, or no usable identity (the evaluator is then never
/// consulted).
#[derive(Clone, Copy, Debug, PartialEq, Eq, Structural)]
pub enum Outcome {
    Allow,
    Deny,
    EvaluationError,
    Unauthenticated,
}

/// What the middleware does with the request: hand it to the inner handler,
/// or stop here and answer with the given status code.
#[derive(Clone, Copy, Debug, PartialEq, Eq, Structural)]
pub enum PipelineAction {
    Forward,
    ShortCircuit(u16),
}

/// The outcome that an evaluator answer denotes: `Ok(true)` is an allow,
/// `Ok(false)` a deny, and an error means the entitlement was never
/// determined.
pub open spec fn outcome_of(result: Result<bool, EvaluationFailure>) -> Outcome {
    match result {
        Result::Ok(true) => Outcome::Allow,
        Result::Ok(false) => Outcome::Deny,
        Result::Err(_) => Outcome::EvaluationError,
    }
}

/// The single, central mapping from outcome to pipeline action: only an
/// allow forwards; every other outcome short-circuits with its own status.
pub open spec fn action_of(o: Outcome) -> PipelineAction {
    match o {
        Outcome::Allow => PipelineAction::Forward,
        Outcome::Deny => PipelineAction::ShortCircuit(STATUS_FORBIDDEN),
        Outcome::EvaluationError => PipelineAction::ShortCircuit(STATUS_BAD_GATEWAY),
        Outcome::Unauthenticated => PipelineAction::ShortCircuit(STATUS_UNAUTHORIZED),
    }
}

/// Classify the evaluator's answer. An error is reported, never retried
/// and never treated as either allow or deny.
pub fn classify(result: &Result<bool, EvaluationFailure>) -> (o: Outcome)
    ensures
        o == outcome_of(*result),
{
    match result {
        Result::Ok(true) => Outcome::Allow,
        Result::Ok(false) => Outcome::Deny,
        Result::Err(_) => Outcome::EvaluationError,
    }
}

/// Route an outcome to its pipeline action.
pub fn route(o: Outcome) -> (a: PipelineAction)
    ensures
        a == action_of(o),
{
    match o {
        Outcome::Allow => PipelineAction::Forward,
        Outcome::Deny => PipelineAction::ShortCircuit(STATUS_FORBIDDEN),
        Outcome::EvaluationError => PipelineAction::ShortCircuit(STATUS_BAD_GATEWAY),
        Outcome::Unauthenticated => PipelineAction::ShortCircuit(STATUS_UNAUTHORIZED),
    }
}

/// The inner handler runs exactly when the outcome is an allow: every
/// other outcome short-circuits, so the handler is never invoked
/// speculatively on a deny, an evaluator failure, or a missing identity.
pub proof fn lemma_forward_only_on_allow(o: Outcome)
    ensures
        action_of(o) is Forward <==> o is Allow,
{
}

/// For every possible evaluator answer, the classified-and-routed action
/// is determined exactly: the request is forwarded precisely when the
/// evaluator said allow, answered "forbidden" precisely when it said
/// deny, and answered "bad upstream" precisely when evaluation itself
/// failed — an evaluation failure is never treated as either allow or
/// deny.
pub proof fn lemma_decision_chain(r: Result<bool, EvaluationFailure>)
    ensures
        action_of(outcome_of(r)) == PipelineAction::Forward <==> r == Result::<
            bool,
            EvaluationFailure,
        >::Ok(true),
        action_of(outcome_of(r)) == PipelineAction::ShortCircuit(STATUS_FORBIDDEN) <==> r
            == Result::<bool, EvaluationFailure>::Ok(false),
        action_of(outcome_of(r)) == PipelineAction::ShortCircuit(STATUS_BAD_GATEWAY) <==> r is Err,
{
}

} // verus!
