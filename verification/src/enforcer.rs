//! The policy evaluator and the full per-request enforcement path.
//!
//! The evaluator itself is casbin's caching enforcer, an opaque external
//! collaborator: this crate never looks inside it, it only hands it a
//! query and classifies the answer.

use vstd::prelude::*;

use casbin::CoreApi;

use crate::decision::{
    action_of, classify, route, EvaluationFailure, Outcome, PipelineAction, STATUS_UNAUTHORIZED,
};
use crate::identity::{authenticated, CasbinVals};
use crate::query::{pre_check, PreDecision};

verus! {

/// casbin's caching policy evaluator. Opaque: its policy, role graph and
/// decision cache are casbin's own business.
#[verifier::external_type_specification]
#[verifier::external_body]
pub struct ExCachedEnforcer(casbin::CachedEnforcer);

/// The policy-effect expressions that casbin's default effector accepts.
/// On any other expression the effector panics instead of returning an
/// error, so the enforcement path refuses to evaluate under a model whose
/// effect expression is not one of these four.
pub open spec fn supported_effect(e: Seq<char>) -> bool {
    ||| e == "some(where (p_eft == allow))"@
    ||| e == "!some(where (p_eft == deny))"@
    ||| e == "some(where (p_eft == allow)) && !some(where (p_eft == deny))"@
    ||| e == "priority(p_eft) || deny"@
}

/// Whether a policy-effect expression is one of the four forms casbin's
/// default effector supports.
pub fn is_supported_effect(expr: &String) -> (r: bool)
    ensures
        r == supported_effect(expr@),
{
    let some_allow: String = "some(where (p_eft == allow))".to_owned();
    let not_some_deny: String = "!some(where (p_eft == deny))".to_owned();
    let allow_and_not_deny: String =
        "some(where (p_eft == allow)) && !some(where (p_eft == deny))".to_owned();
    let priority: String = "priority(p_eft) || deny".to_owned();
    *expr == some_allow || *expr == not_some_deny || *expr == allow_and_not_deny || *expr
        == priority
}

/// Relies on casbin's `CoreApi::get_model` and `Model::get_model`: reads
/// the model's policy-effect expression (the `e` entry of the `e`
/// section), or `None` when the model defines none. Its value is the
/// evaluator's mutable state, so nothing is promised of it here.
#[verifier::external_body]
fn effect_expression(e: &casbin::CachedEnforcer) -> (r: Option<String>) {
    e.get_model().get_model().get("e").and_then(|section| section.get("e")).map(|a| a.value.clone())
}

/// Relies on casbin's `CoreApi::enforce_mut` for `CachedEnforcer`: it
/// evaluates the query against the loaded policy and returns `Ok(true)`
/// for an allow, `Ok(false)` for a deny, and an error when evaluation
/// itself failed. It may mutate the enforcer's decision cache as a side
/// effect, so it takes the evaluator exclusively. The answer depends on
/// the evaluator's mutable state, so nothing is promised of it here:
/// callers handle every outcome.
///
/// Relies further on the model's policy-effect expression being one of
/// the four forms casbin's default effector supports (`supported_effect`):
/// on any other expression the effector panics rather than erring. That
/// cannot be demanded in a `requires` over an opaque evaluator, so the one
/// caller checks the expression immediately before every call and routes
/// any other form to an evaluation failure instead of calling this.
#[verifier::external_body]
fn evaluate(e: &mut casbin::CachedEnforcer, query: Vec<String>) -> (r: Result<
    bool,
    EvaluationFailure,
>) {
    e.enforce_mut(query).map_err(|_| EvaluationFailure)
}

/// The whole enforcement step for one request, given exclusive access to
/// the evaluator: check the identity, build the query, consult the
/// evaluator, and route the outcome.
///
/// Exclusivity is demanded in the type: the evaluator is taken by `&mut`,
/// so two evaluations of the same evaluator can never overlap, nor can an
/// evaluation overlap an administrative mutation. The surrounding
/// transport obtains that exclusive access by holding the shared handle's
/// write lock for exactly the duration of this call.
///
/// A request without a usable identity short-circuits with "unauthorized"
/// and the evaluator is not consulted (the identity check produces no
/// query at all). For an authenticated request the action is exactly the
/// router's mapping of one of the three evaluator outcomes; in particular
/// the request is forwarded only when the evaluator answered with an
/// allow.
///
/// A model whose policy-effect expression is not one the default effector
/// supports counts as a malformed rule: it is reported as an evaluation
/// failure ("bad upstream") without consulting the evaluator, which would
/// otherwise panic on it. The check is made on every call, so an
/// administrative mutation that breaks the model after construction is
/// caught as well.
pub fn enforce_request(
    e: &mut casbin::CachedEnforcer,
    vals: Option<CasbinVals>,
    path: String,
    action: String,
) -> (a: PipelineAction)
    ensures
        !authenticated(vals) ==> a == PipelineAction::ShortCircuit(STATUS_UNAUTHORIZED),
        authenticated(vals) ==> (a == action_of(Outcome::Allow) || a == action_of(Outcome::Deny)
            || a == action_of(Outcome::EvaluationError)),
        a == PipelineAction::Forward ==> authenticated(vals),
{
    match pre_check(vals, path, action) {
        PreDecision::Unauthorized => route(Outcome::Unauthenticated),
        PreDecision::Evaluate(query) => {
            // A missing effect expression errs cleanly inside the
            // evaluator; only an unsupported one must be kept from it.
            let effect_ok = match effect_expression(e) {
                Option::Some(expr) => is_supported_effect(&expr),
                Option::None => true,
            };
            let result = if effect_ok {
                evaluate(e, query)
            } else {
                Result::Err(EvaluationFailure)
            };
            let outcome = classify(&result);
            route(outcome)
        }
    }
}

} // verus!
