//! Request-time policy enforcement around a shared casbin evaluator.
//!
//! The crate decides, for each inbound request, whether the caller may
//! proceed to the inner handler: it reads the caller's identity, builds an
//! evaluation query, consults the policy evaluator, and classifies the
//! result into a pipeline action (forward, or short-circuit with a status).

mod decision;
mod enforcer;
mod identity;
mod layer;
mod query;

pub use decision::{
    action_of, outcome_of, classify, route, lemma_decision_chain, lemma_forward_only_on_allow,
    EvaluationFailure, Outcome, PipelineAction, STATUS_BAD_GATEWAY, STATUS_FORBIDDEN,
    STATUS_UNAUTHORIZED,
};
pub use enforcer::{enforce_request, is_supported_effect, supported_effect};
pub use identity::{authenticated, lemma_empty_subject_unauthenticated, CasbinVals};
pub use layer::CasbinAxumLayer;
pub use query::{build_query, domain_view, pre_check, query_of, PreDecision};
