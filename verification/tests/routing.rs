//! Unit tests for the pure pieces: identity check, query building and the
//! decision router.

use axum_casbin::{
    build_query, classify, is_supported_effect, pre_check, route, CasbinVals, EvaluationFailure,
    Outcome, PipelineAction, PreDecision, STATUS_BAD_GATEWAY, STATUS_FORBIDDEN,
    STATUS_UNAUTHORIZED,
};

#[test]
fn classify_covers_every_evaluator_answer() {
    assert_eq!(classify(&Ok(true)), Outcome::Allow);
    assert_eq!(classify(&Ok(false)), Outcome::Deny);
    assert_eq!(classify(&Err(EvaluationFailure)), Outcome::EvaluationError);
}

#[test]
fn route_maps_each_outcome_to_its_action() {
    assert_eq!(route(Outcome::Allow), PipelineAction::Forward);
    assert_eq!(
        route(Outcome::Deny),
        PipelineAction::ShortCircuit(STATUS_FORBIDDEN)
    );
    assert_eq!(
        route(Outcome::EvaluationError),
        PipelineAction::ShortCircuit(STATUS_BAD_GATEWAY)
    );
    assert_eq!(
        route(Outcome::Unauthenticated),
        PipelineAction::ShortCircuit(STATUS_UNAUTHORIZED)
    );
}

#[test]
fn status_codes_are_the_conventional_ones() {
    assert_eq!(STATUS_UNAUTHORIZED, 401);
    assert_eq!(STATUS_FORBIDDEN, 403);
    assert_eq!(STATUS_BAD_GATEWAY, 502);
}

#[test]
fn the_four_default_effector_forms_are_supported() {
    assert!(is_supported_effect(
        &"some(where (p_eft == allow))".to_string()
    ));
    assert!(is_supported_effect(
        &"!some(where (p_eft == deny))".to_string()
    ));
    assert!(is_supported_effect(
        &"some(where (p_eft == allow)) && !some(where (p_eft == deny))".to_string()
    ));
    assert!(is_supported_effect(&"priority(p_eft) || deny".to_string()));
}

#[test]
fn other_effect_forms_are_not_supported() {
    assert!(!is_supported_effect(
        &"some(where (p_eft == deny))".to_string()
    ));
    assert!(!is_supported_effect(&String::new()));
}

#[test]
fn query_without_domain_is_a_triple() {
    let vals = CasbinVals {
        subject: "alice".to_string(),
        domain: None,
    };
    let q = build_query(vals, "/pen/1".to_string(), "GET".to_string());
    assert_eq!(q, vec!["alice", "/pen/1", "GET"]);
}

#[test]
fn query_with_domain_is_a_quadruple() {
    let vals = CasbinVals {
        subject: "alice".to_string(),
        domain: Some("domain1".to_string()),
    };
    let q = build_query(vals, "/pen/1".to_string(), "GET".to_string());
    assert_eq!(q, vec!["alice", "domain1", "/pen/1", "GET"]);
}

#[test]
fn pre_check_refuses_missing_identity() {
    let d = pre_check(None, "/pen/1".to_string(), "GET".to_string());
    assert!(matches!(d, PreDecision::Unauthorized));
}

#[test]
fn pre_check_refuses_empty_subject_whatever_the_domain() {
    let vals = Some(CasbinVals {
        subject: String::new(),
        domain: Some("domain1".to_string()),
    });
    let d = pre_check(vals, "/pen/1".to_string(), "GET".to_string());
    assert!(matches!(d, PreDecision::Unauthorized));
}

#[test]
fn pre_check_builds_the_query_for_an_authenticated_caller() {
    let vals = Some(CasbinVals {
        subject: "alice".to_string(),
        domain: Some("domain1".to_string()),
    });
    let d = pre_check(vals, "/pen/1".to_string(), "GET".to_string());
    match d {
        PreDecision::Evaluate(q) => {
            assert_eq!(q, vec!["alice", "domain1", "/pen/1", "GET"]);
        }
        PreDecision::Unauthorized => panic!("authenticated caller was refused"),
    }
}
