//! The identity context attached to a request by an upstream
//! authentication step.

use vstd::prelude::*;

verus! {

/// Identity of the authenticated caller: a subject name and an optional
/// domain (tenancy) qualifier. Attached to a request before it reaches the
/// enforcement middleware; absence means no authentication was performed.
#[derive(Clone)]
pub struct CasbinVals {
    pub subject: String,
    pub domain: Option<String>,
}

/// An identity context authenticates the caller only when it is present
/// and its subject is non-empty. An empty subject is deliberately treated
/// exactly like a missing context: empty-string identities are never
/// authorized.
pub open spec fn authenticated(vals: Option<CasbinVals>) -> bool {
    match vals {
        Option::Some(v) => v.subject@.len() > 0,
        Option::None => false,
    }
}

/// An identity context with an empty subject never authenticates the
/// caller, whatever domain it carries; with `pre_check`'s contract, such
/// a request is refused as unauthorized whatever the resource or action.
pub proof fn lemma_empty_subject_unauthenticated(vals: CasbinVals)
    requires
        vals.subject@.len() == 0,
    ensures
        !authenticated(Option::Some(vals)),
{
}

} // verus!
