//! Building the evaluation query for one request, and the identity check
//! that runs before the evaluator is ever consulted.

use vstd::prelude::*;

use crate::identity::{authenticated, CasbinVals};

verus! {

/// The optional domain, as the sequence of its characters.
pub open spec fn domain_view(domain: Option<String>) -> Option<Seq<char>> {
    match domain {
        Option::Some(d) => Option::Some(d@),
        Option::None => Option::None,
    }
}

/// The evaluation query for one request: `[subject, domain, path, action]`
/// when the identity carries a domain, `[subject, path, action]` when it
/// does not. The arity is part of the request contract: it must match the
/// evaluator's schema.
pub open spec fn query_of(
    subject: Seq<char>,
    domain: Option<Seq<char>>,
    path: Seq<char>,
    action: Seq<char>,
) -> Seq<Seq<char>> {
    match domain {
        Option::Some(d) => seq![subject, d, path, action],
        Option::None => seq![subject, path, action],
    }
}

/// What the middleware decides before touching the evaluator: either the
/// request carries no usable identity and is refused outright, or the
/// query to hand to the evaluator.
pub enum PreDecision {
    Unauthorized,
    Evaluate(Vec<String>),
}

/// Build the evaluation query from an authenticated identity and the
/// request's path and action.
pub fn build_query(vals: CasbinVals, path: String, action: String) -> (q: Vec<String>)
    ensures
        q.deep_view() == query_of(vals.subject@, domain_view(vals.domain), path@, action@),
{
    let mut q: Vec<String> = Vec::new();
    let ghost target = query_of(vals.subject@, domain_view(vals.domain), path@, action@);
    q.push(vals.subject);
    match vals.domain {
        Option::Some(d) => {
            q.push(d);
            q.push(path);
            q.push(action);
            proof {
                assert(q.deep_view() =~= target);
            }
        }
        Option::None => {
            q.push(path);
            q.push(action);
            proof {
                assert(q.deep_view() =~= target);
            }
        }
    }
    q
}

/// Check the identity and build the query. A missing identity context and
/// one with an empty subject are refused identically, and in neither case
/// is any query produced: the evaluator is never consulted for such a
/// request.
pub fn pre_check(vals: Option<CasbinVals>, path: String, action: String) -> (d: PreDecision)
    ensures
        !authenticated(vals) ==> d is Unauthorized,
        authenticated(vals) ==> (d matches PreDecision::Evaluate(q) && q.deep_view()
            == query_of(
            vals.unwrap().subject@,
            domain_view(vals.unwrap().domain),
            path@,
            action@,
        )),
{
    match vals {
        Option::None => PreDecision::Unauthorized,
        Option::Some(v) => {
            if v.subject.as_str().is_empty() {
                PreDecision::Unauthorized
            } else {
                PreDecision::Evaluate(build_query(v, path, action))
            }
        }
    }
}

} // verus!
