//! The shared enforcer handle: reference-counted, lock-guarded joint
//! ownership of the policy evaluator.
//!
//! The handle is shared between the enforcement middleware and any
//! external holder (for example an administrative API that installs a
//! custom matching function or reloads policy): both see the same
//! evaluator, and every access — decision query or administrative
//! mutation — serializes on the same exclusive lock.

use vstd::prelude::*;

use std::sync::Arc;

verus! {

/// tokio's reader/writer lock, which guards the evaluator. Opaque: this
/// crate only stores it and hands it out; the asynchronous acquisition
/// happens in the surrounding transport code, which then passes the
/// evaluator exclusively to `enforce_request`.
#[verifier::external_type_specification]
#[verifier::external_body]
#[verifier::reject_recursive_types(T)]
pub struct ExRwLock<T: ?Sized>(tokio::sync::RwLock<T>);

/// Relies on `Clone` for `std::sync::Arc`: the clone is a new reference
/// to the very same shared value.
#[verifier::external_body]
fn clone_handle(v: &Arc<tokio::sync::RwLock<casbin::CachedEnforcer>>) -> (res: Arc<
    tokio::sync::RwLock<casbin::CachedEnforcer>,
>)
    ensures
        res == *v,
{
    v.clone()
}

/// The enforcement layer: holds the shared, lock-guarded evaluator
/// handle. Cloning the layer (one clone per wrapped service) shares the
/// same evaluator; the handle lives as long as the process.
#[derive(Clone)]
pub struct CasbinAxumLayer {
    enforcer: Arc<tokio::sync::RwLock<casbin::CachedEnforcer>>,
}

impl CasbinAxumLayer {
    /// The shared evaluator handle this layer was built around.
    pub closed spec fn handle(&self) -> Arc<tokio::sync::RwLock<casbin::CachedEnforcer>> {
        self.enforcer
    }

    /// Wrap an already-initialized, already-shared evaluator. This is how
    /// the evaluator stays jointly owned: the same handle may also be held
    /// by external code that mutates the evaluator live.
    pub fn set_enforcer(e: Arc<tokio::sync::RwLock<casbin::CachedEnforcer>>) -> (l: CasbinAxumLayer)
        ensures
            l.handle() == e,
    {
        CasbinAxumLayer { enforcer: e }
    }

    /// Obtain the shared evaluator handle, for administrative access
    /// (installing matching functions, reloading policy) alongside the
    /// middleware. The layer itself is unchanged.
    pub fn get_enforcer(&mut self) -> (e: Arc<tokio::sync::RwLock<casbin::CachedEnforcer>>)
        ensures
            e == old(self).handle(),
            *final(self) == *old(self),
    {
        clone_handle(&self.enforcer)
    }
}

} // verus!
