//! The two failure kinds of the decision layer.
//!
//! A planning failure surfaces during query compilation, when a call's
//! static argument types lie outside a function's accepted domain. An
//! execution failure surfaces at run time, when a concrete type that the
//! static signature admitted has no matching kernel. The two are distinct
//! types on purpose: neither is ever downgraded into the other or into a
//! default value.

use vstd::prelude::*;

verus! {

/// Rejection of a call at plan-build time: the static argument types are
/// outside the function's accepted domain. Carries the function's public
/// name and a description of the accepted kinds.
#[derive(Debug)]
pub struct PlanningError {
    pub function: String,
    pub message: String,
}

impl PlanningError {
    /// The public name of the function that rejected the call.
    pub fn function_name(&self) -> (r: &String)
        ensures
            r@ == self.function@,
    {
        &self.function
    }

    /// The accepted kinds, as text.
    pub fn description(&self) -> (r: &String)
        ensures
            r@ == self.message@,
    {
        &self.message
    }
}

/// Rejection of a call at execution time: a runtime concrete type, although
/// compatible with the static signature, has no matching kernel. Carries the
/// function's public name and a description of the unsupported combination.
#[derive(Debug)]
pub struct ExecutionError {
    pub function: String,
    pub message: String,
}

impl ExecutionError {
    /// The public name of the function whose dispatch failed.
    pub fn function_name(&self) -> (r: &String)
        ensures
            r@ == self.function@,
    {
        &self.function
    }

    /// The unsupported combination, as text.
    pub fn description(&self) -> (r: &String)
        ensures
            r@ == self.message@,
    {
        &self.message
    }
}

/// Rejection at registry build time: two descriptors claim one name. A
/// configuration fault, distinct from both planning and execution failures.
#[derive(Debug)]
pub struct RegistryError {
    pub message: String,
}

} // verus!
