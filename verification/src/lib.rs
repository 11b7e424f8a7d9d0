//! Signature matching, return-type inference, and kernel dispatch for a
//! family of polymorphic array functions inside a columnar query engine.
//!
//! The crate is the pure decision layer between planning and execution:
//! it validates a call's static argument types against a declared signature
//! pattern, computes the call's result type (tracking nested-list depth and
//! widening across arguments), and routes materialized column batches to the
//! type-specialized kernel that must carry out the work. The kernels
//! themselves, the SQL planner around this layer, and batch I/O are external
//! collaborators and stay outside the crate.

pub mod descriptor;
pub mod dispatch;
pub mod failure;
pub mod functions;
pub mod registry;
pub mod resolve;
pub mod signature;
pub mod types;
