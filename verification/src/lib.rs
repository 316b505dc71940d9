//! Core of a static type checker for a gradually-typed, structural,
//! JavaScript-family language: a semantic analyzer that walks a parsed
//! module, computes structural types for declarations and expressions,
//! validates them, and collects diagnostics.

pub mod analyzer;
pub mod assign;
pub mod ast;
pub mod class;
pub mod errors;
pub mod expr;
pub mod scope;
pub mod subst;
pub mod ty;

use vstd::prelude::*;

verus! {

} // verus!
