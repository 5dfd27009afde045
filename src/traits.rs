//! The uniform invocation contract of callables, and the declared shape of
//! macros.
use vstd::prelude::*;
use crate::ast::{LispValue, Val};
use crate::env::{Env, vals_view};
use crate::error::{EvalError, Fault};

verus! {

/// The model of an evaluation outcome.
pub open spec fn outcome(r: Result<LispValue, EvalError>) -> Result<Val, Fault> {
    match r {
        Ok(v) => Ok(v@),
        Err(e) => Err(e@),
    }
}

/// A function invoked with already evaluated arguments; arity and type checks
/// are its own, reported as `ArgumentError` and `TypeError`.
pub trait LispCallable {
    /// What a call on arguments with these models returns.
    spec fn call_spec(&self, args: Seq<Val>) -> Result<Val, Fault>;

    fn call(&self, args: &[LispValue], env: &Env) -> (r: Result<LispValue, EvalError>)
        ensures
            outcome(r) == self.call_spec(vals_view(args@)),
    ;
}

/// A macro: receives unevaluated argument trees and returns a replacement
/// to be evaluated in the caller's environment.
pub trait LispMacro {
    fn expand(&self, args: &[LispValue], env: &Env) -> Result<LispValue, EvalError>;
}

} // verus!
