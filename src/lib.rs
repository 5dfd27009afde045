//! Evaluation core of a small Lisp: values, a frame arena with closure capture,
//! built-in arithmetic and a depth-bounded evaluator.
pub mod ast;
pub mod error;
pub mod env;
pub mod traits;
pub mod builtins;
pub mod eval;
pub mod repl;
pub mod laws;

use vstd::prelude::*;

verus! {

/// A read-loop session over a fresh evaluator with the built-ins bound.
pub fn start_repl() -> (r: repl::REPL)
    ensures
        r.evaluator.wf(),
        r.evaluator.env@ == eval::initial_frames(),
{
    repl::REPL::new(eval::Evaluator::new())
}

} // verus!
