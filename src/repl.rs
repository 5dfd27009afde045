//! The read-loop's decisions: what a line asks for, and the text shown for
//! an evaluated expression.
use vstd::prelude::*;
use crate::ast::{display, LispValue};
use crate::error::{fault_text, EvalError};
use crate::eval::{eval_spec, Evaluator, MAX_DEPTH};

verus! {

/// What the read-loop does with one input line.
#[derive(PartialEq, Eq, Structural, Clone, Copy, Debug)]
pub enum LineAction {
    /// An empty line: read the next one.
    Skip,
    /// `:quit` or `:q`: leave the loop.
    Quit,
    /// Anything else: lex, parse and evaluate it.
    Evaluate,
}

/// The action for a line that has already been trimmed.
pub open spec fn line_action(t: Seq<char>) -> LineAction {
    if t.len() == 0 {
        LineAction::Skip
    } else if t == ":quit"@ || t == ":q"@ {
        LineAction::Quit
    } else {
        LineAction::Evaluate
    }
}

/// Unicode White_Space, which `char::is_whitespace` tests.
pub open spec fn is_ws(c: char) -> bool {
    ('\u{9}' <= c <= '\u{d}') || c == ' ' || c == '\u{85}' || c == '\u{a0}' || c == '\u{1680}'
        || ('\u{2000}' <= c <= '\u{200a}') || c == '\u{2028}' || c == '\u{2029}'
        || c == '\u{202f}' || c == '\u{205f}' || c == '\u{3000}'
}

/// The text without its leading white space.
pub open spec fn trim_start(s: Seq<char>) -> Seq<char>
    decreases s.len(),
{
    if s.len() > 0 && is_ws(s[0]) {
        trim_start(s.drop_first())
    } else {
        s
    }
}

/// The text without its trailing white space.
pub open spec fn trim_end(s: Seq<char>) -> Seq<char>
    decreases s.len(),
{
    if s.len() > 0 && is_ws(s.last()) {
        trim_end(s.drop_last())
    } else {
        s
    }
}

/// The text without leading and trailing white space.
pub open spec fn trimmed(s: Seq<char>) -> Seq<char> {
    trim_end(trim_start(s))
}

/// Relies on `str::trim`: removes leading and trailing White_Space.
#[verifier::external_body]
fn trim_text(s: &str) -> (r: &str)
    ensures
        r@ == trimmed(s@),
{
    s.trim()
}

/// The action for an already trimmed line.
pub fn classify_trimmed(t: &str) -> (r: LineAction)
    ensures
        r == line_action(t@),
{
    let owned = String::from_str(t);
    if t.unicode_len() == 0 {
        LineAction::Skip
    } else if owned == String::from_str(":quit") || owned == String::from_str(":q") {
        LineAction::Quit
    } else {
        LineAction::Evaluate
    }
}

/// The action for a raw input line: it is trimmed, then classified.
pub fn classify_line(line: &str) -> (r: LineAction)
    ensures
        r == line_action(trimmed(line@)),
{
    classify_trimmed(trim_text(line))
}

/// A read-loop session around an evaluator.
pub struct REPL {
    pub evaluator: Evaluator,
}

impl REPL {
    pub fn new(evaluator: Evaluator) -> (r: Self)
        ensures
            r.evaluator == evaluator,
    {
        Self { evaluator }
    }

    /// Evaluates `expr` and returns the line to show: the value's text, or
    /// `Eval error: <details>`.
    pub fn respond(&mut self, expr: &LispValue) -> (r: String)
        requires
            old(self).evaluator.wf(),
        ensures
            final(self).evaluator.wf(),
            ({
                let (fs, o) = eval_spec(MAX_DEPTH as nat, expr@, 0, old(self).evaluator.env@);
                &&& final(self).evaluator.env@ == fs
                &&& r@ == match o {
                    Ok(v) => display(v),
                    Err(x) => "Eval error: "@ + fault_text(x),
                }
            }),
    {
        match self.evaluator.eval(expr) {
            Ok(v) => v.to_display(),
            Err(x) => {
                let mut out = String::from_str("Eval error: ");
                let d = x.describe();
                out.append(d.as_str());
                out
            },
        }
    }
}

} // verus!
