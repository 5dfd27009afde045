use lisp_core::ast::{Callable, LispValue};
use lisp_core::builtins::register_builtins;
use lisp_core::env::Env;
use lisp_core::error::EvalError;
use lisp_core::eval::{eval_in, Evaluator};
use lisp_core::repl::{classify_line, classify_trimmed, LineAction, REPL};
use lisp_core::start_repl;

fn sym(s: &str) -> LispValue {
    LispValue::Symbol(s.to_string())
}

fn num(n: i64) -> LispValue {
    LispValue::Number(n)
}

fn list(items: Vec<LispValue>) -> LispValue {
    LispValue::List(items)
}

fn run(ev: &mut Evaluator, e: LispValue) -> Result<LispValue, EvalError> {
    ev.eval(&e)
}

#[test]
fn sum_of_numbers() {
    let mut ev = Evaluator::new();
    let r = run(&mut ev, list(vec![sym("+"), num(1), num(2), num(3), num(4)]));
    assert!(matches!(r, Ok(LispValue::Number(10))));
    let r = run(&mut ev, list(vec![sym("+")]));
    assert!(matches!(r, Ok(LispValue::Number(0))));
}

#[test]
fn difference_of_numbers() {
    let mut ev = Evaluator::new();
    let r = run(&mut ev, list(vec![sym("-"), num(10), num(1), num(2)]));
    assert!(matches!(r, Ok(LispValue::Number(7))));
    let r = run(&mut ev, list(vec![sym("-"), num(5)]));
    assert!(matches!(r, Ok(LispValue::Number(5))));
    let r = run(&mut ev, list(vec![sym("-"), num(5), sym("true")]));
    assert!(matches!(r, Err(EvalError::UnboundSymbol(_))));
    let r = run(&mut ev, list(vec![sym("-"), num(5), LispValue::Bool(true)]));
    assert!(matches!(r, Err(EvalError::TypeError(_))));
}

#[test]
fn unbound_symbol_fails() {
    let mut ev = Evaluator::new();
    let r = run(&mut ev, sym("nowhere"));
    assert!(matches!(r, Err(EvalError::UnboundSymbol(s)) if s == "nowhere"));
}

#[test]
fn define_then_set() {
    let mut ev = Evaluator::new();
    assert!(matches!(run(&mut ev, list(vec![sym("define"), sym("x"), num(5)])), Ok(LispValue::Nil)));
    assert!(matches!(run(&mut ev, sym("x")), Ok(LispValue::Number(5))));
    assert!(matches!(run(&mut ev, list(vec![sym("set!"), sym("x"), num(6)])), Ok(LispValue::Nil)));
    assert!(matches!(run(&mut ev, sym("x")), Ok(LispValue::Number(6))));
    let r = run(&mut ev, list(vec![sym("set!"), sym("y"), num(1)]));
    assert!(matches!(r, Err(EvalError::UnboundSymbol(_))));
}

#[test]
fn closure_sees_later_mutation() {
    let mut ev = Evaluator::new();
    run(&mut ev, list(vec![sym("define"), sym("x"), num(1)])).unwrap();
    run(&mut ev, list(vec![sym("define"), sym("g"), list(vec![sym("lambda"), list(vec![]), sym("x")])]))
        .unwrap();
    run(&mut ev, list(vec![sym("set!"), sym("x"), num(2)])).unwrap();
    let r = run(&mut ev, list(vec![sym("g")]));
    assert!(matches!(r, Ok(LispValue::Number(2))));
}

#[test]
fn lexical_scope_and_counters() {
    let mut ev = Evaluator::new();
    // (define make (lambda (n) (lambda () (begin (set! n (+ n 1)) n))))
    let counter_body = list(vec![
        sym("begin"),
        list(vec![sym("set!"), sym("n"), list(vec![sym("+"), sym("n"), num(1)])]),
        sym("n"),
    ]);
    let make = list(vec![sym("lambda"), list(vec![sym("n")]), list(vec![sym("lambda"), list(vec![]), counter_body])]);
    run(&mut ev, list(vec![sym("define"), sym("make"), make])).unwrap();
    run(&mut ev, list(vec![sym("define"), sym("c"), list(vec![sym("make"), num(10)])])).unwrap();
    assert!(matches!(run(&mut ev, list(vec![sym("c")])), Ok(LispValue::Number(11))));
    assert!(matches!(run(&mut ev, list(vec![sym("c")])), Ok(LispValue::Number(12))));
    // the parameter is not visible at top level
    assert!(matches!(run(&mut ev, sym("n")), Err(EvalError::UnboundSymbol(_))));
}

#[test]
fn if_branches() {
    let mut ev = Evaluator::new();
    let r = run(&mut ev, list(vec![sym("if"), LispValue::Bool(true), num(1), num(2)]));
    assert!(matches!(r, Ok(LispValue::Number(1))));
    let r = run(&mut ev, list(vec![sym("if"), LispValue::Bool(false), num(1), num(2)]));
    assert!(matches!(r, Ok(LispValue::Number(2))));
    let r = run(&mut ev, list(vec![sym("if"), LispValue::Nil, num(1)]));
    assert!(matches!(r, Ok(LispValue::Nil)));
    let r = run(&mut ev, list(vec![sym("if"), num(0), num(1), num(2)]));
    assert!(matches!(r, Ok(LispValue::Number(1))));
}

#[test]
fn quote_begin_and_empty_list() {
    let mut ev = Evaluator::new();
    let r = run(&mut ev, list(vec![sym("quote"), list(vec![sym("a"), num(1)])])).unwrap();
    assert_eq!(r.to_display(), "(a 1)");
    let r = run(&mut ev, list(vec![sym("begin"), num(1), num(2)]));
    assert!(matches!(r, Ok(LispValue::Number(2))));
    let r = run(&mut ev, list(vec![sym("begin")]));
    assert!(matches!(r, Ok(LispValue::Nil)));
    let r = run(&mut ev, list(vec![]));
    assert!(matches!(r, Ok(LispValue::Nil)));
}

#[test]
fn evaluation_errors() {
    let mut ev = Evaluator::new();
    let r = run(&mut ev, list(vec![num(1), num(2)]));
    assert!(matches!(r, Err(EvalError::TypeError(_))));
    let r = run(&mut ev, list(vec![sym("quote")]));
    assert!(matches!(r, Err(EvalError::ArgumentError(_))));
    let r = run(&mut ev, list(vec![sym("define"), num(1), num(2)]));
    assert!(matches!(r, Err(EvalError::TypeError(_))));
    let r = run(&mut ev, list(vec![sym("lambda"), list(vec![sym("a"), sym("a")]), sym("a")]));
    assert!(matches!(r, Err(EvalError::ArgumentError(_))));
    let r = run(&mut ev, list(vec![sym("lambda"), list(vec![num(1)]), sym("a")]));
    assert!(matches!(r, Err(EvalError::TypeError(_))));
    let f = list(vec![sym("lambda"), list(vec![sym("a")]), sym("a")]);
    let r = run(&mut ev, list(vec![f, num(1), num(2)]));
    assert!(matches!(r, Err(EvalError::ArgumentError(_))));
    // unbounded recursion runs out of depth instead of crashing
    let looping = list(vec![sym("lambda"), list(vec![]), list(vec![sym("self")])]);
    run(&mut ev, list(vec![sym("define"), sym("self"), looping])).unwrap();
    let r = run(&mut ev, list(vec![sym("self")]));
    assert!(matches!(r, Err(EvalError::EvalPanic(_))));
}

#[test]
fn closure_with_missing_frame() {
    let mut env = Env::new();
    register_builtins(&mut env);
    let stray = LispValue::Function(Callable::User(lisp_core::ast::UserFunction {
        params: vec![],
        body: Box::new(num(1)),
        env: 99,
    }));
    let r = eval_in(&mut env, &list(vec![list(vec![sym("quote"), stray])]), 0, 50);
    assert!(matches!(r, Err(EvalError::EvalPanic(_))));
}

#[test]
fn read_loop_responses() {
    let mut repl = start_repl();
    assert_eq!(repl.respond(&list(vec![sym("+"), num(1), num(2)])), "3");
    assert_eq!(repl.respond(&sym("zz")), "Eval error: UnboundSymbol(\"zz\")");
    let mut other = REPL::new(Evaluator::new());
    assert_eq!(other.respond(&list(vec![sym("quote"), list(vec![num(1), sym("x")])])), "(1 x)");
}

#[test]
fn line_actions() {
    assert_eq!(classify_line(""), LineAction::Skip);
    assert_eq!(classify_line("   \n"), LineAction::Skip);
    assert_eq!(classify_line("  :quit \n"), LineAction::Quit);
    assert_eq!(classify_line(":q\n"), LineAction::Quit);
    assert_eq!(classify_line("(+ 1 2)\n"), LineAction::Evaluate);
    assert_eq!(classify_trimmed(":q"), LineAction::Quit);
    assert_eq!(classify_trimmed(":quit"), LineAction::Quit);
    assert_eq!(classify_trimmed(" :q"), LineAction::Evaluate);
    assert_eq!(classify_trimmed(":qu"), LineAction::Evaluate);
    assert_eq!(classify_trimmed(""), LineAction::Skip);
    assert_eq!(classify_line("\u{3000}:q\u{a0}\t"), LineAction::Quit);
    assert_eq!(classify_line("\u{200b}:q"), LineAction::Evaluate);
}

#[test]
fn read_loop_scoping_lines() {
    let mut repl = start_repl();
    let h = list(vec![sym("lambda"), list(vec![]), sym("w")]);
    assert_eq!(repl.respond(&list(vec![sym("define"), sym("h"), h])), "nil");
    let k = list(vec![sym("lambda"), list(vec![sym("w")]), list(vec![sym("h")])]);
    assert_eq!(repl.respond(&list(vec![sym("define"), sym("k"), k])), "nil");
    assert_eq!(repl.respond(&list(vec![sym("k"), num(5)])), "Eval error: UnboundSymbol(\"w\")");
    assert_eq!(
        repl.respond(&list(vec![sym("define"), sym("y"), list(vec![sym("+"), num(1), sym("zz")])])),
        "Eval error: UnboundSymbol(\"zz\")"
    );
    assert_eq!(repl.respond(&sym("y")), "Eval error: UnboundSymbol(\"y\")");
    assert_eq!(
        repl.respond(&list(vec![sym("set!"), sym("q"), num(1)])),
        "Eval error: UnboundSymbol(\"q\")"
    );
    assert_eq!(repl.respond(&sym("q")), "Eval error: UnboundSymbol(\"q\")");
}
