use lisp_core::ast::{Callable, LispValue, UserFunction};
use lisp_core::builtins::{AddFn, SubFn};
use lisp_core::env::Env;
use lisp_core::error::{EvalError, LexError, LispError, ParseError};
use lisp_core::traits::LispCallable;

#[test]
fn test_number() {
    let n = LispValue::Number(42);
    assert_eq!(n.to_display(), "42");
}

#[test]
fn test_symbol() {
    let s = LispValue::Symbol("foo".to_string());
    assert_eq!(s.to_display(), "foo");
}

#[test]
fn test_list() {
    let lst = LispValue::List(vec![LispValue::Number(1), LispValue::Symbol("x".to_string())]);
    assert_eq!(lst.to_display(), "(1 x)");
}

#[test]
fn test_nil() {
    let nil = LispValue::Nil;
    assert_eq!(nil.to_display(), "nil");
}

#[test]
fn test_string_value() {
    let s = LispValue::String("hello".to_string());
    assert_eq!(s.to_display(), "\"hello\"");
    assert!(s == LispValue::String("hello".to_string()));
}

#[test]
fn test_add() {
    let f = AddFn;
    let args = [LispValue::Number(1), LispValue::Number(2)];
    let env = Env::new();
    let result = f.call(&args, &env);
    assert!(matches!(result, Ok(LispValue::Number(3))));
}

#[test]
fn test_sub() {
    let f = SubFn;
    let args = [LispValue::Number(5), LispValue::Number(3)];
    let env = Env::new();
    let result = f.call(&args, &env);
    assert!(matches!(result, Ok(LispValue::Number(2))));
}

#[test]
fn test_lex_error() {
    let err = LexError::UnexpectedChar('!');
    assert_eq!(format!("{:?}", err), "UnexpectedChar('!')");
}

#[test]
fn test_lisp_error_display() {
    let err = LispError::Eval(EvalError::UnboundSymbol("foo".into()));
    assert!(err.to_display().contains("Eval error"));
}

#[test]
fn display_of_other_values() {
    assert_eq!(LispValue::Number(-120).to_display(), "-120");
    assert_eq!(LispValue::Number(0).to_display(), "0");
    assert_eq!(LispValue::Number(i64::MIN).to_display(), "-9223372036854775808");
    assert_eq!(LispValue::Bool(true).to_display(), "true");
    assert_eq!(LispValue::Bool(false).to_display(), "false");
    assert_eq!(LispValue::List(vec![]).to_display(), "()");
    assert_eq!(LispValue::Function(Callable::Add(AddFn)).to_display(), "<function>");
    let nested = LispValue::List(vec![
        LispValue::Symbol("a".to_string()),
        LispValue::List(vec![LispValue::Number(2), LispValue::String("s".to_string())]),
        LispValue::Nil,
    ]);
    assert_eq!(nested.to_display(), "(a (2 \"s\") nil)");
}

#[test]
fn structural_equality() {
    let a = LispValue::List(vec![LispValue::Number(1), LispValue::Symbol("x".to_string())]);
    let b = LispValue::List(vec![LispValue::Number(1), LispValue::Symbol("x".to_string())]);
    let c = LispValue::List(vec![LispValue::Number(1), LispValue::Symbol("y".to_string())]);
    assert!(a == b);
    assert!(a != c);
    assert!(LispValue::Nil == LispValue::Nil);
    assert!(LispValue::Bool(true) != LispValue::Nil);
    assert!(LispValue::String("x".to_string()) != LispValue::Symbol("x".to_string()));
}

#[test]
fn functions_are_never_equal() {
    let add = LispValue::Function(Callable::Add(AddFn));
    assert!(add != add);
    assert!(add != LispValue::Function(Callable::Add(AddFn)));
    let u = LispValue::Function(Callable::User(UserFunction {
        params: vec![],
        body: Box::new(LispValue::Nil),
        env: 0,
    }));
    assert!(u != u.duplicate());
    assert!(u != LispValue::Nil);
    assert!(LispValue::List(vec![add.duplicate()]) != LispValue::List(vec![add]));
}

#[test]
fn builtin_errors() {
    let env = Env::new();
    let bad = [LispValue::Number(1), LispValue::Bool(true)];
    assert!(matches!(AddFn.call(&bad, &env), Err(EvalError::TypeError(_))));
    assert!(matches!(SubFn.call(&bad, &env), Err(EvalError::TypeError(_))));
    assert!(matches!(AddFn.call(&[], &env), Ok(LispValue::Number(0))));
    assert!(matches!(SubFn.call(&[], &env), Err(EvalError::ArgumentError(_))));
    assert!(matches!(SubFn.call(&[LispValue::Number(4)], &env), Ok(LispValue::Number(4))));
    let big = [LispValue::Number(i64::MAX), LispValue::Number(1)];
    assert!(matches!(AddFn.call(&big, &env), Err(EvalError::EvalPanic(_))));
    let three = [LispValue::Number(10), LispValue::Number(3), LispValue::Number(4)];
    assert!(matches!(SubFn.call(&three, &env), Ok(LispValue::Number(3))));
}

#[test]
fn error_lines() {
    assert_eq!(
        LispError::Lex(LexError::UnexpectedChar('!')).to_display(),
        "Lexer error: UnexpectedChar('!')"
    );
    assert_eq!(
        LispError::Lex(LexError::UnexpectedChar('!')).loop_line(),
        "Lex error: UnexpectedChar('!')"
    );
    assert_eq!(LispError::Parse(ParseError::UnexpectedEOF).to_display(), "Parser error: UnexpectedEOF");
    assert_eq!(LispError::Parse(ParseError::UnexpectedEOF).loop_line(), "Parse error: UnexpectedEOF");
    assert_eq!(
        LispError::Eval(EvalError::TypeError("expected a number".to_string())).to_display(),
        "Eval error: TypeError(\"expected a number\")"
    );
    assert_eq!(
        LispError::Lex(LexError::InvalidToken("#x".to_string())).loop_line(),
        "Lex error: InvalidToken(\"#x\")"
    );
    assert_eq!(
        LispError::Parse(ParseError::InvalidSyntax("a\"b\n".to_string())).to_display(),
        "Parser error: InvalidSyntax(\"a\\\"b\\n\")"
    );
    assert_eq!(
        LispError::Lex(LexError::UnexpectedChar('\'')).to_display(),
        "Lexer error: UnexpectedChar('\\'')"
    );
}

#[test]
fn error_details_match_debug_form() {
    let errs = vec![
        LispError::Lex(LexError::UnexpectedChar('!')),
        LispError::Lex(LexError::UnterminatedString),
        LispError::Parse(ParseError::UnexpectedToken(")".to_string())),
        LispError::Eval(EvalError::UnboundSymbol("foo".to_string())),
        LispError::Eval(EvalError::EvalPanic("x".to_string())),
    ];
    for e in errs {
        let inner = match &e {
            LispError::Lex(x) => format!("{:?}", x),
            LispError::Parse(x) => format!("{:?}", x),
            LispError::Eval(x) => format!("{:?}", x),
        };
        assert_eq!(e.details(), inner);
        assert!(e.to_display().ends_with(&inner));
    }
    assert_eq!(
        LispError::Eval(EvalError::UnboundSymbol("foo".into())).to_display(),
        "Eval error: UnboundSymbol(\"foo\")"
    );
}

#[test]
fn type_errors_come_before_overflow() {
    let env = Env::new();
    let a = [LispValue::Number(i64::MAX), LispValue::Number(1), LispValue::Bool(true)];
    assert!(matches!(AddFn.call(&a, &env), Err(EvalError::TypeError(_))));
    let s = [LispValue::Number(i64::MIN), LispValue::Number(1), LispValue::Bool(true)];
    assert!(matches!(SubFn.call(&s, &env), Err(EvalError::TypeError(_))));
    let s = [LispValue::Number(i64::MIN), LispValue::Number(1)];
    assert!(matches!(SubFn.call(&s, &env), Err(EvalError::EvalPanic(_))));
    let a = [LispValue::Number(4), LispValue::Number(-7), LispValue::Number(10)];
    assert!(matches!(AddFn.call(&a, &env), Ok(LispValue::Number(7))));
}
