//! The evaluator. `eval_spec` is its big-step semantics: from a fuel bound, an
//! expression, the current frame and the frames of the session, the frames
//! afterwards and the outcome. Fuel bounds the nesting depth of evaluation;
//! running out is an `EvalPanic`.
//!
//! Choices the semantics fixes: the empty list evaluates to `nil`; `define`
//! and `set!` evaluate to `nil`; a special-form name in head position always
//! selects the form; frames made for calls stay in the arena for the rest of
//! the session, so closures that captured them keep working.
use vstd::prelude::*;
use crate::ast::{copy_names, names_view, Callable, FnVal, LispValue, UserFunction, Val};
use crate::builtins::{add_spec, register_builtins, sub_spec};
use crate::env::{assign_in, define_in, holder, lookup, vals_view, Env, FrameV};
use crate::error::{EvalError, Fault};
use crate::traits::{outcome, LispCallable};

verus! {

/// Nesting depth available to one top-level evaluation.
pub const MAX_DEPTH: u64 = 1000;

/// How a list form is evaluated, chosen by its head.
#[derive(PartialEq, Eq, Structural, Clone, Copy)]
pub enum Form {
    Quote,
    If,
    Define,
    Assign,
    Lambda,
    Begin,
    Apply,
}

pub open spec fn form_spec(head: Val) -> Form {
    if head == Val::Symbol("quote"@) {
        Form::Quote
    } else if head == Val::Symbol("if"@) {
        Form::If
    } else if head == Val::Symbol("define"@) {
        Form::Define
    } else if head == Val::Symbol("set!"@) {
        Form::Assign
    } else if head == Val::Symbol("lambda"@) {
        Form::Lambda
    } else if head == Val::Symbol("begin"@) {
        Form::Begin
    } else {
        Form::Apply
    }
}

/// Everything but `false` and `nil` counts as true.
pub open spec fn truthy(v: Val) -> bool {
    v != Val::Bool(false) && v != Val::Nil
}

pub open spec fn is_param_list(v: Val) -> bool {
    v is List && forall|i: int| 0 <= i < v->List_0.len() ==> (#[trigger] v->List_0[i]) is Symbol
}

pub open spec fn param_names(v: Val) -> Seq<Seq<char>> {
    Seq::new(v->List_0.len(), |i: int| v->List_0[i]->Symbol_0)
}

pub open spec fn bad_shape() -> Fault {
    Fault::ArgumentError("wrong number of operands"@)
}

pub open spec fn not_symbol() -> Fault {
    Fault::TypeError("expected a symbol"@)
}

pub open spec fn not_params() -> Fault {
    Fault::TypeError("expected a list of parameter names"@)
}

pub open spec fn dup_params() -> Fault {
    Fault::ArgumentError("duplicate parameter name"@)
}

pub open spec fn not_callable() -> Fault {
    Fault::TypeError("not a function"@)
}

pub open spec fn wrong_count() -> Fault {
    Fault::ArgumentError("wrong number of arguments"@)
}

pub open spec fn missing_frame() -> Fault {
    Fault::EvalPanic("closure environment is missing"@)
}

pub open spec fn too_many_frames() -> Fault {
    Fault::EvalPanic("too many frames"@)
}

pub open spec fn too_deep() -> Fault {
    Fault::EvalPanic("recursion depth exceeded"@)
}

/// Evaluating `e` in frame `f`: the frames afterwards and the outcome.
pub open spec fn eval_spec(fuel: nat, e: Val, f: nat, fs: Seq<FrameV>) -> (Seq<FrameV>, Result<Val, Fault>)
    decreases fuel, 0nat,
{
    if fuel == 0 {
        (fs, Err(too_deep()))
    } else {
        let g = (fuel - 1) as nat;
        match e {
            Val::Symbol(s) => (
                fs,
                match lookup(fs, f, s) {
                    Some(v) => Ok(v),
                    None => Err(Fault::UnboundSymbol(s)),
                },
            ),
            Val::List(xs) => if xs.len() == 0 {
                (fs, Ok(Val::Nil))
            } else {
                let rest = xs.drop_first();
                match form_spec(xs[0]) {
                    Form::Quote => if rest.len() != 1 {
                        (fs, Err(bad_shape()))
                    } else {
                        (fs, Ok(rest[0]))
                    },
                    Form::If => if rest.len() < 2 || rest.len() > 3 {
                        (fs, Err(bad_shape()))
                    } else {
                        let (fs1, c) = eval_spec(g, rest[0], f, fs);
                        match c {
                            Err(x) => (fs1, Err(x)),
                            Ok(cv) => if truthy(cv) {
                                eval_spec(g, rest[1], f, fs1)
                            } else if rest.len() == 3 {
                                eval_spec(g, rest[2], f, fs1)
                            } else {
                                (fs1, Ok(Val::Nil))
                            },
                        }
                    },
                    Form::Define => if rest.len() != 2 {
                        (fs, Err(bad_shape()))
                    } else if !(rest[0] is Symbol) {
                        (fs, Err(not_symbol()))
                    } else {
                        let (fs1, r) = eval_spec(g, rest[1], f, fs);
                        match r {
                            Err(x) => (fs1, Err(x)),
                            Ok(v) => (define_in(fs1, f, rest[0]->Symbol_0, v), Ok(Val::Nil)),
                        }
                    },
                    Form::Assign => if rest.len() != 2 {
                        (fs, Err(bad_shape()))
                    } else if !(rest[0] is Symbol) {
                        (fs, Err(not_symbol()))
                    } else {
                        let name = rest[0]->Symbol_0;
                        let (fs1, r) = eval_spec(g, rest[1], f, fs);
                        match r {
                            Err(x) => (fs1, Err(x)),
                            Ok(v) => if holder(fs1, f, name) is Some {
                                (assign_in(fs1, f, name, v), Ok(Val::Nil))
                            } else {
                                (fs1, Err(Fault::UnboundSymbol(name)))
                            },
                        }
                    },
                    Form::Lambda => if rest.len() != 2 {
                        (fs, Err(bad_shape()))
                    } else if !is_param_list(rest[0]) {
                        (fs, Err(not_params()))
                    } else if !param_names(rest[0]).no_duplicates() {
                        (fs, Err(dup_params()))
                    } else {
                        (fs, Ok(Val::Function(FnVal::User(param_names(rest[0]), Box::new(rest[1]), f))))
                    },
                    Form::Begin => {
                        let (fs1, r) = eval_args(g, rest, f, fs);
                        match r {
                            Err(x) => (fs1, Err(x)),
                            Ok(vs) => (fs1, Ok(if vs.len() == 0 { Val::Nil } else { vs.last() })),
                        }
                    },
                    Form::Apply => {
                        let (fs1, h) = eval_spec(g, xs[0], f, fs);
                        match h {
                            Err(x) => (fs1, Err(x)),
                            Ok(hv) => {
                                let (fs2, a) = eval_args(g, rest, f, fs1);
                                match a {
                                    Err(x) => (fs2, Err(x)),
                                    Ok(args) => apply_spec(g, hv, args, fs2),
                                }
                            },
                        }
                    },
                }
            },
            _ => (fs, Ok(e)),
        }
    }
}

/// Evaluating `es` left to right in frame `f`; the first failure stops it.
pub open spec fn eval_args(fuel: nat, es: Seq<Val>, f: nat, fs: Seq<FrameV>) -> (Seq<FrameV>, Result<Seq<Val>, Fault>)
    decreases fuel, es.len() + 1,
{
    if es.len() == 0 {
        (fs, Ok(Seq::empty()))
    } else {
        let (fs1, r) = eval_spec(fuel, es[0], f, fs);
        match r {
            Err(x) => (fs1, Err(x)),
            Ok(v) => {
                let (fs2, rs) = eval_args(fuel, es.drop_first(), f, fs1);
                match rs {
                    Err(x) => (fs2, Err(x)),
                    Ok(vs) => (fs2, Ok(seq![v] + vs)),
                }
            },
        }
    }
}

/// Invoking `h` on evaluated arguments. A closure runs its body in a new frame
/// whose parent is the frame it captured, binding parameters to arguments.
pub open spec fn apply_spec(fuel: nat, h: Val, args: Seq<Val>, fs: Seq<FrameV>) -> (Seq<FrameV>, Result<Val, Fault>)
    decreases fuel, 1nat,
{
    match h {
        Val::Function(FnVal::Add) => (fs, add_spec(args)),
        Val::Function(FnVal::Sub) => (fs, sub_spec(args)),
        Val::Function(FnVal::User(ps, body, cf)) => if cf >= fs.len() {
            (fs, Err(missing_frame()))
        } else if ps.len() != args.len() {
            (fs, Err(wrong_count()))
        } else if fs.len() >= usize::MAX {
            (fs, Err(too_many_frames()))
        } else {
            eval_spec(
                fuel,
                *body,
                fs.len(),
                fs.push(FrameV { names: ps, vals: args, parent: Some(cf) }),
            )
        },
        _ => (fs, Err(not_callable())),
    }
}

pub open spec fn outcome_seq(r: Result<Vec<LispValue>, EvalError>) -> Result<Seq<Val>, Fault> {
    match r {
        Ok(vs) => Ok(vals_view(vs@)),
        Err(x) => Err(x@),
    }
}

fn fault(kind: u8, text: &str) -> (r: EvalError)
    ensures
        kind == 0 ==> r@ == Fault::TypeError(text@),
        kind == 1 ==> r@ == Fault::ArgumentError(text@),
        kind >= 2 ==> r@ == Fault::EvalPanic(text@),
{
    let t = String::from_str(text);
    if kind == 0 {
        EvalError::TypeError(t)
    } else if kind == 1 {
        EvalError::ArgumentError(t)
    } else {
        EvalError::EvalPanic(t)
    }
}

fn is_named(s: &String, name: &str) -> (r: bool)
    ensures
        r == (s@ == name@),
{
    *s == String::from_str(name)
}

fn form_of(head: &LispValue) -> (r: Form)
    ensures
        r == form_spec(head@),
{
    match head {
        LispValue::Symbol(s) => {
            if is_named(s, "quote") {
                Form::Quote
            } else if is_named(s, "if") {
                Form::If
            } else if is_named(s, "define") {
                Form::Define
            } else if is_named(s, "set!") {
                Form::Assign
            } else if is_named(s, "lambda") {
                Form::Lambda
            } else if is_named(s, "begin") {
                Form::Begin
            } else {
                Form::Apply
            }
        },
        _ => Form::Apply,
    }
}


/// The names of a parameter list, or `None` when it is not a list of symbols.
fn collect_params(v: &LispValue) -> (r: Option<Vec<String>>)
    ensures
        r is Some <==> is_param_list(v@),
        r is Some ==> names_view(r->Some_0@) == param_names(v@),
{
    match v {
        LispValue::List(items) => {
            let ghost xs = v@->List_0;
            let mut out: Vec<String> = Vec::new();
            let mut i: usize = 0;
            while i < items.len()
                invariant
                    i <= items.len(),
                    xs == v@->List_0,
                    *v is List && v->List_0 == *items,
                    xs.len() == items.len(),
                    forall|j: int| 0 <= j < items.len() ==> xs[j] == #[trigger] items@[j]@,
                    out@.len() == i,
                    forall|j: int| 0 <= j < i ==> (#[trigger] xs[j]) is Symbol && out@[j]@ == xs[j]->Symbol_0,
                decreases items.len() - i,
            {
                assert(xs[i as int] == items@[i as int]@);
                match &items[i] {
                    LispValue::Symbol(s) => {
                        assert(xs[i as int] == Val::Symbol(s@));
                        out.push(s.clone());
                    },
                    _ => {
                        assert(!((xs[i as int]) is Symbol));
                        return None;
                    },
                }
                i = i + 1;
            }
            assert(v@ == Val::List(xs));
            assert(names_view(out@) =~= param_names(v@));
            Some(out)
        },
        _ => None,
    }
}

/// Whether some name occurs twice.
fn has_duplicates(names: &Vec<String>) -> (r: bool)
    ensures
        r == !names_view(names@).no_duplicates(),
{
    let ghost nv = names_view(names@);
    let mut i: usize = 0;
    while i < names.len()
        invariant
            i <= names.len(),
            nv == names_view(names@),
            forall|a: int, b: int| 0 <= a < b < nv.len() && a < i ==> nv[a] != nv[b],
        decreases names.len() - i,
    {
        let mut j: usize = i + 1;
        while j < names.len()
            invariant
                i < j <= names.len(),
                i < names.len(),
                nv == names_view(names@),
                forall|a: int, b: int| 0 <= a < b < nv.len() && a < i ==> nv[a] != nv[b],
                forall|b: int| i < b < j ==> nv[i as int] != nv[b],
            decreases names.len() - j,
        {
            if names[i] == names[j] {
                assert(nv[i as int] == nv[j as int]);
                return true;
            }
            j = j + 1;
        }
        i = i + 1;
    }
    false
}

/// Evaluates `expr` in frame `f` with at most `fuel` levels of nesting, as
/// `eval_spec` states.
pub fn eval_in(env: &mut Env, expr: &LispValue, f: usize, fuel: u64) -> (r: Result<LispValue, EvalError>)
    requires
        old(env).wf(),
        f < old(env)@.len(),
    ensures
        final(env).wf(),
        final(env)@.len() >= old(env)@.len(),
        (final(env)@, outcome(r)) == eval_spec(fuel as nat, expr@, f as nat, old(env)@),
    decreases fuel, 0nat,
{
    if fuel == 0 {
        return Err(fault(2, "recursion depth exceeded"));
    }
    let g = fuel - 1;
    match expr {
        LispValue::Symbol(s) => env.get(f, s),
        LispValue::List(xs) => {
            let ghost es = vals_view(xs@);
            assert(expr@->List_0 =~= es);
            if xs.len() == 0 {
                return Ok(LispValue::Nil);
            }
            let ghost rest = es.drop_first();
            assert(rest =~= es.subrange(1, es.len() as int));
            assert(forall|k: int| 0 <= k < rest.len() ==> rest[k] == #[trigger] xs@[k + 1]@);
            let n = xs.len();
            match form_of(&xs[0]) {
                Form::Quote => {
                    if n != 2 {
                        Err(fault(1, "wrong number of operands"))
                    } else {
                        Ok(xs[1].duplicate())
                    }
                },
                Form::If => {
                    if n < 3 || n > 4 {
                        return Err(fault(1, "wrong number of operands"));
                    }
                    match eval_in(env, &xs[1], f, g) {
                        Err(x) => Err(x),
                        Ok(c) => {
                            let falsy = match c {
                                LispValue::Bool(b) => !b,
                                LispValue::Nil => true,
                                _ => false,
                            };
                            if !falsy {
                                eval_in(env, &xs[2], f, g)
                            } else if n == 4 {
                                eval_in(env, &xs[3], f, g)
                            } else {
                                Ok(LispValue::Nil)
                            }
                        },
                    }
                },
                Form::Define => {
                    if n != 3 {
                        return Err(fault(1, "wrong number of operands"));
                    }
                    match &xs[1] {
                        LispValue::Symbol(name) => {
                            match eval_in(env, &xs[2], f, g) {
                                Err(x) => Err(x),
                                Ok(v) => {
                                    env.define(f, name.clone(), v);
                                    Ok(LispValue::Nil)
                                },
                            }
                        },
                        _ => Err(fault(0, "expected a symbol")),
                    }
                },
                Form::Assign => {
                    if n != 3 {
                        return Err(fault(1, "wrong number of operands"));
                    }
                    match &xs[1] {
                        LispValue::Symbol(name) => {
                            match eval_in(env, &xs[2], f, g) {
                                Err(x) => Err(x),
                                Ok(v) => {
                                    match env.set(f, name.clone(), v) {
                                        Ok(()) => Ok(LispValue::Nil),
                                        Err(x) => Err(x),
                                    }
                                },
                            }
                        },
                        _ => Err(fault(0, "expected a symbol")),
                    }
                },
                Form::Lambda => {
                    if n != 3 {
                        return Err(fault(1, "wrong number of operands"));
                    }
                    match collect_params(&xs[1]) {
                        None => Err(fault(0, "expected a list of parameter names")),
                        Some(params) => {
                            if has_duplicates(&params) {
                                Err(fault(1, "duplicate parameter name"))
                            } else {
                                let body = xs[2].duplicate();
                                Ok(LispValue::Function(Callable::User(
                                    UserFunction { params, body: Box::new(body), env: f },
                                )))
                            }
                        },
                    }
                },
                Form::Begin => {
                    match eval_operands(env, xs, 1, f, g) {
                        Err(x) => Err(x),
                        Ok(vs) => {
                            let mut vs = vs;
                            match vs.pop() {
                                Some(v) => Ok(v),
                                None => Ok(LispValue::Nil),
                            }
                        },
                    }
                },
                Form::Apply => {
                    match eval_in(env, &xs[0], f, g) {
                        Err(x) => Err(x),
                        Ok(h) => {
                            match eval_operands(env, xs, 1, f, g) {
                                Err(x) => Err(x),
                                Ok(args) => apply(env, &h, args, g),
                            }
                        },
                    }
                },
            }
        },
        _ => Ok(expr.duplicate()),
    }
}

/// Evaluates `xs[i..]` left to right in frame `f`, as `eval_args` states.
fn eval_operands(env: &mut Env, xs: &Vec<LispValue>, i: usize, f: usize, fuel: u64) -> (r: Result<Vec<LispValue>, EvalError>)
    requires
        old(env).wf(),
        f < old(env)@.len(),
        i <= xs@.len(),
    ensures
        final(env).wf(),
        final(env)@.len() >= old(env)@.len(),
        (final(env)@, outcome_seq(r)) == eval_args(
            fuel as nat,
            vals_view(xs@).subrange(i as int, xs@.len() as int),
            f as nat,
            old(env)@,
        ),
    decreases fuel, xs@.len() - i + 1,
{
    let ghost es = vals_view(xs@).subrange(i as int, xs@.len() as int);
    if i == xs.len() {
        let out: Vec<LispValue> = Vec::new();
        assert(vals_view(out@) =~= Seq::empty());
        return Ok(out);
    }
    assert(es[0] == xs@[i as int]@);
    assert(es.drop_first() =~= vals_view(xs@).subrange(i + 1, xs@.len() as int));
    match eval_in(env, &xs[i], f, fuel) {
        Err(x) => Err(x),
        Ok(v) => {
            match eval_operands(env, xs, i + 1, f, fuel) {
                Err(x) => Err(x),
                Ok(rest) => {
                    let ghost rv = vals_view(rest@);
                    let ghost vv = v@;
                    let mut rest = rest;
                    rest.insert(0, v);
                    assert(vals_view(rest@) =~= seq![vv] + rv);
                    Ok(rest)
                },
            }
        },
    }
}

/// Invokes `h` on evaluated arguments, as `apply_spec` states.
fn apply(env: &mut Env, h: &LispValue, args: Vec<LispValue>, fuel: u64) -> (r: Result<LispValue, EvalError>)
    requires
        old(env).wf(),
    ensures
        final(env).wf(),
        final(env)@.len() >= old(env)@.len(),
        (final(env)@, outcome(r)) == apply_spec(fuel as nat, h@, vals_view(args@), old(env)@),
    decreases fuel, 1nat,
{
    match h {
        LispValue::Function(Callable::Add(a)) => {
            let r = a.call(args.as_slice(), env);
            r
        },
        LispValue::Function(Callable::Sub(s)) => {
            let r = s.call(args.as_slice(), env);
            r
        },
        LispValue::Function(Callable::User(u)) => {
            if u.env >= env.len() {
                return Err(fault(2, "closure environment is missing"));
            }
            if u.params.len() != args.len() {
                return Err(fault(1, "wrong number of arguments"));
            }
            if env.len() == usize::MAX {
                return Err(fault(2, "too many frames"));
            }
            let names = copy_names(&u.params);
            let nf = env.push_frame(u.env, names, args);
            eval_in(env, &u.body, nf, fuel)
        },
        _ => Err(fault(0, "not a function")),
    }
}


/// The frames of a fresh session: the root frame binding `+` and `-`.
pub open spec fn initial_frames() -> Seq<FrameV> {
    define_in(
        define_in(
            seq![FrameV { names: Seq::empty(), vals: Seq::empty(), parent: None }],
            0,
            "+"@,
            Val::Function(FnVal::Add),
        ),
        0,
        "-"@,
        Val::Function(FnVal::Sub),
    )
}

/// An interpreter session: the frames, with evaluation in the root frame.
pub struct Evaluator {
    pub env: Env,
}

impl Evaluator {
    pub open spec fn wf(&self) -> bool {
        self.env.wf()
    }

    /// A session whose root frame holds the built-ins.
    pub fn new() -> (r: Evaluator)
        ensures
            r.wf(),
            r.env@ == initial_frames(),
    {
        let mut env = Env::new();
        register_builtins(&mut env);
        Evaluator { env }
    }

    /// Evaluates a top-level expression in the root frame.
    pub fn eval(&mut self, expr: &LispValue) -> (r: Result<LispValue, EvalError>)
        requires
            old(self).wf(),
        ensures
            final(self).wf(),
            (final(self).env@, outcome(r)) == eval_spec(MAX_DEPTH as nat, expr@, 0, old(self).env@),
    {
        proof { self.env.lemma_wf(); }
        eval_in(&mut self.env, expr, 0, MAX_DEPTH)
    }
}

} // verus!
