//! Laws of the evaluator, stated over `eval_spec` and proved.
use vstd::prelude::*;
use crate::ast::{FnVal, Val};
use crate::builtins::{add_spec, diff_from, fits_i64, sub_spec, sum_from};
use crate::env::{
    define_in, frame_bind, holder, lemma_bind_other, lemma_bind_same, lemma_lookup_here, lookup,
    slot, FrameV,
};
use crate::error::Fault;
use crate::eval::{initial_frames, apply_spec, eval_args, eval_spec, form_spec, Form};

verus! {

/// The names that select a special form.
pub open spec fn is_form_name(s: Seq<char>) -> bool {
    s == "quote"@ || s == "if"@ || s == "define"@ || s == "set!"@ || s == "lambda"@ || s == "begin"@
}

/// Numbers as values.
pub open spec fn numbers(ns: Seq<int>) -> Seq<Val> {
    Seq::new(ns.len(), |i: int| Val::Number(ns[i]))
}

/// `a1 + .. + an`.
pub open spec fn total(ns: Seq<int>) -> int
    decreases ns.len(),
{
    if ns.len() == 0 {
        0
    } else {
        total(ns.drop_last()) + ns.last()
    }
}

/// `a1 - a2 - .. - an`, for `n >= 1`.
pub open spec fn difference(ns: Seq<int>) -> int
    decreases ns.len(),
{
    if ns.len() <= 1 {
        if ns.len() == 1 { ns[0] } else { 0 }
    } else {
        difference(ns.drop_last()) - ns.last()
    }
}

proof fn lemma_form_names()
    ensures
        form_spec(Val::Symbol("quote"@)) == Form::Quote,
        form_spec(Val::Symbol("if"@)) == Form::If,
        form_spec(Val::Symbol("define"@)) == Form::Define,
        form_spec(Val::Symbol("set!"@)) == Form::Assign,
        form_spec(Val::Symbol("lambda"@)) == Form::Lambda,
        !is_form_name("+"@),
        !is_form_name("-"@),
{
    reveal_strlit("quote");
    reveal_strlit("if");
    reveal_strlit("define");
    reveal_strlit("set!");
    reveal_strlit("lambda");
    reveal_strlit("begin");
    reveal_strlit("+");
    reveal_strlit("-");
    assert("quote"@.len() == 5 && "if"@.len() == 2 && "define"@.len() == 6 && "set!"@.len() == 4);
    assert("lambda"@.len() == 6 && "begin"@.len() == 5 && "+"@.len() == 1 && "-"@.len() == 1);
    assert("lambda"@[0] != "define"@[0]);
}

proof fn lemma_numbers_evaluate(fuel: nat, ns: Seq<int>, f: nat, fs: Seq<FrameV>)
    requires
        fuel >= 1,
    ensures
        eval_args(fuel, numbers(ns), f, fs) == (fs, Ok::<Seq<Val>, Fault>(numbers(ns))),
    decreases ns.len(),
{
    if ns.len() == 0 {
        assert(numbers(ns) =~= Seq::<Val>::empty());
    } else {
        assert(eval_spec(fuel, numbers(ns)[0], f, fs) == (fs, Ok::<Val, Fault>(numbers(ns)[0])));
        assert(numbers(ns).drop_first() =~= numbers(ns.drop_first()));
        lemma_numbers_evaluate(fuel, ns.drop_first(), f, fs);
        assert(seq![numbers(ns)[0]] + numbers(ns.drop_first()) =~= numbers(ns));
    }
}

proof fn lemma_sum_from(ns: Seq<int>, k: int)
    requires
        0 <= k <= ns.len(),
        forall|j: int| 0 <= j <= ns.len() ==> fits_i64(#[trigger] total(ns.take(j))),
    ensures
        sum_from(numbers(ns).subrange(k, ns.len() as int), total(ns.take(k))) == Ok::<Val, Fault>(
            Val::Number(total(ns)),
        ),
    decreases ns.len() - k,
{
    if k == ns.len() {
        assert(ns.take(k) =~= ns);
    } else {
        let rest = numbers(ns).subrange(k, ns.len() as int);
        assert(ns.take(k + 1).drop_last() =~= ns.take(k));
        assert(total(ns.take(k + 1)) == total(ns.take(k)) + ns[k]);
        assert(rest.drop_first() =~= numbers(ns).subrange(k + 1, ns.len() as int));
        assert(fits_i64(total(ns.take(k + 1))));
        lemma_sum_from(ns, k + 1);
    }
}

proof fn lemma_diff_from(ns: Seq<int>, k: int)
    requires
        1 <= k <= ns.len(),
        forall|j: int| 1 <= j <= ns.len() ==> fits_i64(#[trigger] difference(ns.take(j))),
    ensures
        diff_from(numbers(ns).subrange(k, ns.len() as int), difference(ns.take(k))) == Ok::<Val, Fault>(
            Val::Number(difference(ns)),
        ),
    decreases ns.len() - k,
{
    if k == ns.len() {
        assert(ns.take(k) =~= ns);
    } else {
        let rest = numbers(ns).subrange(k, ns.len() as int);
        assert(ns.take(k + 1).drop_last() =~= ns.take(k));
        assert(difference(ns.take(k + 1)) == difference(ns.take(k)) - ns[k]);
        assert(rest.drop_first() =~= numbers(ns).subrange(k + 1, ns.len() as int));
        assert(fits_i64(difference(ns.take(k + 1))));
        lemma_diff_from(ns, k + 1);
    }
}

/// The built-in addition on numbers `a1 .. an` returns `a1 + .. + an`, summed
/// left to right from 0, provided every running total fits in 64 bits.
pub proof fn law_builtin_sum(ns: Seq<int>)
    requires
        forall|j: int| 0 <= j <= ns.len() ==> fits_i64(#[trigger] total(ns.take(j))),
    ensures
        add_spec(numbers(ns)) == Ok::<Val, Fault>(Val::Number(total(ns))),
{
    assert(ns.take(0) =~= Seq::<int>::empty());
    assert(total(ns.take(0)) == 0);
    assert(numbers(ns).subrange(0, ns.len() as int) =~= numbers(ns));
    lemma_sum_from(ns, 0);
}

/// The built-in subtraction on numbers `a1 .. an`, `n >= 1`, returns
/// `a1 - a2 - .. - an`, provided every running difference fits in 64 bits.
pub proof fn law_builtin_difference(ns: Seq<int>)
    requires
        ns.len() >= 1,
        forall|j: int| 1 <= j <= ns.len() ==> fits_i64(#[trigger] difference(ns.take(j))),
    ensures
        sub_spec(numbers(ns)) == Ok::<Val, Fault>(Val::Number(difference(ns))),
{
    assert(ns.take(1) =~= seq![ns[0]]);
    assert(numbers(ns).drop_first() =~= numbers(ns).subrange(1, ns.len() as int));
    assert(difference(ns.take(1)) == ns[0]);
    lemma_diff_from(ns, 1);
}

/// Where `+` resolves to the built-in addition, `(+ a1 .. an)` evaluates to
/// the number `a1 + .. + an` (`0` for no operands) and changes no frame,
/// provided every running total fits in 64 bits.
pub proof fn law_sum(fuel: nat, ns: Seq<int>, f: nat, fs: Seq<FrameV>)
    requires
        fuel >= 2,
        lookup(fs, f, "+"@) == Some(Val::Function(FnVal::Add)),
        forall|j: int| 0 <= j <= ns.len() ==> fits_i64(#[trigger] total(ns.take(j))),
    ensures
        eval_spec(fuel, Val::List(seq![Val::Symbol("+"@)] + numbers(ns)), f, fs) == (
            fs,
            Ok::<Val, Fault>(Val::Number(total(ns))),
        ),
{
    lemma_form_names();
    let xs = seq![Val::Symbol("+"@)] + numbers(ns);
    assert(xs.drop_first() =~= numbers(ns));
    let g = (fuel - 1) as nat;
    lemma_numbers_evaluate(g, ns, f, fs);
    assert(ns.take(0) =~= Seq::<int>::empty());
    assert(total(ns.take(0)) == 0);
    assert(numbers(ns).subrange(0, ns.len() as int) =~= numbers(ns));
    lemma_sum_from(ns, 0);
    assert(xs[0] == Val::Symbol("+"@));
    assert(form_spec(xs[0]) == Form::Apply);
    assert(eval_spec(g, xs[0], f, fs) == (fs, Ok::<Val, Fault>(Val::Function(FnVal::Add))));
    assert(apply_spec(g, Val::Function(FnVal::Add), numbers(ns), fs) == (fs, sum_from(numbers(ns), 0)));
}

/// Where `-` resolves to the built-in subtraction, `(- a1 a2 .. an)` with
/// `n >= 1` evaluates to the number `a1 - a2 - .. - an` and changes no frame,
/// provided every running difference fits in 64 bits.
pub proof fn law_difference(fuel: nat, ns: Seq<int>, f: nat, fs: Seq<FrameV>)
    requires
        fuel >= 2,
        ns.len() >= 1,
        lookup(fs, f, "-"@) == Some(Val::Function(FnVal::Sub)),
        forall|j: int| 1 <= j <= ns.len() ==> fits_i64(#[trigger] difference(ns.take(j))),
    ensures
        eval_spec(fuel, Val::List(seq![Val::Symbol("-"@)] + numbers(ns)), f, fs) == (
            fs,
            Ok::<Val, Fault>(Val::Number(difference(ns))),
        ),
{
    lemma_form_names();
    let xs = seq![Val::Symbol("-"@)] + numbers(ns);
    assert(xs.drop_first() =~= numbers(ns));
    let g = (fuel - 1) as nat;
    lemma_numbers_evaluate(g, ns, f, fs);
    assert(ns.take(1) =~= seq![ns[0]]);
    assert(numbers(ns).drop_first() =~= numbers(ns).subrange(1, ns.len() as int));
    assert(difference(ns.take(1)) == ns[0]);
    lemma_diff_from(ns, 1);
    assert(xs[0] == Val::Symbol("-"@));
    assert(form_spec(xs[0]) == Form::Apply);
    assert(eval_spec(g, xs[0], f, fs) == (fs, Ok::<Val, Fault>(Val::Function(FnVal::Sub))));
    assert(numbers(ns)[0] == Val::Number(ns[0]));
    assert(apply_spec(g, Val::Function(FnVal::Sub), numbers(ns), fs) == (
        fs,
        diff_from(numbers(ns).drop_first(), ns[0]),
    ));
}

/// A symbol that no frame on the chain binds fails with `UnboundSymbol`.
pub proof fn law_unbound(fuel: nat, s: Seq<char>, f: nat, fs: Seq<FrameV>)
    requires
        fuel >= 1,
        lookup(fs, f, s) is None,
    ensures
        eval_spec(fuel, Val::Symbol(s), f, fs) == (fs, Err::<Val, Fault>(Fault::UnboundSymbol(s))),
{
}


/// `(define x a)` makes `x` evaluate to `a`; a following `(set! x b)` makes it
/// evaluate to `b`.
pub proof fn law_define_then_set(fuel: nat, fs: Seq<FrameV>, f: nat, x: Seq<char>, a: int, b: int)
    requires
        fuel >= 2,
        f < fs.len(),
        fs[f as int].names.len() == fs[f as int].vals.len(),
    ensures
        ({
            let d = eval_spec(
                fuel,
                Val::List(seq![Val::Symbol("define"@), Val::Symbol(x), Val::Number(a)]),
                f,
                fs,
            );
            let s = eval_spec(
                fuel,
                Val::List(seq![Val::Symbol("set!"@), Val::Symbol(x), Val::Number(b)]),
                f,
                d.0,
            );
            &&& d.1 == Ok::<Val, Fault>(Val::Nil)
            &&& eval_spec(fuel, Val::Symbol(x), f, d.0) == (d.0, Ok::<Val, Fault>(Val::Number(a)))
            &&& s.1 == Ok::<Val, Fault>(Val::Nil)
            &&& eval_spec(fuel, Val::Symbol(x), f, s.0) == (s.0, Ok::<Val, Fault>(Val::Number(b)))
        }),
{
    lemma_form_names();
    let g = (fuel - 1) as nat;
    let dl = seq![Val::Symbol("define"@), Val::Symbol(x), Val::Number(a)];
    assert(dl.drop_first() =~= seq![Val::Symbol(x), Val::Number(a)]);
    assert(eval_spec(g, Val::Number(a), f, fs) == (fs, Ok::<Val, Fault>(Val::Number(a))));
    let fs1 = define_in(fs, f, x, Val::Number(a));
    assert(eval_spec(fuel, Val::List(dl), f, fs) == (fs1, Ok::<Val, Fault>(Val::Nil)));
    lemma_bind_same(fs[f as int], x, Val::Number(a));
    lemma_lookup_here(fs1, f, x);
    let sl = seq![Val::Symbol("set!"@), Val::Symbol(x), Val::Number(b)];
    assert(sl.drop_first() =~= seq![Val::Symbol(x), Val::Number(b)]);
    assert(eval_spec(g, Val::Number(b), f, fs1) == (fs1, Ok::<Val, Fault>(Val::Number(b))));
    let fs2 = define_in(fs1, f, x, Val::Number(b));
    assert(eval_spec(fuel, Val::List(sl), f, fs1) == (fs2, Ok::<Val, Fault>(Val::Nil)));
    lemma_bind_same(fs1[f as int], x, Val::Number(b));
    lemma_lookup_here(fs2, f, x);
}

/// A closure that reads `x`, created before `(set! x b)` in the scope that
/// defines `x`, sees `b` when called afterwards: the frame is shared, not
/// copied.
pub proof fn law_closure_sees_mutation(
    fuel: nat,
    fs: Seq<FrameV>,
    f: nat,
    x: Seq<char>,
    c: Seq<char>,
    a: int,
    b: int,
)
    requires
        fuel >= 2,
        f < fs.len(),
        fs.len() < usize::MAX,
        fs[f as int].names.len() == fs[f as int].vals.len(),
        x != c,
        !is_form_name(c),
    ensures
        ({
            let s1 = eval_spec(
                fuel,
                Val::List(seq![Val::Symbol("define"@), Val::Symbol(x), Val::Number(a)]),
                f,
                fs,
            );
            let s2 = eval_spec(
                fuel,
                Val::List(
                    seq![
                        Val::Symbol("define"@),
                        Val::Symbol(c),
                        Val::List(seq![Val::Symbol("lambda"@), Val::List(Seq::empty()), Val::Symbol(x)]),
                    ],
                ),
                f,
                s1.0,
            );
            let s3 = eval_spec(
                fuel,
                Val::List(seq![Val::Symbol("set!"@), Val::Symbol(x), Val::Number(b)]),
                f,
                s2.0,
            );
            eval_spec(fuel, Val::List(seq![Val::Symbol(c)]), f, s3.0).1 == Ok::<Val, Fault>(
                Val::Number(b),
            )
        }),
{
    lemma_form_names();
    let g = (fuel - 1) as nat;
    let na = Val::Number(a);
    let nb = Val::Number(b);
    // (define x a)
    let l1 = seq![Val::Symbol("define"@), Val::Symbol(x), na];
    assert(l1.drop_first() =~= seq![Val::Symbol(x), na]);
    assert(eval_spec(g, na, f, fs) == (fs, Ok::<Val, Fault>(na)));
    let fs1 = define_in(fs, f, x, na);
    assert(eval_spec(fuel, Val::List(l1), f, fs) == (fs1, Ok::<Val, Fault>(Val::Nil)));
    lemma_bind_same(fs[f as int], x, na);
    // (define c (lambda () x))
    let lam = seq![Val::Symbol("lambda"@), Val::List(Seq::empty()), Val::Symbol(x)];
    assert(lam.drop_first() =~= seq![Val::List(Seq::empty()), Val::Symbol(x)]);
    let ps = crate::eval::param_names(Val::List(Seq::empty()));
    assert(ps =~= Seq::<Seq<char>>::empty());
    let clo = Val::Function(FnVal::User(Seq::empty(), Box::new(Val::Symbol(x)), f));
    assert(eval_spec(g, Val::List(lam), f, fs1) == (fs1, Ok::<Val, Fault>(clo)));
    let l2 = seq![Val::Symbol("define"@), Val::Symbol(c), Val::List(lam)];
    assert(l2.drop_first() =~= seq![Val::Symbol(c), Val::List(lam)]);
    let fs2 = define_in(fs1, f, c, clo);
    assert(eval_spec(fuel, Val::List(l2), f, fs1) == (fs2, Ok::<Val, Fault>(Val::Nil)));
    lemma_bind_other(fs1[f as int], c, clo, x);
    lemma_bind_same(fs1[f as int], c, clo);
    // (set! x b)
    let l3 = seq![Val::Symbol("set!"@), Val::Symbol(x), nb];
    assert(l3.drop_first() =~= seq![Val::Symbol(x), nb]);
    assert(eval_spec(g, nb, f, fs2) == (fs2, Ok::<Val, Fault>(nb)));
    lemma_lookup_here(fs2, f, x);
    let fs3 = define_in(fs2, f, x, nb);
    assert(eval_spec(fuel, Val::List(l3), f, fs2) == (fs3, Ok::<Val, Fault>(Val::Nil)));
    lemma_bind_other(fs2[f as int], x, nb, c);
    lemma_bind_same(fs2[f as int], x, nb);
    // (c)
    lemma_lookup_here(fs3, f, c);
    lemma_lookup_here(fs3, f, x);
    let l4 = seq![Val::Symbol(c)];
    assert(l4.drop_first() =~= Seq::<Val>::empty());
    assert(form_spec(l4[0]) == Form::Apply);
    assert(eval_spec(g, Val::Symbol(c), f, fs3) == (fs3, Ok::<Val, Fault>(clo)));
    let fr = FrameV { names: Seq::empty(), vals: Seq::empty(), parent: Some(f) };
    let fs4 = fs3.push(fr);
    assert(fs4[f as int] == fs3[f as int]);
    assert(slot(fs4[fs3.len() as int].names, x) == -1);
    assert(holder(fs4, fs3.len(), x) == holder(fs4, f, x));
    lemma_lookup_here(fs4, f, x);
    assert(eval_spec(g, Val::Symbol(x), fs3.len(), fs4) == (fs4, Ok::<Val, Fault>(nb)));
    assert(apply_spec(g, clo, Seq::empty(), fs3) == (fs4, Ok::<Val, Fault>(nb)));
    assert(eval_args(g, l4.drop_first(), f, fs3) == (fs3, Ok::<Seq<Val>, Fault>(Seq::empty())));
    assert(eval_spec(fuel, Val::List(l4), f, fs3) == (fs4, Ok::<Val, Fault>(nb)));
}

/// `(if true a b)` is `a`, `(if false a b)` is `b`, and `(if nil a)` is `nil`.
pub proof fn law_if(fuel: nat, fs: Seq<FrameV>, f: nat, a: int, b: int)
    requires
        fuel >= 2,
    ensures
        eval_spec(
            fuel,
            Val::List(seq![Val::Symbol("if"@), Val::Bool(true), Val::Number(a), Val::Number(b)]),
            f,
            fs,
        ) == (fs, Ok::<Val, Fault>(Val::Number(a))),
        eval_spec(
            fuel,
            Val::List(seq![Val::Symbol("if"@), Val::Bool(false), Val::Number(a), Val::Number(b)]),
            f,
            fs,
        ) == (fs, Ok::<Val, Fault>(Val::Number(b))),
        eval_spec(fuel, Val::List(seq![Val::Symbol("if"@), Val::Nil, Val::Number(a)]), f, fs) == (
            fs,
            Ok::<Val, Fault>(Val::Nil),
        ),
{
    lemma_form_names();
    let t = seq![Val::Symbol("if"@), Val::Bool(true), Val::Number(a), Val::Number(b)];
    assert(t.drop_first() =~= seq![Val::Bool(true), Val::Number(a), Val::Number(b)]);
    let e = seq![Val::Symbol("if"@), Val::Bool(false), Val::Number(a), Val::Number(b)];
    assert(e.drop_first() =~= seq![Val::Bool(false), Val::Number(a), Val::Number(b)]);
    let n = seq![Val::Symbol("if"@), Val::Nil, Val::Number(a)];
    assert(n.drop_first() =~= seq![Val::Nil, Val::Number(a)]);
    let g = (fuel - 1) as nat;
    assert(eval_spec(g, Val::Bool(true), f, fs) == (fs, Ok::<Val, Fault>(Val::Bool(true))));
    assert(eval_spec(g, Val::Bool(false), f, fs) == (fs, Ok::<Val, Fault>(Val::Bool(false))));
    assert(eval_spec(g, Val::Number(a), f, fs) == (fs, Ok::<Val, Fault>(Val::Number(a))));
    assert(eval_spec(g, Val::Number(b), f, fs) == (fs, Ok::<Val, Fault>(Val::Number(b))));
    assert(eval_spec(g, Val::Nil, f, fs) == (fs, Ok::<Val, Fault>(Val::Nil)));
    assert(crate::eval::truthy(Val::Bool(true)));
    assert(!crate::eval::truthy(Val::Nil));
    assert(eval_spec(fuel, Val::List(n), f, fs) == (fs, Ok::<Val, Fault>(Val::Nil)));
}


/// In a fresh session `+` and `-` resolve, from the root frame, to the
/// built-in addition and subtraction.
pub proof fn law_fresh_session_builtins()
    ensures
        lookup(initial_frames(), 0, "+"@) == Some(Val::Function(FnVal::Add)),
        lookup(initial_frames(), 0, "-"@) == Some(Val::Function(FnVal::Sub)),
{
    reveal_strlit("+");
    reveal_strlit("-");
    assert("+"@[0] != "-"@[0]);
    let root = seq![FrameV { names: Seq::empty(), vals: Seq::empty(), parent: None }];
    let fs1 = define_in(root, 0, "+"@, Val::Function(FnVal::Add));
    lemma_bind_same(root[0], "+"@, Val::Function(FnVal::Add));
    lemma_bind_same(fs1[0], "-"@, Val::Function(FnVal::Sub));
    lemma_bind_other(fs1[0], "-"@, Val::Function(FnVal::Sub), "+"@);
    lemma_lookup_here(initial_frames(), 0, "+"@);
    lemma_lookup_here(initial_frames(), 0, "-"@);
}

} // verus!
