//! Primitive functions. Numbers are 64-bit integers: a result outside that
//! range is reported as an `EvalPanic` rather than wrapped.
use vstd::prelude::*;
use crate::ast::{Callable, LispValue, Val};
use crate::env::{Env, define_in, vals_view};
use crate::error::{EvalError, Fault};
use crate::traits::LispCallable;

verus! {

/// Addition over numbers.
#[derive(Clone, Copy, Debug)]
pub struct AddFn;

/// Left-folded subtraction over numbers.
#[derive(Clone, Copy, Debug)]
pub struct SubFn;

pub open spec fn fits_i64(x: int) -> bool {
    i64::MIN <= x <= i64::MAX
}

pub open spec fn not_a_number() -> Fault {
    Fault::TypeError("expected a number"@)
}

pub open spec fn out_of_range() -> Fault {
    Fault::EvalPanic("number out of range"@)
}

/// Every argument is a number.
pub open spec fn all_numbers(args: Seq<Val>) -> bool {
    forall|i: int| 0 <= i < args.len() ==> (#[trigger] args[i]) is Number
}

/// `acc` plus the numbers in `args`, left to right; a running total outside
/// the 64-bit range is an `EvalPanic`.
pub open spec fn sum_from(args: Seq<Val>, acc: int) -> Result<Val, Fault>
    decreases args.len(),
{
    if args.len() == 0 {
        Ok(Val::Number(acc))
    } else {
        match args[0] {
            Val::Number(n) => if fits_i64(acc + n) {
                sum_from(args.drop_first(), acc + n)
            } else {
                Err(out_of_range())
            },
            _ => Err(not_a_number()),
        }
    }
}

/// `acc` minus the numbers in `args`, left to right, with the errors of `sum_from`.
pub open spec fn diff_from(args: Seq<Val>, acc: int) -> Result<Val, Fault>
    decreases args.len(),
{
    if args.len() == 0 {
        Ok(Val::Number(acc))
    } else {
        match args[0] {
            Val::Number(n) => if fits_i64(acc - n) {
                diff_from(args.drop_first(), acc - n)
            } else {
                Err(out_of_range())
            },
            _ => Err(not_a_number()),
        }
    }
}

/// `(+ a1 .. an)`: a `TypeError` when any argument is not a number, else the
/// sum, 0 when empty.
pub open spec fn add_spec(args: Seq<Val>) -> Result<Val, Fault> {
    if !all_numbers(args) {
        Err(not_a_number())
    } else {
        sum_from(args, 0)
    }
}

/// `(- a1 a2 .. an)`: `a1 - a2 - .. - an`; at least one argument, and a
/// `TypeError` when any argument is not a number.
pub open spec fn sub_spec(args: Seq<Val>) -> Result<Val, Fault> {
    if args.len() == 0 {
        Err(Fault::ArgumentError("expected at least one argument"@))
    } else if !all_numbers(args) {
        Err(not_a_number())
    } else {
        match args[0] {
            Val::Number(n) => diff_from(args.drop_first(), n),
            _ => Err(not_a_number()),
        }
    }
}

/// Whether every argument is a number.
fn check_numbers(args: &[LispValue]) -> (r: bool)
    ensures
        r == all_numbers(vals_view(args@)),
{
    let ghost vs = vals_view(args@);
    let mut i: usize = 0;
    while i < args.len()
        invariant
            i <= args@.len(),
            vs == vals_view(args@),
            forall|j: int| 0 <= j < i ==> (#[trigger] vs[j]) is Number,
        decreases args@.len() - i,
    {
        assert(vs[i as int] == args@[i as int]@);
        match &args[i] {
            LispValue::Number(_) => {},
            _ => {
                return false;
            },
        }
        i = i + 1;
    }
    true
}

fn type_error() -> (r: EvalError)
    ensures
        r@ == not_a_number(),
{
    EvalError::TypeError(String::from_str("expected a number"))
}

fn range_error() -> (r: EvalError)
    ensures
        r@ == out_of_range(),
{
    EvalError::EvalPanic(String::from_str("number out of range"))
}

impl LispCallable for AddFn {
    open spec fn call_spec(&self, args: Seq<Val>) -> Result<Val, Fault> {
        add_spec(args)
    }

    fn call(&self, args: &[LispValue], env: &Env) -> (r: Result<LispValue, EvalError>) {
        let ghost vs = vals_view(args@);
        if !check_numbers(args) {
            return Err(type_error());
        }
        let mut acc: i64 = 0;
        let mut i: usize = 0;
        assert(vs.subrange(0, vs.len() as int) =~= vs);
        while i < args.len()
            invariant
                i <= args@.len(),
                vs == vals_view(args@),
                all_numbers(vs),
                add_spec(vs) == sum_from(vs.subrange(i as int, vs.len() as int), acc as int),
            decreases args@.len() - i,
        {
            let ghost rest = vs.subrange(i as int, vs.len() as int);
            assert(rest.drop_first() =~= vs.subrange(i + 1, vs.len() as int));
            assert(rest[0] == args@[i as int]@);
            match &args[i] {
                LispValue::Number(n) => {
                    match acc.checked_add(*n) {
                        Some(s) => {
                            acc = s;
                        },
                        None => {
                            return Err(range_error());
                        },
                    }
                },
                _ => {
                    return Err(type_error());
                },
            }
            i = i + 1;
        }
        Ok(LispValue::Number(acc))
    }
}

impl LispCallable for SubFn {
    open spec fn call_spec(&self, args: Seq<Val>) -> Result<Val, Fault> {
        sub_spec(args)
    }

    fn call(&self, args: &[LispValue], env: &Env) -> (r: Result<LispValue, EvalError>) {
        let ghost vs = vals_view(args@);
        if args.len() == 0 {
            return Err(EvalError::ArgumentError(String::from_str("expected at least one argument")));
        }
        if !check_numbers(args) {
            return Err(type_error());
        }
        let mut acc: i64 = match &args[0] {
            LispValue::Number(n) => *n,
            _ => {
                return Err(type_error());
            },
        };
        let mut i: usize = 1;
        assert(vs.drop_first() =~= vs.subrange(1, vs.len() as int));
        while i < args.len()
            invariant
                1 <= i <= args@.len(),
                vs == vals_view(args@),
                all_numbers(vs),
                sub_spec(vs) == diff_from(vs.subrange(i as int, vs.len() as int), acc as int),
            decreases args@.len() - i,
        {
            let ghost rest = vs.subrange(i as int, vs.len() as int);
            assert(rest.drop_first() =~= vs.subrange(i + 1, vs.len() as int));
            assert(rest[0] == args@[i as int]@);
            match &args[i] {
                LispValue::Number(n) => {
                    match acc.checked_sub(*n) {
                        Some(s) => {
                            acc = s;
                        },
                        None => {
                            return Err(range_error());
                        },
                    }
                },
                _ => {
                    return Err(type_error());
                },
            }
            i = i + 1;
        }
        Ok(LispValue::Number(acc))
    }
}

/// Binds `+` and `-` in the root frame.
pub fn register_builtins(env: &mut Env)
    requires
        old(env).wf(),
    ensures
        final(env).wf(),
        final(env)@ == define_in(
            define_in(old(env)@, 0, "+"@, Val::Function(crate::ast::FnVal::Add)),
            0,
            "-"@,
            Val::Function(crate::ast::FnVal::Sub),
        ),
{
    proof { env.lemma_wf(); }
    env.define(0, String::from_str("+"), LispValue::Function(Callable::Add(AddFn)));
    env.define(0, String::from_str("-"), LispValue::Function(Callable::Sub(SubFn)));
}

} // verus!
