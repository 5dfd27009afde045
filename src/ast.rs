//! The value model: runtime values, which are also the syntax tree, and their
//! mathematical counterpart `Val`.
use vstd::prelude::*;
use crate::builtins::{AddFn, SubFn};

verus! {

/// The mathematical model of a value.
pub enum Val {
    Number(int),
    Symbol(Seq<char>),
    List(Seq<Val>),
    Function(FnVal),
    Bool(bool),
    Str(Seq<char>),
    Nil,
}

/// The mathematical model of a callable.
pub enum FnVal {
    Add,
    Sub,
    /// Parameter names, body, and the index of the captured frame.
    User(Seq<Seq<char>>, Box<Val>, nat),
}

/// A runtime value; the syntax tree is made of the same values.
#[derive(Debug)]
pub enum LispValue {
    Number(i64),
    Symbol(String),
    List(Vec<LispValue>),
    Function(Callable),
    Bool(bool),
    String(String),
    Nil,
}

/// What a function value invokes: a primitive or a closure.
#[derive(Debug)]
pub enum Callable {
    Add(AddFn),
    Sub(SubFn),
    User(UserFunction),
}

/// A closure: parameters, body and the frame in effect where it was created.
#[derive(Debug)]
pub struct UserFunction {
    pub params: Vec<String>,
    pub body: Box<LispValue>,
    pub env: usize,
}

pub open spec fn names_view(ps: Seq<String>) -> Seq<Seq<char>> {
    Seq::new(ps.len(), |i: int| ps[i]@)
}

impl LispValue {
    pub open spec fn view(&self) -> Val
        decreases self,
    {
        match self {
            LispValue::Number(n) => Val::Number(*n as int),
            LispValue::Symbol(s) => Val::Symbol(s@),
            LispValue::List(items) => Val::List(
                Seq::new(
                    items.len() as nat,
                    |i: int|
                        if 0 <= i < items.len() {
                            items[i].view()
                        } else {
                            Val::Nil
                        },
                ),
            ),
            LispValue::Function(Callable::Add(_)) => Val::Function(FnVal::Add),
            LispValue::Function(Callable::Sub(_)) => Val::Function(FnVal::Sub),
            LispValue::Function(Callable::User(u)) => Val::Function(
                FnVal::User(names_view(u.params@), Box::new(u.body.view()), u.env as nat),
            ),
            LispValue::Bool(b) => Val::Bool(*b),
            LispValue::String(s) => Val::Str(s@),
            LispValue::Nil => Val::Nil,
        }
    }
}


/// Structural equality; a function is equal to nothing, itself included.
pub open spec fn value_eq(a: Val, b: Val) -> bool
    decreases a,
{
    match a {
        Val::Number(x) => b is Number && b->Number_0 == x,
        Val::Symbol(x) => b is Symbol && b->Symbol_0 == x,
        Val::List(xs) => b is List && items_eq(xs, b->List_0),
        Val::Function(_) => false,
        Val::Bool(x) => b is Bool && b->Bool_0 == x,
        Val::Str(x) => b is Str && b->Str_0 == x,
        Val::Nil => b is Nil,
    }
}

/// Element-wise structural equality of two sequences of equal length.
pub open spec fn items_eq(xs: Seq<Val>, ys: Seq<Val>) -> bool
    decreases xs,
{
    if xs.len() != ys.len() {
        false
    } else if xs.len() == 0 {
        true
    } else {
        items_eq(xs.subrange(0, xs.len() - 1), ys.subrange(0, ys.len() - 1))
            && value_eq(xs[xs.len() - 1], ys[ys.len() - 1])
    }
}

pub open spec fn digit_char(d: int) -> char {
    if d == 0 { '0' } else if d == 1 { '1' } else if d == 2 { '2' } else if d == 3 { '3' }
    else if d == 4 { '4' } else if d == 5 { '5' } else if d == 6 { '6' } else if d == 7 { '7' }
    else if d == 8 { '8' } else { '9' }
}

/// A function value is equal to no value, on either side, not even to itself.
pub proof fn law_functions_never_equal(a: Val, b: Val)
    requires
        a is Function,
    ensures
        !value_eq(a, b),
        !value_eq(b, a),
{
}

/// Decimal digits of a natural number, without leading zeros.
pub open spec fn nat_text(n: nat) -> Seq<char>
    decreases n,
{
    if n < 10 {
        seq![digit_char(n as int)]
    } else {
        nat_text(n / 10) + seq![digit_char((n % 10) as int)]
    }
}

/// Decimal form of an integer, with a leading minus sign when negative.
pub open spec fn int_text(n: int) -> Seq<char> {
    if n < 0 {
        seq!['-'] + nat_text((-n) as nat)
    } else {
        nat_text(n as nat)
    }
}

/// The canonical text of a value.
pub open spec fn display(v: Val) -> Seq<char>
    decreases v,
{
    match v {
        Val::Number(n) => int_text(n),
        Val::Symbol(s) => s,
        Val::List(xs) => seq!['('] + display_items(xs) + seq![')'],
        Val::Function(_) => "<function>"@,
        Val::Bool(b) => if b {
            "true"@
        } else {
            "false"@
        },
        Val::Str(s) => seq!['"'] + s + seq!['"'],
        Val::Nil => "nil"@,
    }
}

/// The texts of the values, joined with single spaces.
pub open spec fn display_items(xs: Seq<Val>) -> Seq<char>
    decreases xs,
{
    if xs.len() == 0 {
        Seq::empty()
    } else if xs.len() == 1 {
        display(xs[0])
    } else {
        display_items(xs.subrange(0, xs.len() - 1)) + seq![' '] + display(xs[xs.len() - 1])
    }
}

fn digit_str(d: u64) -> (r: &'static str)
    requires
        d < 10,
    ensures
        r@ == seq![digit_char(d as int)],
{
    proof {
        reveal_strlit("0");
        reveal_strlit("1");
        reveal_strlit("2");
        reveal_strlit("3");
        reveal_strlit("4");
        reveal_strlit("5");
        reveal_strlit("6");
        reveal_strlit("7");
        reveal_strlit("8");
        reveal_strlit("9");
    }
    if d == 0 { "0" } else if d == 1 { "1" } else if d == 2 { "2" } else if d == 3 { "3" }
    else if d == 4 { "4" } else if d == 5 { "5" } else if d == 6 { "6" } else if d == 7 { "7" }
    else if d == 8 { "8" } else { "9" }
}

fn push_nat_text(out: &mut String, n: u64)
    ensures
        final(out)@ == old(out)@ + nat_text(n as nat),
    decreases n,
{
    if n < 10 {
        out.append(digit_str(n));
    } else {
        push_nat_text(out, n / 10);
        out.append(digit_str(n % 10));
        assert(final(out)@ =~= old(out)@ + nat_text(n as nat));
    }
}

/// Two sequences that differ at some position are not element-wise equal.
proof fn lemma_items_eq_pointwise(xs: Seq<Val>, ys: Seq<Val>, i: int)
    requires
        0 <= i < xs.len(),
        xs.len() == ys.len(),
        !value_eq(xs[i], ys[i]),
    ensures
        !items_eq(xs, ys),
    decreases xs.len(),
{
    if i < xs.len() - 1 {
        lemma_items_eq_pointwise(xs.subrange(0, xs.len() - 1), ys.subrange(0, ys.len() - 1), i);
    }
}

/// A copy of a list of names.
pub fn copy_names(names: &Vec<String>) -> (r: Vec<String>)
    ensures
        names_view(r@) == names_view(names@),
        r@.len() == names@.len(),
{
    let mut out: Vec<String> = Vec::new();
    let mut i: usize = 0;
    while i < names.len()
        invariant
            i <= names.len(),
            out@.len() == i,
            forall|j: int| 0 <= j < i ==> out@[j]@ == names@[j]@,
        decreases names.len() - i,
    {
        out.push(names[i].clone());
        i = i + 1;
    }
    assert(names_view(out@) =~= names_view(names@));
    out
}

impl LispValue {
    /// A copy of the value with the same model.
    pub fn duplicate(&self) -> (r: LispValue)
        ensures
            r@ == self@,
        decreases self,
    {
        match self {
            LispValue::Number(n) => LispValue::Number(*n),
            LispValue::Symbol(s) => LispValue::Symbol(s.clone()),
            LispValue::List(items) => {
                let mut out: Vec<LispValue> = Vec::new();
                let mut i: usize = 0;
                while i < items.len()
                    invariant
                        i <= items.len(),
                        out@.len() == i,
                        *self is List && self->List_0 == *items,
                        forall|j: int| 0 <= j < i ==> out@[j]@ == items@[j]@,
                    decreases items.len() - i,
                {
                    proof { assert(decreases_to!(*items => items[i as int])); }
                    out.push(items[i].duplicate());
                    i = i + 1;
                }
                let r = LispValue::List(out);
                assert(r@->List_0 =~= self@->List_0);
                r
            },
            LispValue::Function(Callable::Add(_)) => LispValue::Function(Callable::Add(AddFn)),
            LispValue::Function(Callable::Sub(_)) => LispValue::Function(Callable::Sub(SubFn)),
            LispValue::Function(Callable::User(u)) => LispValue::Function(
                Callable::User(
                    UserFunction {
                        params: copy_names(&u.params),
                        body: Box::new(u.body.duplicate()),
                        env: u.env,
                    },
                ),
            ),
            LispValue::Bool(b) => LispValue::Bool(*b),
            LispValue::String(s) => LispValue::String(s.clone()),
            LispValue::Nil => LispValue::Nil,
        }
    }

    /// Structural equality: functions are never equal to anything.
    pub fn equals(&self, other: &LispValue) -> (r: bool)
        ensures
            r == value_eq(self@, other@),
        decreases self,
    {
        match (self, other) {
            (LispValue::Number(a), LispValue::Number(b)) => *a == *b,
            (LispValue::Symbol(a), LispValue::Symbol(b)) => *a == *b,
            (LispValue::List(a), LispValue::List(b)) => {
                let ghost xs = self@->List_0;
                let ghost ys = other@->List_0;
                if a.len() != b.len() {
                    return false;
                }
                let mut i: usize = 0;
                while i < a.len()
                    invariant
                        i <= a.len(),
                        a.len() == b.len(),
                        *self is List && self->List_0 == *a,
                        xs == self@->List_0,
                        ys == other@->List_0,
                        xs.len() == a.len(),
                        ys.len() == b.len(),
                        forall|j: int| 0 <= j < a.len() ==> xs[j] == #[trigger] a@[j]@,
                        forall|j: int| 0 <= j < b.len() ==> ys[j] == #[trigger] b@[j]@,
                        items_eq(xs.subrange(0, i as int), ys.subrange(0, i as int)),
                    decreases a.len() - i,
                {
                    proof { assert(decreases_to!(*a => a[i as int])); }
                    let e = a[i].equals(&b[i]);
                    proof {
                        assert(xs.subrange(0, i + 1).subrange(0, i as int) =~= xs.subrange(0, i as int));
                        assert(ys.subrange(0, i + 1).subrange(0, i as int) =~= ys.subrange(0, i as int));
                    }
                    if !e {
                        proof { lemma_items_eq_pointwise(xs, ys, i as int); }
                        return false;
                    }
                    i = i + 1;
                }
                assert(xs.subrange(0, i as int) =~= xs);
                assert(ys.subrange(0, i as int) =~= ys);
                true
            },
            (LispValue::Bool(a), LispValue::Bool(b)) => *a == *b,
            (LispValue::String(a), LispValue::String(b)) => *a == *b,
            (LispValue::Nil, LispValue::Nil) => true,
            _ => false,
        }
    }

    /// The canonical text: lists parenthesised and space-joined, strings
    /// quoted, `nil`, `true`, `false`, `<function>`.
    pub fn to_display(&self) -> (r: String)
        ensures
            r@ == display(self@),
        decreases self,
    {
        match self {
            LispValue::Number(n) => {
                let mut out = String::new();
                if *n < 0 {
                    proof { reveal_strlit("-"); }
                    out.append("-");
                    let m: u64 = if *n == i64::MIN { 9223372036854775808u64 } else { (-*n) as u64 };
                    push_nat_text(&mut out, m);
                } else {
                    push_nat_text(&mut out, *n as u64);
                }
                assert(out@ =~= display(self@));
                out
            },
            LispValue::Symbol(s) => s.clone(),
            LispValue::List(items) => {
                let ghost xs = self@->List_0;
                let mut body = String::new();
                let mut i: usize = 0;
                while i < items.len()
                    invariant
                        i <= items.len(),
                        *self is List && self->List_0 == *items,
                        xs == self@->List_0,
                        xs.len() == items.len(),
                        forall|j: int| 0 <= j < items.len() ==> xs[j] == #[trigger] items@[j]@,
                        body@ == display_items(xs.subrange(0, i as int)),
                    decreases items.len() - i,
                {
                    if i > 0 {
                        proof { reveal_strlit(" "); }
                        body.append(" ");
                    }
                    proof { assert(decreases_to!(*items => items[i as int])); }
                    let t = items[i].to_display();
                    body.append(t.as_str());
                    assert(xs.subrange(0, i + 1).subrange(0, i as int) =~= xs.subrange(0, i as int));
                    assert(body@ =~= display_items(xs.subrange(0, i + 1)));
                    i = i + 1;
                }
                assert(xs.subrange(0, i as int) =~= xs);
                let mut out = String::new();
                proof { reveal_strlit("("); reveal_strlit(")"); }
                out.append("(");
                out.append(body.as_str());
                out.append(")");
                assert(out@ =~= display(self@));
                out
            },
            LispValue::Function(_) => {
                proof { reveal_strlit("<function>"); }
                String::from_str("<function>")
            },
            LispValue::Bool(b) => {
                if *b {
                    String::from_str("true")
                } else {
                    String::from_str("false")
                }
            },
            LispValue::String(s) => {
                let mut out = String::new();
                proof { reveal_strlit("\""); }
                out.append("\"");
                out.append(s.as_str());
                out.append("\"");
                assert(out@ =~= display(self@));
                out
            },
            LispValue::Nil => String::from_str("nil"),
        }
    }
}

impl PartialEq for LispValue {
    fn eq(&self, other: &LispValue) -> (r: bool) {
        self.equals(other)
    }
}

impl vstd::std_specs::cmp::PartialEqSpecImpl for LispValue {
    open spec fn obeys_eq_spec() -> bool {
        true
    }

    open spec fn eq_spec(&self, other: &LispValue) -> bool {
        value_eq(self@, other@)
    }
}

} // verus!
