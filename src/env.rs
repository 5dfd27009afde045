//! Environments as an arena of frames. A frame holds bindings and the index of
//! its parent frame, which is always smaller than its own index; closures
//! refer to frames by index, so every holder of a frame sees its mutations.
use vstd::prelude::*;
use crate::ast::{LispValue, Val, names_view};
use crate::error::{EvalError, Fault};

verus! {

/// The mathematical model of a frame: names and values side by side.
pub struct FrameV {
    pub names: Seq<Seq<char>>,
    pub vals: Seq<Val>,
    pub parent: Option<nat>,
}

/// One scope level.
pub struct Frame {
    names: Vec<String>,
    values: Vec<LispValue>,
    parent: Option<usize>,
}

/// All frames of a session; frame 0 is the root.
pub struct Env {
    frames: Vec<Frame>,
}

pub open spec fn vals_view(vs: Seq<LispValue>) -> Seq<Val> {
    Seq::new(vs.len(), |i: int| vs[i]@)
}

impl Frame {
    pub closed spec fn view(&self) -> FrameV {
        FrameV {
            names: names_view(self.names@),
            vals: vals_view(self.values@),
            parent: match self.parent {
                Some(p) => Some(p as nat),
                None => None,
            },
        }
    }
}

impl Env {
    pub closed spec fn view(&self) -> Seq<FrameV> {
        Seq::new(self.frames@.len(), |i: int| self.frames@[i]@)
    }

    pub closed spec fn wf(&self) -> bool {
        &&& frames_wf(self@)
        &&& forall|i: int| 0 <= i < self.frames@.len() ==> #[trigger] self.frames@[i].names@.len()
            == self.frames@[i].values@.len()
    }
}

/// Every frame's parent precedes it, names and values pair up, and a root exists.
pub open spec fn frames_wf(fs: Seq<FrameV>) -> bool {
    &&& fs.len() >= 1
    &&& forall|i: int| 0 <= i < fs.len() ==> (#[trigger] fs[i]).names.len() == fs[i].vals.len()
    &&& forall|i: int|
        0 <= i < fs.len() && (#[trigger] fs[i]).parent is Some ==> fs[i].parent->0 < i
}

/// Position of the binding of `name` in a frame's names (the last one), or -1.
pub open spec fn slot(names: Seq<Seq<char>>, name: Seq<char>) -> int
    decreases names.len(),
{
    if names.len() == 0 {
        -1
    } else if names.last() == name {
        names.len() - 1
    } else {
        slot(names.drop_last(), name)
    }
}

/// The nearest frame, walking from `f` up through parents, that binds `name`.
pub open spec fn holder(fs: Seq<FrameV>, f: nat, name: Seq<char>) -> Option<nat>
    decreases f,
{
    if f >= fs.len() {
        None
    } else if slot(fs[f as int].names, name) >= 0 {
        Some(f)
    } else {
        match fs[f as int].parent {
            Some(p) => if p < f {
                holder(fs, p, name)
            } else {
                None
            },
            None => None,
        }
    }
}

/// The value that `name` resolves to from frame `f`.
pub open spec fn lookup(fs: Seq<FrameV>, f: nat, name: Seq<char>) -> Option<Val> {
    match holder(fs, f, name) {
        Some(h) => Some(fs[h as int].vals[slot(fs[h as int].names, name)]),
        None => None,
    }
}

/// The frame with `name` bound to `v`: an existing binding is overwritten.
pub open spec fn frame_bind(fr: FrameV, name: Seq<char>, v: Val) -> FrameV {
    let k = slot(fr.names, name);
    if k >= 0 {
        FrameV { vals: fr.vals.update(k, v), ..fr }
    } else {
        FrameV { names: fr.names.push(name), vals: fr.vals.push(v), ..fr }
    }
}

/// `define`: binds in frame `f` itself.
pub open spec fn define_in(fs: Seq<FrameV>, f: nat, name: Seq<char>, v: Val) -> Seq<FrameV> {
    fs.update(f as int, frame_bind(fs[f as int], name, v))
}

/// `set!`: overwrites the nearest existing binding, if there is one.
pub open spec fn assign_in(fs: Seq<FrameV>, f: nat, name: Seq<char>, v: Val) -> Seq<FrameV> {
    match holder(fs, f, name) {
        Some(h) => define_in(fs, h, name, v),
        None => fs,
    }
}

pub proof fn lemma_slot_range(names: Seq<Seq<char>>, name: Seq<char>)
    ensures
        -1 <= slot(names, name) < names.len(),
        slot(names, name) >= 0 ==> names[slot(names, name)] == name,
    decreases names.len(),
{
    if names.len() > 0 && names.last() != name {
        lemma_slot_range(names.drop_last(), name);
    }
}

/// Binding `n` in a frame makes `n` resolve there to the new value.
pub proof fn lemma_bind_same(fr: FrameV, n: Seq<char>, v: Val)
    requires
        fr.names.len() == fr.vals.len(),
    ensures
        ({
            let nf = frame_bind(fr, n, v);
            &&& nf.names.len() == nf.vals.len()
            &&& nf.parent == fr.parent
            &&& slot(nf.names, n) >= 0
            &&& nf.vals[slot(nf.names, n)] == v
        }),
{
    lemma_slot_range(fr.names, n);
    let k = slot(fr.names, n);
    if k < 0 {
        let nf = frame_bind(fr, n, v);
        assert(nf.names.drop_last() =~= fr.names);
        assert(slot(nf.names, n) == fr.names.len());
    }
}

/// Binding `n` in a frame leaves the binding of every other name as it was.
pub proof fn lemma_bind_other(fr: FrameV, n: Seq<char>, v: Val, m: Seq<char>)
    requires
        fr.names.len() == fr.vals.len(),
        m != n,
    ensures
        ({
            let nf = frame_bind(fr, n, v);
            &&& slot(nf.names, m) == slot(fr.names, m)
            &&& slot(fr.names, m) >= 0 ==> nf.vals[slot(nf.names, m)] == fr.vals[slot(fr.names, m)]
        }),
{
    lemma_slot_range(fr.names, n);
    lemma_slot_range(fr.names, m);
    let k = slot(fr.names, n);
    if k < 0 {
        let nf = frame_bind(fr, n, v);
        assert(nf.names.drop_last() =~= fr.names);
    }
}

/// A name bound in frame `f` itself resolves there.
pub proof fn lemma_lookup_here(fs: Seq<FrameV>, f: nat, name: Seq<char>)
    requires
        f < fs.len(),
        slot(fs[f as int].names, name) >= 0,
    ensures
        holder(fs, f, name) == Some(f),
        lookup(fs, f, name) == Some(fs[f as int].vals[slot(fs[f as int].names, name)]),
{
}

impl Env {
    /// A well-formed session's frames satisfy `frames_wf`.
    pub proof fn lemma_wf(&self)
        requires
            self.wf(),
        ensures
            frames_wf(self@),
    {
    }

    /// A session with one empty root frame.
    pub fn new() -> (r: Env)
        ensures
            r.wf(),
            r@ == seq![FrameV { names: Seq::empty(), vals: Seq::empty(), parent: None }],
    {
        let mut frames: Vec<Frame> = Vec::new();
        frames.push(Frame { names: Vec::new(), values: Vec::new(), parent: None });
        let r = Env { frames };
        assert(r@[0].names =~= Seq::empty());
        assert(r@[0].vals =~= Seq::empty());
        assert(r@ =~= seq![FrameV { names: Seq::empty(), vals: Seq::empty(), parent: None }]);
        r
    }

    /// Number of frames.
    pub fn len(&self) -> (r: usize)
        ensures
            r == self@.len(),
    {
        self.frames.len()
    }

    fn find_slot(names: &Vec<String>, name: &String) -> (r: Option<usize>)
        ensures
            match r {
                Some(k) => slot(names_view(names@), name@) == k as int,
                None => slot(names_view(names@), name@) == -1,
            },
    {
        let ghost nv = names_view(names@);
        let mut i: usize = names.len();
        assert(nv.subrange(0, i as int) =~= nv);
        while i > 0
            invariant
                i <= names.len(),
                nv == names_view(names@),
                slot(nv, name@) == slot(nv.subrange(0, i as int), name@),
            decreases i,
        {
            assert(nv.subrange(0, i as int).drop_last() =~= nv.subrange(0, i - 1));
            if names[i - 1] == *name {
                return Some(i - 1);
            }
            i = i - 1;
        }
        assert(nv.subrange(0, 0).len() == 0);
        None
    }

    /// Binds `name` to `value` in frame `f` only, overwriting an earlier binding
    /// there; ancestors are untouched.
    pub fn define(&mut self, f: usize, name: String, value: LispValue)
        requires
            old(self).wf(),
            f < old(self)@.len(),
        ensures
            final(self).wf(),
            final(self)@ == define_in(old(self)@, f as nat, name@, value@),
            final(self)@.len() == old(self)@.len(),
    {
        let ghost fs0 = old(self)@;
        proof { lemma_slot_range(fs0[f as int].names, name@); }
        let k = Self::find_slot(&self.frames[f].names, &name);
        let ghost nv = value@;
        let ghost nm = name@;
        match k {
            Some(k) => {
                self.frames[f].values.set(k, value);
            },
            None => {
                self.frames[f].names.push(name);
                self.frames[f].values.push(value);
            },
        }
        proof {
            let want = define_in(fs0, f as nat, nm, nv);
            assert(self@[f as int].names =~= want[f as int].names);
            assert(self@[f as int].vals =~= want[f as int].vals);
            assert(self@ =~= want);
        }
    }

    /// The value bound to `name` in the nearest frame from `f` upward, or
    /// `UnboundSymbol(name)`.
    pub fn get(&self, f: usize, name: &String) -> (r: Result<LispValue, EvalError>)
        requires
            self.wf(),
            f < self@.len(),
        ensures
            match lookup(self@, f as nat, name@) {
                Some(v) => r is Ok && r->Ok_0@ == v,
                None => r is Err && r->Err_0@ == Fault::UnboundSymbol(name@),
            },
    {
        match self.find_holder(f, name) {
            Some((h, k)) => Ok(self.frames[h].values[k].duplicate()),
            None => Err(EvalError::UnboundSymbol(name.clone())),
        }
    }

    fn find_holder(&self, f: usize, name: &String) -> (r: Option<(usize, usize)>)
        requires
            self.wf(),
            f < self@.len(),
        ensures
            match r {
                Some((h, k)) => holder(self@, f as nat, name@) == Some(h as nat) && h < self@.len()
                    && k == slot(self@[h as int].names, name@) && k < self.frames@[h as int].values@.len(),
                None => holder(self@, f as nat, name@) is None,
            },
    {
        let mut cur: usize = f;
        loop
            invariant
                self.wf(),
                cur < self@.len(),
                holder(self@, f as nat, name@) == holder(self@, cur as nat, name@),
            decreases cur,
        {
            proof { lemma_slot_range(self@[cur as int].names, name@); }
            match Self::find_slot(&self.frames[cur].names, name) {
                Some(k) => {
                    return Some((cur, k));
                },
                None => {
                    match self.frames[cur].parent {
                        Some(p) => {
                            assert(self@[cur as int].parent == Some(p as nat));
                            cur = p;
                        },
                        None => {
                            return None;
                        },
                    }
                },
            }
        }
    }

    /// Overwrites the nearest existing binding of `name` from `f` upward, so
    /// that every holder of that frame sees the new value; `UnboundSymbol(name)`
    /// when no frame on the chain binds it.
    pub fn set(&mut self, f: usize, name: String, value: LispValue) -> (r: Result<(), EvalError>)
        requires
            old(self).wf(),
            f < old(self)@.len(),
        ensures
            final(self).wf(),
            final(self)@ == assign_in(old(self)@, f as nat, name@, value@),
            final(self)@.len() == old(self)@.len(),
            holder(old(self)@, f as nat, name@) is Some <==> r is Ok,
            r is Err ==> r->Err_0@ == Fault::UnboundSymbol(name@),
    {
        match self.find_holder(f, &name) {
            Some((h, _)) => {
                self.define(h, name, value);
                Ok(())
            },
            None => Err(EvalError::UnboundSymbol(name)),
        }
    }

    /// Adds a frame whose parent is `parent`, binding `names` to `values`
    /// pairwise; returns its index.
    pub fn push_frame(&mut self, parent: usize, names: Vec<String>, values: Vec<LispValue>) -> (r: usize)
        requires
            old(self).wf(),
            parent < old(self)@.len(),
            names@.len() == values@.len(),
            old(self)@.len() < usize::MAX,
        ensures
            final(self).wf(),
            r == old(self)@.len(),
            final(self)@ == old(self)@.push(
                FrameV { names: names_view(names@), vals: vals_view(values@), parent: Some(parent as nat) },
            ),
    {
        let r = self.frames.len();
        self.frames.push(Frame { names, values, parent: Some(parent) });
        assert(self@ =~= old(self)@.push(
            FrameV { names: names_view(names@), vals: vals_view(values@), parent: Some(parent as nat) },
        ));
        r
    }
}

} // verus!
