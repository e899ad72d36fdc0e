//! The environment: a nested, lexically scoped mapping from IR locals to the
//! binder variable and refined type each is known by, and the bridge that
//! resolves an IR operand into a predicate term.
//!
//! Bindings live in one flat list; each inner scope remembers where it
//! started, so leaving it discards exactly the bindings made inside it and
//! an inner scope never alters an outer one. A lookup walks from the newest
//! binding backwards, so shadowing resolves to the innermost binding.

use vstd::prelude::*;

use crate::ir::Local;
use crate::ir::Operand;
use crate::ty::Predicate;
use crate::ty::Ty;
use crate::ty::Variable;

verus! {

/// The innermost binding of `x` in `s`, searching from the newest entry.
pub open spec fn lookup_bindings(s: Seq<(Local, Variable, Ty)>, x: Local) -> Option<(Variable, Ty)>
    decreases s.len(),
{
    if s.len() == 0 {
        None
    } else if s.last().0 == x {
        Some((s.last().1, s.last().2))
    } else {
        lookup_bindings(s.drop_last(), x)
    }
}

/// Maps IR locals to their binder variable and currently known refined type
/// for the duration of one function body's check. Exclusively owned by that
/// check and rebuilt per function; there is no global state.
pub struct Env {
    /// All live bindings, outermost scope first, newest binding last.
    pub bindings: Vec<(Local, Variable, Ty)>,
    /// For each open inner scope, the index in `bindings` where it started.
    pub marks: Vec<usize>,
}

impl Env {
    /// Well-formedness: every scope mark lies within the binding list, and
    /// marks of more deeply nested scopes never precede those of outer ones.
    pub open spec fn wf(self) -> bool {
        &&& forall|i: int| 0 <= i < self.marks@.len() ==> self.marks@[i] <= self.bindings@.len()
        &&& forall|i: int, j: int|
            0 <= i <= j < self.marks@.len() ==> self.marks@[i] <= self.marks@[j]
    }

    /// The innermost binding of `x`, if any.
    pub open spec fn lookup_spec(self, x: Local) -> Option<(Variable, Ty)> {
        lookup_bindings(self.bindings@, x)
    }

    /// Whether `x` is bound at all.
    pub open spec fn binds_spec(self, x: Local) -> bool {
        self.lookup_spec(x) is Some
    }

    /// The binder variable `x` resolves to (meaningful only when `x` is bound).
    pub open spec fn binder_spec(self, x: Local) -> Variable
        recommends
            self.binds_spec(x),
    {
        match self.lookup_spec(x) {
            Some(entry) => entry.0,
            None => Variable::bound_spec(),
        }
    }

    /// Whether an operand can be resolved here: a literal always can; a
    /// local reference only if a prior type assignment bound the local. The
    /// lowering component that produces the IR guarantees this, so an
    /// unresolvable operand is an upstream defect, not a user error, and the
    /// resolving functions exclude it by precondition.
    pub open spec fn operand_wf(self, op: Operand) -> bool {
        match op {
            Operand::Lit(_) => true,
            Operand::Local(x) => self.binds_spec(x),
        }
    }

    /// What operand resolution yields: a literal operand becomes a constant
    /// term, a local reference becomes the variable naming its binder.
    pub open spec fn resolve_operand_spec(self, op: Operand) -> Predicate
        recommends
            self.operand_wf(op),
    {
        match op {
            Operand::Lit(l) => Predicate::Lit(l),
            Operand::Local(x) => Predicate::Var(self.binder_spec(x)),
        }
    }

    /// A fresh environment with only the outermost scope open.
    pub fn new() -> (env: Env)
        ensures
            env.wf(),
            env.bindings@ =~= Seq::<(Local, Variable, Ty)>::empty(),
            env.marks@ =~= Seq::<usize>::empty(),
    {
        Env { bindings: Vec::new(), marks: Vec::new() }
    }

    /// Binds `local` in the innermost open scope to the binder `binder` of
    /// type `ty`, shadowing any previous binding of the same local.
    pub fn bind(&mut self, local: Local, binder: Variable, ty: Ty)
        requires
            old(self).wf(),
        ensures
            final(self).wf(),
            final(self).bindings@ == old(self).bindings@.push((local, binder, ty)),
            final(self).marks@ == old(self).marks@,
            forall|x: Local|
                #[trigger] final(self).lookup_spec(x) == if x == local {
                    Some((binder, ty))
                } else {
                    old(self).lookup_spec(x)
                },
    {
        self.bindings.push((local, binder, ty));
        proof {
            assert forall|x: Local| #[trigger]
                self.lookup_spec(x) == if x == local {
                    Some((binder, ty))
                } else {
                    old(self).lookup_spec(x)
                } by {
                assert(self.bindings@.drop_last() =~= old(self).bindings@);
            }
        }
    }

    /// Opens a new inner scope.
    pub fn push_scope(&mut self)
        requires
            old(self).wf(),
        ensures
            final(self).wf(),
            final(self).bindings@ == old(self).bindings@,
            final(self).marks@ == old(self).marks@.push(old(self).bindings@.len() as usize),
    {
        let mark = self.bindings.len();
        self.marks.push(mark);
    }

    /// Leaves the innermost inner scope, discarding every binding made inside
    /// it and nothing else.
    pub fn pop_scope(&mut self)
        requires
            old(self).wf(),
            old(self).marks@.len() > 0,
        ensures
            final(self).wf(),
            final(self).bindings@ == old(self).bindings@.take(old(self).marks@.last() as int),
            final(self).marks@ == old(self).marks@.drop_last(),
    {
        let mark = self.marks.pop().unwrap();
        self.bindings.truncate(mark);
    }

    /// The innermost binding of `x`: its binder variable and a copy of its
    /// type.
    pub fn get(&self, x: Local) -> (r: Option<(Variable, Ty)>)
        ensures
            r == self.lookup_spec(x),
    {
        let n = self.bindings.len();
        let mut i = n;
        proof {
            assert(self.bindings@.take(n as int) =~= self.bindings@);
        }
        while i > 0
            invariant
                i <= n,
                n == self.bindings@.len(),
                lookup_bindings(self.bindings@, x) == lookup_bindings(
                    self.bindings@.take(i as int),
                    x,
                ),
            decreases i,
        {
            i = i - 1;
            let entry = &self.bindings[i];
            proof {
                assert(self.bindings@.take(i + 1).last() == self.bindings@[i as int]);
                assert(self.bindings@.take(i + 1).drop_last() =~= self.bindings@.take(i as int));
            }
            if entry.0 == x {
                return Some((entry.1, entry.2.clone()));
            }
        }
        None
    }

    /// Whether `x` is currently bound.
    pub fn binds(&self, x: Local) -> (r: bool)
        ensures
            r == self.binds_spec(x),
    {
        let n = self.bindings.len();
        let mut i = n;
        proof {
            assert(self.bindings@.take(n as int) =~= self.bindings@);
        }
        while i > 0
            invariant
                i <= n,
                n == self.bindings@.len(),
                lookup_bindings(self.bindings@, x) == lookup_bindings(
                    self.bindings@.take(i as int),
                    x,
                ),
            decreases i,
        {
            i = i - 1;
            let entry = &self.bindings[i];
            proof {
                assert(self.bindings@.take(i + 1).last() == self.bindings@[i as int]);
                assert(self.bindings@.take(i + 1).drop_last() =~= self.bindings@.take(i as int));
            }
            if entry.0 == x {
                return true;
            }
        }
        false
    }

    /// Resolves an IR operand into a predicate term: a literal becomes a
    /// constant, a local reference the variable naming its binder.
    pub fn resolve_operand(&self, op: &Operand) -> (r: Predicate)
        requires
            self.operand_wf(*op),
        ensures
            r == self.resolve_operand_spec(*op),
    {
        match op {
            Operand::Lit(l) => Predicate::Lit(*l),
            Operand::Local(x) => {
                let entry = self.get(*x);
                match entry {
                    Some(e) => Predicate::Var(e.0),
                    None => unreached(),
                }
            },
        }
    }
}

} // verus!
