//! The refinement-type language: base types, literals, operators, predicates
//! and types, together with the structural queries (`has_base`, `shape_eq`)
//! that gate synthesis.

use vstd::prelude::*;

verus! {

/// A source range, kept on variables and diagnostics as metadata only.
/// Spans never take part in equality of variables.
#[derive(Clone, Copy, Debug, PartialEq, Eq, Structural)]
pub struct Span {
    pub start: usize,
    pub end: usize,
}

impl Span {
    /// The empty placeholder span, used for identifiers the engine invents.
    pub open spec fn empty_spec() -> Span {
        Span { start: 0, end: 0 }
    }

    pub fn empty() -> (s: Span)
        ensures
            s == Span::empty_spec(),
    {
        Span { start: 0, end: 0 }
    }
}

/// An identifier bound by a user annotation or by the engine itself. The
/// symbol is an interned name; the span records where the identifier was
/// written. Two variables are the same variable exactly when their symbols
/// are equal: the span is diagnostic metadata.
#[derive(Clone, Copy, Debug)]
pub struct Variable {
    pub sym: u64,
    pub span: Span,
}

/// The symbol reserved for the variable that a refined type binds over its
/// own predicate (the "result" variable of a synthesized type).
pub const BOUND_SYM: u64 = 0;

impl Variable {
    /// The reserved bound variable of a refined type, carrying no source span.
    pub open spec fn bound_spec() -> Variable {
        Variable { sym: BOUND_SYM, span: Span::empty_spec() }
    }

    pub fn bound() -> (v: Variable)
        ensures
            v == Variable::bound_spec(),
    {
        Variable { sym: BOUND_SYM, span: Span::empty() }
    }
}

impl PartialEq for Variable {
    /// Variables are equal exactly when their symbols are; spans are ignored.
    fn eq(&self, other: &Variable) -> (r: bool)
        ensures
            r == (self.sym == other.sym),
    {
        self.sym == other.sym
    }
}

impl vstd::std_specs::cmp::PartialEqSpecImpl for Variable {
    open spec fn obeys_eq_spec() -> bool {
        true
    }

    open spec fn eq_spec(&self, other: &Variable) -> bool {
        self.sym == other.sym
    }
}

/// Signedness of an integer base type.
#[derive(Clone, Copy, Debug, PartialEq, Eq, Structural)]
pub enum IntSign {
    Signed,
    Unsigned,
}

/// Width of an integer base type. Width is significant: two integer base
/// types with different widths are different base types.
#[derive(Clone, Copy, Debug, PartialEq, Eq, Structural)]
pub enum IntSize {
    Size8,
    Size16,
    Size32,
    Size64,
    Size128,
}

/// A base type: `Bool`, or an integer of a given signedness and width.
/// Equality is structural.
#[derive(Clone, Copy, Debug, PartialEq, Eq, Structural)]
pub enum BaseTy {
    Bool,
    Int(IntSign, IntSize),
}

/// A constant of a base type, as produced by the IR: a boolean, or an
/// integer carrying its bit pattern together with its signedness and width.
#[derive(Clone, Copy, Debug, PartialEq, Eq, Structural)]
pub enum Literal {
    Bool(bool),
    Int(u128, IntSign, IntSize),
}

impl Literal {
    /// The base type a literal inhabits.
    pub open spec fn base_ty_spec(self) -> BaseTy {
        match self {
            Literal::Bool(_) => BaseTy::Bool,
            Literal::Int(_, sign, size) => BaseTy::Int(sign, size),
        }
    }

    pub fn base_ty(&self) -> (b: BaseTy)
        ensures
            b == self.base_ty_spec(),
    {
        match self {
            Literal::Bool(_) => BaseTy::Bool,
            Literal::Int(_, sign, size) => BaseTy::Int(*sign, *size),
        }
    }
}

/// A unary operator usable in IR right-hand sides and inside predicates.
/// Arithmetic negation is itself parameterized by the signedness and width of
/// the integers it acts on; the engine never infers these from context.
#[derive(Clone, Copy, Debug, PartialEq, Eq, Structural)]
pub enum UnOp {
    /// Arithmetic negation of an integer of the given signedness and width.
    Neg(IntSign, IntSize),
    /// Logical negation of a boolean.
    Not,
}

/// A value-producing binary operator usable in IR right-hand sides (and,
/// like every IR operator, reusable inside predicates). Purely logical
/// connectives are deliberately not here: they live in [`Connective`], so an
/// IR right-hand side can never carry one.
#[derive(Clone, Copy, Debug, PartialEq, Eq, Structural)]
pub enum BinOp {
    Add(IntSign, IntSize),
    Sub(IntSign, IntSize),
    Mul(IntSign, IntSize),
    Div(IntSign, IntSize),
    Rem(IntSign, IntSize),
    /// Equality at the given base type; the operand base type is carried by
    /// the operator tag itself.
    Eq(BaseTy),
    /// Inequality at the given base type.
    Neq(BaseTy),
    Lt(IntSign, IntSize),
    Gt(IntSign, IntSize),
    Lte(IntSign, IntSize),
    Gte(IntSign, IntSize),
}

/// A logical connective, usable only inside refinement predicates, never as
/// an IR right-hand-side operator.
#[derive(Clone, Copy, Debug, PartialEq, Eq, Structural)]
pub enum Connective {
    And,
    Or,
}

/// A refinement-logic predicate: an immutable expression tree. Subtrees are
/// exclusively owned by their parent node; composition always builds new
/// trees and construction never fails. Well-formedness (operand arities and
/// base-type compatibility) is the caller's responsibility.
#[derive(Debug, PartialEq)]
pub enum Predicate {
    /// A reference to a bound variable.
    Var(Variable),
    /// A constant.
    Lit(Literal),
    /// A value-producing binary application.
    BinApp(BinOp, Box<Predicate>, Box<Predicate>),
    /// A unary application.
    UnApp(UnOp, Box<Predicate>),
    /// A logical connective between two predicates.
    Logical(Connective, Box<Predicate>, Box<Predicate>),
}

impl Clone for Predicate {
    fn clone(&self) -> (r: Self)
        ensures
            r == *self,
        decreases self,
    {
        match self {
            Predicate::Var(v) => Predicate::Var(*v),
            Predicate::Lit(l) => Predicate::Lit(*l),
            Predicate::BinApp(op, l, rgt) => Predicate::BinApp(
                *op,
                Box::new((&**l).clone()),
                Box::new((&**rgt).clone()),
            ),
            Predicate::UnApp(op, p) => Predicate::UnApp(*op, Box::new((&**p).clone())),
            Predicate::Logical(c, l, rgt) => Predicate::Logical(
                *c,
                Box::new((&**l).clone()),
                Box::new((&**rgt).clone()),
            ),
        }
    }
}

impl Predicate {
    /// What [`Predicate::eq`] builds: the canonical "`lhs` equals `rhs` at
    /// base type `base`" predicate.
    pub open spec fn eq_pred_spec(self, base: BaseTy, rhs: Predicate) -> Predicate {
        Predicate::BinApp(BinOp::Eq(base), Box::new(self), Box::new(rhs))
    }

    /// Builds `BinApp(Eq(base), self, rhs)`: the "result equals this
    /// expression" predicate that every synthesis rule introducing a fresh
    /// refined type uses.
    pub fn eq(self, base: BaseTy, rhs: Predicate) -> (r: Predicate)
        ensures
            r == self.eq_pred_spec(base, rhs),
    {
        Predicate::BinApp(BinOp::Eq(base), Box::new(self), Box::new(rhs))
    }

    /// Builds the conjunction of `self` and `rhs`.
    pub fn and(self, rhs: Predicate) -> (r: Predicate)
        ensures
            r == Predicate::Logical(Connective::And, Box::new(self), Box::new(rhs)),
    {
        Predicate::Logical(Connective::And, Box::new(self), Box::new(rhs))
    }

    /// Builds the disjunction of `self` and `rhs`.
    pub fn or(self, rhs: Predicate) -> (r: Predicate)
        ensures
            r == Predicate::Logical(Connective::Or, Box::new(self), Box::new(rhs)),
    {
        Predicate::Logical(Connective::Or, Box::new(self), Box::new(rhs))
    }

    /// Every occurrence of the variable named `from.sym` replaced by `to`.
    /// Variables are identified by symbol alone, so a same-named variable
    /// with a different span is renamed too.
    pub open spec fn rename_spec(self, from: Variable, to: Variable) -> Predicate
        decreases self,
    {
        match self {
            Predicate::Var(v) => if v.sym == from.sym {
                Predicate::Var(to)
            } else {
                Predicate::Var(v)
            },
            Predicate::Lit(l) => Predicate::Lit(l),
            Predicate::BinApp(op, l, r) => Predicate::BinApp(
                op,
                Box::new(l.rename_spec(from, to)),
                Box::new(r.rename_spec(from, to)),
            ),
            Predicate::UnApp(op, p) => Predicate::UnApp(op, Box::new(p.rename_spec(from, to))),
            Predicate::Logical(c, l, r) => Predicate::Logical(
                c,
                Box::new(l.rename_spec(from, to)),
                Box::new(r.rename_spec(from, to)),
            ),
        }
    }

    /// Renames every occurrence of `from` (by symbol) to `to`, building a new
    /// tree. Used by the checking engine to bring the bound variables of two
    /// refined types together before an implication is posed.
    pub fn rename(&self, from: Variable, to: Variable) -> (r: Predicate)
        ensures
            r == self.rename_spec(from, to),
        decreases self,
    {
        match self {
            Predicate::Var(v) => if v.sym == from.sym {
                Predicate::Var(to)
            } else {
                Predicate::Var(*v)
            },
            Predicate::Lit(l) => Predicate::Lit(*l),
            Predicate::BinApp(op, l, rgt) => Predicate::BinApp(
                *op,
                Box::new((&**l).rename(from, to)),
                Box::new((&**rgt).rename(from, to)),
            ),
            Predicate::UnApp(op, p) => Predicate::UnApp(*op, Box::new((&**p).rename(from, to))),
            Predicate::Logical(c, l, rgt) => Predicate::Logical(
                *c,
                Box::new((&**l).rename(from, to)),
                Box::new((&**rgt).rename(from, to)),
            ),
        }
    }
}

/// The ordered parameter list of a function type: single-owner boxed nodes,
/// never shared, never cyclic. Order is significant and fixed; later
/// parameter types may refer to earlier parameters.
#[derive(Debug, PartialEq)]
pub enum Params {
    Nil,
    /// A parameter (its binder and its type) followed by the rest of the list.
    Cons(Variable, Box<Ty>, Box<Params>),
}

/// A refinement type.
#[derive(Debug, PartialEq)]
pub enum Ty {
    /// An unrefined base type: the full value range.
    Base(BaseTy),
    /// `{ v : B | P }`: the variable is freshly bound by this type and scoped
    /// only to its own predicate.
    Refined(Variable, BaseTy, Predicate),
    /// A dependent function type: an ordered parameter list (later parameter
    /// types and the return type may refer to earlier parameters) and a
    /// return type.
    Func(Params, Box<Ty>),
}

impl Ty {
    /// Whether this type "has" the given base type: its outward base type
    /// (for `Base` and `Refined`) equals it. A function type never has a
    /// scalar base. The answer depends only on the outward base type, never
    /// on any predicate.
    pub open spec fn has_base_spec(self, base: BaseTy) -> bool {
        match self {
            Ty::Base(b) => b == base,
            Ty::Refined(_, b, _) => b == base,
            Ty::Func(_, _) => false,
        }
    }

    pub fn has_base(&self, base: BaseTy) -> (r: bool)
        ensures
            r == self.has_base_spec(base),
    {
        match self {
            Ty::Base(b) => *b == base,
            Ty::Refined(_, b, _) => *b == base,
            Ty::Func(_, _) => false,
        }
    }

    /// Whether two types have the same shape: their base-type skeletons match
    /// recursively, with every predicate erased. A `Base` and a `Refined`
    /// with the same base type are shape-equal; two function types are
    /// shape-equal when their arities, pairwise parameter shapes and return
    /// shapes are. Shape equality answers "could these ever be the same kind
    /// of value", never "are they the same constraint".
    pub open spec fn shape_eq_spec(self, other: Ty) -> bool
        decreases self,
    {
        match (self, other) {
            (Ty::Base(b1), Ty::Base(b2)) => b1 == b2,
            (Ty::Base(b1), Ty::Refined(_, b2, _)) => b1 == b2,
            (Ty::Refined(_, b1, _), Ty::Base(b2)) => b1 == b2,
            (Ty::Refined(_, b1, _), Ty::Refined(_, b2, _)) => b1 == b2,
            (Ty::Func(ps1, r1), Ty::Func(ps2, r2)) => {
                ps1.shape_eq_spec(ps2) && r1.shape_eq_spec(*r2)
            },
            _ => false,
        }
    }

    pub fn shape_eq(&self, other: &Ty) -> (r: bool)
        ensures
            r == self.shape_eq_spec(*other),
        decreases self,
    {
        match (self, other) {
            (Ty::Base(b1), Ty::Base(b2)) => *b1 == *b2,
            (Ty::Base(b1), Ty::Refined(_, b2, _)) => *b1 == *b2,
            (Ty::Refined(_, b1, _), Ty::Base(b2)) => *b1 == *b2,
            (Ty::Refined(_, b1, _), Ty::Refined(_, b2, _)) => *b1 == *b2,
            (Ty::Func(ps1, r1), Ty::Func(ps2, r2)) => {
                ps1.shape_eq(ps2) && (&**r1).shape_eq(&**r2)
            },
            _ => false,
        }
    }
}

impl Params {
    /// Whether two parameter lists have pairwise shape-equal parameter types
    /// (and the same arity). Parameter binders are names, not shapes, so they
    /// are ignored, as every predicate is.
    pub open spec fn shape_eq_spec(self, other: Params) -> bool
        decreases self,
    {
        match (self, other) {
            (Params::Nil, Params::Nil) => true,
            (Params::Cons(_, t1, rest1), Params::Cons(_, t2, rest2)) => {
                t1.shape_eq_spec(*t2) && rest1.shape_eq_spec(*rest2)
            },
            _ => false,
        }
    }

    pub fn shape_eq(&self, other: &Params) -> (r: bool)
        ensures
            r == self.shape_eq_spec(*other),
        decreases self,
    {
        match (self, other) {
            (Params::Nil, Params::Nil) => true,
            (Params::Cons(_, t1, rest1), Params::Cons(_, t2, rest2)) => {
                (&**t1).shape_eq(&**t2) && (&**rest1).shape_eq(&**rest2)
            },
            _ => false,
        }
    }
}

impl Clone for Ty {
    fn clone(&self) -> (r: Self)
        ensures
            r == *self,
        decreases self,
    {
        match self {
            Ty::Base(b) => Ty::Base(*b),
            Ty::Refined(v, b, p) => Ty::Refined(*v, *b, p.clone()),
            Ty::Func(ps, ret) => Ty::Func(ps.clone(), Box::new((&**ret).clone())),
        }
    }
}

impl Clone for Params {
    fn clone(&self) -> (r: Self)
        ensures
            r == *self,
        decreases self,
    {
        match self {
            Params::Nil => Params::Nil,
            Params::Cons(v, t, rest) => Params::Cons(
                *v,
                Box::new((&**t).clone()),
                Box::new((&**rest).clone()),
            ),
        }
    }
}

} // verus!
