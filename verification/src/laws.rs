//! Proved laws of the type language and of the synthesis rules: facts that
//! relate several operations and that callers may rely on.

use vstd::prelude::*;

use crate::env::Env;
use crate::ir::Operand;
use crate::ir::Rvalue;
use crate::result::TyError;
use crate::result::TyErrorKind;
use crate::synth::bin_op_sig;
use crate::synth::eq_refined;
use crate::synth::operand_synth_spec;
use crate::synth::rvalue_synth_spec;
use crate::ty::BaseTy;
use crate::ty::BinOp;
use crate::ty::IntSign;
use crate::ty::IntSize;
use crate::ty::Params;
use crate::ty::Predicate;
use crate::ty::Span;
use crate::ty::Ty;
use crate::ty::Variable;

verus! {

/// Shape equality is reflexive: every constructed type has its own shape.
pub proof fn lemma_shape_eq_reflexive(t: Ty)
    ensures
        t.shape_eq_spec(t),
    decreases t,
{
    match t {
        Ty::Base(_) => {},
        Ty::Refined(_, _, _) => {},
        Ty::Func(ps, r) => {
            lemma_params_shape_eq_reflexive(ps);
            lemma_shape_eq_reflexive(*r);
        },
    }
}

/// Shape equality of parameter lists is reflexive.
pub proof fn lemma_params_shape_eq_reflexive(ps: Params)
    ensures
        ps.shape_eq_spec(ps),
    decreases ps,
{
    match ps {
        Params::Nil => {},
        Params::Cons(_, t, rest) => {
            lemma_shape_eq_reflexive(*t);
            lemma_params_shape_eq_reflexive(*rest);
        },
    }
}

/// Shape equality is symmetric: the answer never depends on the order of the
/// two types.
pub proof fn lemma_shape_eq_symmetric(a: Ty, b: Ty)
    ensures
        a.shape_eq_spec(b) == b.shape_eq_spec(a),
    decreases a,
{
    match (a, b) {
        (Ty::Func(ps1, r1), Ty::Func(ps2, r2)) => {
            lemma_params_shape_eq_symmetric(ps1, ps2);
            lemma_shape_eq_symmetric(*r1, *r2);
        },
        _ => {},
    }
}

/// Shape equality of parameter lists is symmetric.
pub proof fn lemma_params_shape_eq_symmetric(a: Params, b: Params)
    ensures
        a.shape_eq_spec(b) == b.shape_eq_spec(a),
    decreases a,
{
    match (a, b) {
        (Params::Cons(_, t1, rest1), Params::Cons(_, t2, rest2)) => {
            lemma_shape_eq_symmetric(*t1, *t2);
            lemma_params_shape_eq_symmetric(*rest1, *rest2);
        },
        _ => {},
    }
}

/// Shape equality is transitive, so with reflexivity and symmetry it is an
/// equivalence relation on types.
pub proof fn lemma_shape_eq_transitive(a: Ty, b: Ty, c: Ty)
    requires
        a.shape_eq_spec(b),
        b.shape_eq_spec(c),
    ensures
        a.shape_eq_spec(c),
    decreases a,
{
    match (a, b, c) {
        (Ty::Func(ps1, r1), Ty::Func(ps2, r2), Ty::Func(ps3, r3)) => {
            lemma_params_shape_eq_transitive(ps1, ps2, ps3);
            lemma_shape_eq_transitive(*r1, *r2, *r3);
        },
        _ => {},
    }
}

/// Shape equality of parameter lists is transitive.
pub proof fn lemma_params_shape_eq_transitive(a: Params, b: Params, c: Params)
    requires
        a.shape_eq_spec(b),
        b.shape_eq_spec(c),
    ensures
        a.shape_eq_spec(c),
    decreases a,
{
    match (a, b, c) {
        (Params::Cons(_, t1, rest1), Params::Cons(_, t2, rest2), Params::Cons(_, t3, rest3)) => {
            lemma_shape_eq_transitive(*t1, *t2, *t3);
            lemma_params_shape_eq_transitive(*rest1, *rest2, *rest3);
        },
        _ => {},
    }
}

/// `has_base` reads only the outward base type: two refined types with the
/// same base type but different bound variables and different predicates
/// answer every `has_base` query alike.
pub proof fn lemma_has_base_ignores_predicate(
    v1: Variable,
    p1: Predicate,
    v2: Variable,
    p2: Predicate,
    b: BaseTy,
    query: BaseTy,
)
    ensures
        Ty::Refined(v1, b, p1).has_base_spec(query) == Ty::Refined(v2, b, p2).has_base_spec(query),
{
}

/// `has_base` is a function of the type and the query alone: asking the same
/// question of the same type always yields the same answer.
pub proof fn lemma_has_base_idempotent(t: Ty, query: BaseTy, first: bool, second: bool)
    requires
        first == t.has_base_spec(query),
        second == t.has_base_spec(query),
    ensures
        first == second,
{
}

/// Two types that both have the same scalar base are shape-equal: having a
/// base pins the whole shape of a scalar type.
pub proof fn lemma_same_base_shape_eq(a: Ty, b: Ty, base: BaseTy)
    requires
        a.has_base_spec(base),
        b.has_base_spec(base),
    ensures
        a.shape_eq_spec(b),
{
}

/// Combining two integer refined types of the operator's own sign and size
/// with addition synthesizes exactly `{ b : Int(sign, size) | b == a + b }`
/// over the resolved operand terms (a constant for a literal operand, the
/// binder variable for a local).
pub proof fn lemma_add_synthesizes_sum(
    env: Env,
    a: Operand,
    b: Operand,
    sign: IntSign,
    size: IntSize,
    span: Span,
)
    requires
        env.operand_wf(a),
        env.operand_wf(b),
        operand_synth_spec(env, a) is Refined,
        operand_synth_spec(env, a).has_base_spec(BaseTy::Int(sign, size)),
        operand_synth_spec(env, b) is Refined,
        operand_synth_spec(env, b).has_base_spec(BaseTy::Int(sign, size)),
    ensures
        rvalue_synth_spec(env, Rvalue::BinApp(BinOp::Add(sign, size), a, b), span) == Ok::<
            Ty,
            TyError,
        >(
            eq_refined(
                BaseTy::Int(sign, size),
                Predicate::BinApp(
                    BinOp::Add(sign, size),
                    Box::new(env.resolve_operand_spec(a)),
                    Box::new(env.resolve_operand_spec(b)),
                ),
            ),
        ),
{
}

/// A binary application over operands of mismatched shapes (one scalar and
/// one function-shaped, say) fails with `ShapeMismatch` carrying the left
/// operand's type as expected and the right's as found. Nothing is assumed
/// of the operands' base types: the shape check comes first, so this holds
/// even when a base mismatch exists as well.
pub proof fn lemma_shape_mismatch_is_first(
    env: Env,
    op: BinOp,
    a: Operand,
    b: Operand,
    span: Span,
)
    requires
        env.operand_wf(a),
        env.operand_wf(b),
        !operand_synth_spec(env, a).shape_eq_spec(operand_synth_spec(env, b)),
    ensures
        rvalue_synth_spec(env, Rvalue::BinApp(op, a, b), span) == Err::<Ty, TyError>(
            TyError {
                kind: TyErrorKind::ShapeMismatch {
                    expected: operand_synth_spec(env, a),
                    found: operand_synth_spec(env, b),
                },
                span,
            },
        ),
{
}

/// A binary application over shape-equal operands whose base type is not the
/// one the operator requires (two booleans fed into an integer addition,
/// say) fails with `BaseMismatch` carrying the required base type and the
/// left operand's full type.
pub proof fn lemma_base_mismatch(env: Env, op: BinOp, a: Operand, b: Operand, span: Span)
    requires
        env.operand_wf(a),
        env.operand_wf(b),
        operand_synth_spec(env, a).shape_eq_spec(operand_synth_spec(env, b)),
        !operand_synth_spec(env, a).has_base_spec(bin_op_sig(op).0),
    ensures
        rvalue_synth_spec(env, Rvalue::BinApp(op, a, b), span) == Err::<Ty, TyError>(
            TyError {
                kind: TyErrorKind::BaseMismatch {
                    expected: bin_op_sig(op).0,
                    found: operand_synth_spec(env, a),
                },
                span,
            },
        ),
{
}

/// An integer comparison of two refined integer operands of the operator's
/// sign and size synthesizes a `Bool`-based refined type whatever the
/// operands' own predicates are: only their outward base types are read,
/// and the result is exactly `{ b : Bool | b == (a < b) }` over the resolved
/// operand terms.
pub proof fn lemma_lt_synthesizes_bool(
    env: Env,
    a: Operand,
    b: Operand,
    sign: IntSign,
    size: IntSize,
    span: Span,
)
    requires
        env.operand_wf(a),
        env.operand_wf(b),
        operand_synth_spec(env, a) is Refined,
        operand_synth_spec(env, a).has_base_spec(BaseTy::Int(sign, size)),
        operand_synth_spec(env, b) is Refined,
        operand_synth_spec(env, b).has_base_spec(BaseTy::Int(sign, size)),
    ensures
        rvalue_synth_spec(env, Rvalue::BinApp(BinOp::Lt(sign, size), a, b), span) == Ok::<
            Ty,
            TyError,
        >(
            eq_refined(
                BaseTy::Bool,
                Predicate::BinApp(
                    BinOp::Lt(sign, size),
                    Box::new(env.resolve_operand_spec(a)),
                    Box::new(env.resolve_operand_spec(b)),
                ),
            ),
        ),
        rvalue_synth_spec(
            env,
            Rvalue::BinApp(BinOp::Lt(sign, size), a, b),
            span,
        ) matches Ok(t) && t.has_base_spec(BaseTy::Bool),
{
}

/// Equality at `Bool` applied to two `Bool`-shaped operands (refined or not)
/// synthesizes the `Bool` refined type asserting that the result equals the
/// equality of the two resolved operand terms.
pub proof fn lemma_eq_bool_synthesizes_bool(env: Env, a: Operand, b: Operand, span: Span)
    requires
        env.operand_wf(a),
        env.operand_wf(b),
        operand_synth_spec(env, a).has_base_spec(BaseTy::Bool),
        operand_synth_spec(env, b).has_base_spec(BaseTy::Bool),
    ensures
        rvalue_synth_spec(env, Rvalue::BinApp(BinOp::Eq(BaseTy::Bool), a, b), span) == Ok::<
            Ty,
            TyError,
        >(
            eq_refined(
                BaseTy::Bool,
                Predicate::BinApp(
                    BinOp::Eq(BaseTy::Bool),
                    Box::new(env.resolve_operand_spec(a)),
                    Box::new(env.resolve_operand_spec(b)),
                ),
            ),
        ),
{
    lemma_same_base_shape_eq(
        operand_synth_spec(env, a),
        operand_synth_spec(env, b),
        BaseTy::Bool,
    );
}

} // verus!

