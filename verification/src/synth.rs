//! The up-flow half of the bidirectional engine: given an IR right-hand-side
//! expression, synthesize its most precise refinement type or fail with a
//! kinded error. The first failing check of an expression is final: no
//! partial type is ever returned alongside an error.

use vstd::prelude::*;

use crate::env::Env;
use crate::ir::Operand;
use crate::ir::Rvalue;
use crate::result::TyError;
use crate::result::TyErrorKind;
use crate::result::TyResult;
use crate::ty::BaseTy;
use crate::ty::BinOp;
use crate::ty::Predicate;
use crate::ty::Span;
use crate::ty::Ty;
use crate::ty::UnOp;
use crate::ty::Variable;

verus! {

/// The signature of a unary operator: the base type it requires of its
/// operand, and the base type of its result. The operator tag itself carries
/// every sign and size parameter, so the table is total.
pub open spec fn un_op_sig(op: UnOp) -> (BaseTy, BaseTy) {
    match op {
        UnOp::Neg(sign, size) => (BaseTy::Int(sign, size), BaseTy::Int(sign, size)),
        UnOp::Not => (BaseTy::Bool, BaseTy::Bool),
    }
}

/// The signature of a binary operator: the base type it requires of both
/// operands, and the base type of its result. Logical connectives are not
/// IR operators, so they have no entry here and can never reach synthesis.
pub open spec fn bin_op_sig(op: BinOp) -> (BaseTy, BaseTy) {
    match op {
        BinOp::Add(sign, size) => (BaseTy::Int(sign, size), BaseTy::Int(sign, size)),
        BinOp::Sub(sign, size) => (BaseTy::Int(sign, size), BaseTy::Int(sign, size)),
        BinOp::Mul(sign, size) => (BaseTy::Int(sign, size), BaseTy::Int(sign, size)),
        BinOp::Div(sign, size) => (BaseTy::Int(sign, size), BaseTy::Int(sign, size)),
        BinOp::Rem(sign, size) => (BaseTy::Int(sign, size), BaseTy::Int(sign, size)),
        BinOp::Eq(ty) => (ty, BaseTy::Bool),
        BinOp::Neq(ty) => (ty, BaseTy::Bool),
        BinOp::Lt(sign, size) => (BaseTy::Int(sign, size), BaseTy::Bool),
        BinOp::Gt(sign, size) => (BaseTy::Int(sign, size), BaseTy::Bool),
        BinOp::Lte(sign, size) => (BaseTy::Int(sign, size), BaseTy::Bool),
        BinOp::Gte(sign, size) => (BaseTy::Int(sign, size), BaseTy::Bool),
    }
}

impl UnOp {
    /// The operand and result base types this operator is typed at.
    pub fn sig(&self) -> (r: (BaseTy, BaseTy))
        ensures
            r == un_op_sig(*self),
    {
        match self {
            UnOp::Neg(sign, size) => (BaseTy::Int(*sign, *size), BaseTy::Int(*sign, *size)),
            UnOp::Not => (BaseTy::Bool, BaseTy::Bool),
        }
    }
}

impl BinOp {
    /// The operand and result base types this operator is typed at.
    pub fn sig(&self) -> (r: (BaseTy, BaseTy))
        ensures
            r == bin_op_sig(*self),
    {
        match self {
            BinOp::Add(sign, size) => (BaseTy::Int(*sign, *size), BaseTy::Int(*sign, *size)),
            BinOp::Sub(sign, size) => (BaseTy::Int(*sign, *size), BaseTy::Int(*sign, *size)),
            BinOp::Mul(sign, size) => (BaseTy::Int(*sign, *size), BaseTy::Int(*sign, *size)),
            BinOp::Div(sign, size) => (BaseTy::Int(*sign, *size), BaseTy::Int(*sign, *size)),
            BinOp::Rem(sign, size) => (BaseTy::Int(*sign, *size), BaseTy::Int(*sign, *size)),
            BinOp::Eq(ty) => (*ty, BaseTy::Bool),
            BinOp::Neq(ty) => (*ty, BaseTy::Bool),
            BinOp::Lt(sign, size) => (BaseTy::Int(*sign, *size), BaseTy::Bool),
            BinOp::Gt(sign, size) => (BaseTy::Int(*sign, *size), BaseTy::Bool),
            BinOp::Lte(sign, size) => (BaseTy::Int(*sign, *size), BaseTy::Bool),
            BinOp::Gte(sign, size) => (BaseTy::Int(*sign, *size), BaseTy::Bool),
        }
    }
}

/// The tightest refinement a synthesis rule can introduce: the type
/// `{ b : base | b == rhs }`, over the reserved bound variable.
pub open spec fn eq_refined(base: BaseTy, rhs: Predicate) -> Ty {
    Ty::Refined(
        Variable::bound_spec(),
        base,
        Predicate::Var(Variable::bound_spec()).eq_pred_spec(base, rhs),
    )
}

/// What synthesizing a bare operand yields: for a literal, the tightest
/// refined type `{ b : B | b == lit }` at the literal's base type; for a
/// local, the refined type the environment currently knows it by.
pub open spec fn operand_synth_spec(env: Env, op: Operand) -> Ty
    recommends
        env.operand_wf(op),
{
    match op {
        Operand::Lit(l) => eq_refined(l.base_ty_spec(), Predicate::Lit(l)),
        Operand::Local(x) => match env.lookup_spec(x) {
            Some(entry) => entry.1,
            None => Ty::Base(BaseTy::Bool),
        },
    }
}

/// Whether every operand of the expression can be resolved in `env`: the
/// input contract the IR lowering guarantees.
pub open spec fn rvalue_wf(env: Env, rv: Rvalue) -> bool {
    match rv {
        Rvalue::Use(op) => env.operand_wf(op),
        Rvalue::UnApp(_, op) => env.operand_wf(op),
        Rvalue::BinApp(_, op1, op2) => env.operand_wf(op1) && env.operand_wf(op2),
    }
}

/// The synthesis judgment for a right-hand-side expression.
///
/// `Use` delegates to operand synthesis. A unary application requires its
/// operand to have the operator's operand base type, else fails with
/// `BaseMismatch`. A binary application first requires its operands to be
/// shape-equal, else fails with `ShapeMismatch` (the shape check comes first,
/// so a shape disagreement is reported even when a base disagreement exists
/// too), then requires the left operand to have the operator's operand base
/// type, else fails with `BaseMismatch`. On success the result is the
/// tightest refinement: the result value equals the operator applied to the
/// resolved operands.
pub open spec fn rvalue_synth_spec(env: Env, rv: Rvalue, span: Span) -> TyResult<Ty>
    recommends
        rvalue_wf(env, rv),
{
    match rv {
        Rvalue::Use(op) => Ok(operand_synth_spec(env, op)),
        Rvalue::UnApp(un_op, op) => {
            let sig = un_op_sig(un_op);
            let op_ty = operand_synth_spec(env, op);
            if !op_ty.has_base_spec(sig.0) {
                Err(TyError { kind: TyErrorKind::BaseMismatch { expected: sig.0, found: op_ty }, span })
            } else {
                Ok(
                    eq_refined(
                        sig.1,
                        Predicate::UnApp(un_op, Box::new(env.resolve_operand_spec(op))),
                    ),
                )
            }
        },
        Rvalue::BinApp(bin_op, op1, op2) => {
            let sig = bin_op_sig(bin_op);
            let op_ty1 = operand_synth_spec(env, op1);
            let op_ty2 = operand_synth_spec(env, op2);
            if !op_ty1.shape_eq_spec(op_ty2) {
                Err(
                    TyError {
                        kind: TyErrorKind::ShapeMismatch { expected: op_ty1, found: op_ty2 },
                        span,
                    },
                )
            } else if !op_ty1.has_base_spec(sig.0) {
                Err(
                    TyError {
                        kind: TyErrorKind::BaseMismatch { expected: sig.0, found: op_ty1 },
                        span,
                    },
                )
            } else {
                Ok(
                    eq_refined(
                        sig.1,
                        Predicate::BinApp(
                            bin_op,
                            Box::new(env.resolve_operand_spec(op1)),
                            Box::new(env.resolve_operand_spec(op2)),
                        ),
                    ),
                )
            }
        },
    }
}

impl Operand {
    /// Synthesizes the type of a bare operand: the tightest refined type of
    /// a literal, or the type the environment knows a local by.
    pub fn synth(&self, env: &Env) -> (r: Ty)
        requires
            env.operand_wf(*self),
        ensures
            r == operand_synth_spec(*env, *self),
    {
        match self {
            Operand::Lit(l) => {
                let base = l.base_ty();
                Ty::Refined(
                    Variable::bound(),
                    base,
                    Predicate::Var(Variable::bound()).eq(base, Predicate::Lit(*l)),
                )
            },
            Operand::Local(x) => match env.get(*x) {
                Some(entry) => entry.1,
                None => unreached(),
            },
        }
    }
}

impl Rvalue {
    /// Synthesizes the most precise refinement type of this expression in
    /// `env`, or returns the first failing check as a kinded error carrying
    /// `span`. The result is exactly [`rvalue_synth_spec`].
    pub fn synth(&self, env: &Env, span: Span) -> (r: TyResult<Ty>)
        requires
            rvalue_wf(*env, *self),
        ensures
            r == rvalue_synth_spec(*env, *self, span),
    {
        match self {
            Rvalue::Use(op) => Ok(op.synth(env)),
            Rvalue::UnApp(un_op, op) => {
                let sig = un_op.sig();
                let op_ty = op.synth(env);
                if !op_ty.has_base(sig.0) {
                    return Err(
                        TyError {
                            kind: TyErrorKind::BaseMismatch { expected: sig.0, found: op_ty },
                            span,
                        },
                    );
                }
                let resolved = env.resolve_operand(op);
                Ok(
                    Ty::Refined(
                        Variable::bound(),
                        sig.1,
                        Predicate::Var(Variable::bound()).eq(
                            sig.1,
                            Predicate::UnApp(*un_op, Box::new(resolved)),
                        ),
                    ),
                )
            },
            Rvalue::BinApp(bin_op, op1, op2) => {
                let sig = bin_op.sig();
                let op_ty1 = op1.synth(env);
                let op_ty2 = op2.synth(env);
                if !op_ty1.shape_eq(&op_ty2) {
                    return Err(
                        TyError {
                            kind: TyErrorKind::ShapeMismatch { expected: op_ty1, found: op_ty2 },
                            span,
                        },
                    );
                }
                if !op_ty1.has_base(sig.0) {
                    return Err(
                        TyError {
                            kind: TyErrorKind::BaseMismatch { expected: sig.0, found: op_ty1 },
                            span,
                        },
                    );
                }
                let resolved1 = env.resolve_operand(op1);
                let resolved2 = env.resolve_operand(op2);
                Ok(
                    Ty::Refined(
                        Variable::bound(),
                        sig.1,
                        Predicate::Var(Variable::bound()).eq(
                            sig.1,
                            Predicate::BinApp(*bin_op, Box::new(resolved1), Box::new(resolved2)),
                        ),
                    ),
                )
            },
        }
    }
}

} // verus!
