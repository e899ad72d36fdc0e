//! The down-flow half of the bidirectional engine: checking a synthesized
//! type against an expected one. The engine owns only the translation of the
//! two refined types into a logical implication; deciding the implication
//! belongs to an external validity oracle, whose verdict is handed back in
//! and mapped to a result here. Checking is scoped to scalar-shaped expected
//! types: those are the types a right-hand side is checked against.

use vstd::prelude::*;

use crate::env::Env;
use crate::ir::Rvalue;
use crate::result::TyError;
use crate::result::TyErrorKind;
use crate::result::TyResult;
use crate::synth::rvalue_synth_spec;
use crate::synth::rvalue_wf;
use crate::ty::BaseTy;
use crate::ty::Literal;
use crate::ty::Predicate;
use crate::ty::Span;
use crate::ty::Ty;
use crate::ty::Variable;

verus! {

/// What the external validity oracle answers for one implication. An
/// `Unknown` (a solver timeout, say) is neither success nor failure and must
/// surface as its own diagnostic.
#[derive(Clone, Copy, Debug, PartialEq, Eq, Structural)]
pub enum Verdict {
    Valid,
    Invalid,
    Unknown,
}

/// A subtyping obligation: under the shared base type, every value of the
/// bound variable satisfying the antecedent must satisfy the consequent.
/// Both predicates speak of the one bound variable `bound`.
#[derive(Debug, PartialEq)]
pub struct Obligation {
    pub bound: Variable,
    pub base: BaseTy,
    pub antecedent: Predicate,
    pub consequent: Predicate,
}

/// Whether a type is scalar-shaped: an unrefined or refined base type, never
/// a function type.
pub open spec fn is_scalar(t: Ty) -> bool {
    !(t is Func)
}

/// The scalar reading of a type: its bound variable, base type and
/// constraint. An unrefined base type constrains nothing, so it reads as the
/// trivially true predicate over the reserved bound variable.
pub open spec fn scalar_parts(t: Ty) -> (Variable, BaseTy, Predicate)
    recommends
        is_scalar(t),
{
    match t {
        Ty::Base(b) => (Variable::bound_spec(), b, Predicate::Lit(Literal::Bool(true))),
        Ty::Refined(v, b, p) => (v, b, p),
        Ty::Func(_, _) => (
            Variable::bound_spec(),
            BaseTy::Bool,
            Predicate::Lit(Literal::Bool(true)),
        ),
    }
}

/// The implication two scalar, shape-equal types reduce to: the found type's
/// constraint, with its bound variable renamed to the expected type's, must
/// imply the expected type's constraint under the shared base.
pub open spec fn obligation_spec(found: Ty, expected: Ty) -> Obligation
    recommends
        is_scalar(found),
        is_scalar(expected),
        found.shape_eq_spec(expected),
{
    let fp = scalar_parts(found);
    let ep = scalar_parts(expected);
    Obligation {
        bound: ep.0,
        base: ep.1,
        antecedent: fp.2.rename_spec(fp.0, ep.0),
        consequent: ep.2,
    }
}

/// What reducing found-versus-expected to an obligation yields: the
/// implication when the shapes agree, a `ShapeMismatch` otherwise.
pub open spec fn subtype_obligation_spec(found: Ty, expected: Ty, span: Span) -> TyResult<
    Obligation,
>
    recommends
        is_scalar(expected),
{
    if !found.shape_eq_spec(expected) {
        Err(TyError { kind: TyErrorKind::ShapeMismatch { expected, found }, span })
    } else {
        Ok(obligation_spec(found, expected))
    }
}

/// Reduces a synthesized type against an expected scalar type to the
/// implication the oracle must decide, or fails with `ShapeMismatch` when
/// the two could never describe the same kind of value.
pub fn subtype_obligation(found: Ty, expected: &Ty, span: Span) -> (r: TyResult<Obligation>)
    requires
        is_scalar(*expected),
    ensures
        r == subtype_obligation_spec(found, *expected, span),
{
    if !found.shape_eq(expected) {
        return Err(
            TyError { kind: TyErrorKind::ShapeMismatch { expected: expected.clone(), found }, span },
        );
    }
    let (found_bound, antecedent) = match found {
        Ty::Base(_) => (Variable::bound(), Predicate::Lit(Literal::Bool(true))),
        Ty::Refined(v, _, p) => (v, p),
        Ty::Func(_, _) => unreached(),
    };
    let (bound, base, consequent) = match expected {
        Ty::Base(b) => (Variable::bound(), *b, Predicate::Lit(Literal::Bool(true))),
        Ty::Refined(v, b, p) => (*v, *b, p.clone()),
        Ty::Func(_, _) => unreached(),
    };
    Ok(
        Obligation {
            bound,
            base,
            antecedent: antecedent.rename(found_bound, bound),
            consequent,
        },
    )
}

/// What checking a right-hand side against an expected type yields: the
/// synthesis error if synthesis fails, else the subtyping obligation of the
/// synthesized type against the expected one.
pub open spec fn check_rvalue_spec(env: Env, rv: Rvalue, expected: Ty, span: Span) -> TyResult<
    Obligation,
>
    recommends
        rvalue_wf(env, rv),
        is_scalar(expected),
{
    match rvalue_synth_spec(env, rv, span) {
        Ok(t) => subtype_obligation_spec(t, expected, span),
        Err(e) => Err(e),
    }
}

/// Checks a right-hand side against an expected scalar type: synthesizes its
/// type, then reduces the pair to the implication the oracle must decide.
pub fn check_rvalue(env: &Env, rv: &Rvalue, expected: &Ty, span: Span) -> (r: TyResult<Obligation>)
    requires
        rvalue_wf(*env, *rv),
        is_scalar(*expected),
    ensures
        r == check_rvalue_spec(*env, *rv, *expected, span),
{
    match rv.synth(env, span) {
        Ok(t) => subtype_obligation(t, expected, span),
        Err(e) => Err(e),
    }
}

/// What the oracle's verdict on an obligation means for the check: a valid
/// implication passes; an invalid one is a subtyping failure carrying the
/// unproved obligation; an undecided one is its own kind of failure, never
/// silently success or defeat.
pub open spec fn apply_verdict_spec(ob: Obligation, verdict: Verdict, span: Span) -> TyResult<()> {
    match verdict {
        Verdict::Valid => Ok(()),
        Verdict::Invalid => Err(TyError { kind: TyErrorKind::Subtyping { obligation: ob }, span }),
        Verdict::Unknown => Err(
            TyError { kind: TyErrorKind::OracleUnknown { obligation: ob }, span },
        ),
    }
}

/// Turns the oracle's verdict on an obligation into the check's outcome.
pub fn apply_verdict(ob: Obligation, verdict: Verdict, span: Span) -> (r: TyResult<()>)
    ensures
        r == apply_verdict_spec(ob, verdict, span),
{
    match verdict {
        Verdict::Valid => Ok(()),
        Verdict::Invalid => Err(TyError { kind: TyErrorKind::Subtyping { obligation: ob }, span }),
        Verdict::Unknown => Err(
            TyError { kind: TyErrorKind::OracleUnknown { obligation: ob }, span },
        ),
    }
}

} // verus!
