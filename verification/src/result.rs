//! Structured, kinded failures with source-span metadata. Every checkable
//! operation returns a type or a typed error; nothing is thrown, so a driver
//! can batch diagnostics across sibling statements while each single
//! expression still fails at its first bad sub-expression.

use vstd::prelude::*;

use crate::check::Obligation;
use crate::ty::BaseTy;
use crate::ty::Span;
use crate::ty::Ty;

verus! {

/// What went wrong. Each kind carries the full types involved, not just
/// their bases, so a diagnostic can show the exact expected-versus-found
/// disagreement.
#[derive(Debug, PartialEq)]
pub enum TyErrorKind {
    /// An operand's outward base type is not what the operator requires.
    /// `found` is the operand's full synthesized type.
    BaseMismatch { expected: BaseTy, found: Ty },
    /// Two operands that must be structurally comparable are not: `expected`
    /// is the left operand's type, `found` the right's.
    ShapeMismatch { expected: Ty, found: Ty },
    /// The external oracle judged the subtyping implication invalid; the
    /// unproved obligation is carried for diagnosis.
    Subtyping { obligation: Obligation },
    /// The external oracle could not decide the implication (a timeout, for
    /// instance). Distinct from [`TyErrorKind::Subtyping`]: an undecided
    /// obligation is not a disproved one.
    OracleUnknown { obligation: Obligation },
}

/// A kinded failure and the source range it points at.
#[derive(Debug, PartialEq)]
pub struct TyError {
    pub kind: TyErrorKind,
    pub span: Span,
}

/// What every checkable operation returns.
pub type TyResult<T> = Result<T, TyError>;

} // verus!
