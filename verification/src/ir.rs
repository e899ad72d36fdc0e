//! The slice of the intermediate representation that synthesis consumes:
//! locals, operands and right-hand-side expressions. The lowering component
//! that produces this IR guarantees that every operand referring to a local
//! refers to one previously bound in the environment, and the operator split
//! in [`crate::ty`] guarantees that no purely logical connective can appear
//! as a right-hand-side operator.

use vstd::prelude::*;

use crate::ty::BinOp;
use crate::ty::Literal;
use crate::ty::UnOp;

verus! {

/// An IR local, identified by its index.
#[derive(Clone, Copy, Debug, PartialEq, Eq, Structural)]
pub struct Local(pub u64);

/// An IR operand: a literal, or a reference to a previously typed local.
#[derive(Clone, Copy, Debug, PartialEq, Eq, Structural)]
pub enum Operand {
    Lit(Literal),
    Local(Local),
}

/// An IR right-hand-side expression: a bare operand, a unary application or
/// a binary application. Operators carry every sign, size and base-type
/// parameter their typing rule needs; nothing is inferred from context.
#[derive(Clone, Copy, Debug, PartialEq, Eq, Structural)]
pub enum Rvalue {
    Use(Operand),
    UnApp(UnOp, Operand),
    BinApp(BinOp, Operand, Operand),
}

} // verus!
