//! A refinement-type synthesis core for a control-flow-graph intermediate
//! representation.
//!
//! The library models refinement types `{ b : B | P(b) }` (a base type `B`
//! together with a predicate `P` over a bound variable `b`), synthesizes the
//! most precise refinement type of an IR right-hand-side expression, and
//! reduces checking against an expected type to a logical implication that an
//! external validity oracle decides.

pub mod check;
pub mod env;
pub mod ir;
pub mod laws;
pub mod result;
pub mod synth;
pub mod ty;
