//! Generates, for an enum whose variants each hold exactly one value, the
//! source of a dispatch construct that applies one operation to whichever
//! variant is present: a match with one branch per variant, in declaration
//! order, for an expression callback and for a block callback.
//!
//! [`model`] describes a type declaration, [`naming`] derives the
//! construct's name from the type's, [`emit`] checks the declaration and
//! writes the construct, and [`laws`] proves what the generated text holds.

use vstd::prelude::*;

pub mod emit;
pub mod laws;
pub mod model;
pub mod naming;

pub use emit::derive_visit_enum;
pub use model::{Declaration, FieldShape, GenError, ItemData, Variant};
pub use naming::{dispatch_name, to_snake_case};

verus! {

} // verus!
