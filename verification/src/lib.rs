//! Borrowing accessors for the alternatives of a sum type.
//!
//! Given a description of a sum type, the library synthesizes one accessor
//! per alternative. An accessor is named `as_` followed by the snake-case
//! form of the alternative's name; applied to an instance it is present with
//! references to the payload when the instance holds that alternative, and
//! absent otherwise.
pub mod accessor;
pub mod casing;
pub mod classify;
pub mod descriptor;
pub mod emit;
pub mod error;
pub mod fresh;
pub mod instance;
pub mod laws;
pub mod render;
pub mod search;
pub mod synthesize;

use vstd::prelude::*;
use crate::descriptor::{TypeDescriptor, TypeModel};
use crate::emit::{emitted, impl_all_as_fns};
use crate::error::{ErrorModel, GenerationError};

verus! {

/// The source text generated for a described type, or the error that ends
/// its generation.
pub open spec fn generated_text(input: TypeModel) -> Result<Seq<char>, ErrorModel> {
    match emitted(input) {
        Ok(generated) => Ok(generated.text()),
        Err(error) => Err(error),
    }
}

/// Generates the accessors of a described type and writes them as one block
/// of methods of that type.
///
/// The description must be of a sum type; for any other type, and for a sum
/// type with a defective field, the outcome is the error and no text.
pub fn enum_as_inner(input: &TypeDescriptor) -> (outcome: Result<String, GenerationError>)
    ensures
        match outcome {
            Ok(text) => generated_text(input@) == Ok::<Seq<char>, ErrorModel>(text@),
            Err(error) => generated_text(input@) == Err::<Seq<char>, ErrorModel>(error@),
        },
{
    match impl_all_as_fns(input) {
        Ok(expanded) => Ok(expanded.render()),
        Err(error) => Err(error),
    }
}

} // verus!
