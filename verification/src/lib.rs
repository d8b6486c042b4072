//! Generation of `Display` implementations from `#[display(fmt = "..", ..)]`
//! annotations.
//!
//! A [`TypeDescription`] says what a type looks like: its name, its shape and
//! the annotations attached to it and to its variants. [`display`] turns such
//! a description into the source text of an `impl ::std::fmt::Display`, or
//! says why it cannot.
//!
//! The work is done in four steps, one module each: [`annotation`] reads the
//! annotation, [`resolve`] resolves its arguments against the fields of the
//! shape, [`rule`] builds the rendering rule of a shape and the statement for
//! it, and [`assemble`] puts the statements of a type together. [`laws`]
//! states what holds of every description.

use crate::assemble::{build_impl, impl_spec};
use crate::description::{result_view, TypeDescription};
use crate::error::DeriveError;
use vstd::prelude::*;

pub mod annotation;
pub mod assemble;
pub mod description;
pub mod error;
pub mod laws;
pub mod resolve;
pub mod rule;
pub mod tokens;

verus! {

/// Generates the source text of the implementation of `Display` for a type.
///
/// The text is that of `impl_spec`: for a struct, one `write!` of the
/// annotation's template with its arguments read from `self`, or of the
/// struct's name where it has no annotation; for an enum, a match with one
/// such `write!` for each variant. A malformed annotation, or an argument
/// that names no field, gives the failure instead, and no text.
pub fn display(description: &TypeDescription) -> (result: Result<String, DeriveError>)
    ensures
        result_view(result) == impl_spec(description@),
{
    match build_impl(description) {
        Ok(tokens) => Ok(tokens.into_string()),
        Err(error) => Err(error),
    }
}

} // verus!
