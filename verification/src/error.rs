//! Why a `Display` implementation could not be generated.

use vstd::prelude::*;
use vstd::string::StringExecFns;

verus! {

/// A failure of generation. Each one stops the generation for the whole type.
#[derive(Clone, Debug, PartialEq, Eq)]
pub enum DeriveError {
    /// A `display` annotation that is not of the form
    /// `#[display(fmt = "..", arg, ..)]`.
    MalformedAnnotation,
    /// Arguments were given for a shape that has no fields.
    ArgumentsOnUnitVariant { ty: String, variant: Option<String> },
    /// An argument for a shape with unnamed fields that is not `_` followed
    /// by the index of one of them.
    UnknownPositionalArgument { name: String, ty: String, variant: Option<String> },
    /// An argument for a shape with named fields that is not the name of one
    /// of them.
    UnknownNamedArgument { name: String, ty: String, variant: Option<String> },
}

/// The view of a [`DeriveError`].
pub enum DeriveErrorView {
    MalformedAnnotation,
    ArgumentsOnUnitVariant { ty: Seq<char>, variant: Option<Seq<char>> },
    UnknownPositionalArgument { name: Seq<char>, ty: Seq<char>, variant: Option<Seq<char>> },
    UnknownNamedArgument { name: Seq<char>, ty: Seq<char>, variant: Option<Seq<char>> },
}

impl View for DeriveError {
    type V = DeriveErrorView;

    open spec fn view(&self) -> DeriveErrorView {
        match self {
            DeriveError::MalformedAnnotation => DeriveErrorView::MalformedAnnotation,
            DeriveError::ArgumentsOnUnitVariant { ty, variant } => {
                DeriveErrorView::ArgumentsOnUnitVariant {
                    ty: ty@,
                    variant: variant.deep_view(),
                }
            },
            DeriveError::UnknownPositionalArgument { name, ty, variant } => {
                DeriveErrorView::UnknownPositionalArgument {
                    name: name@,
                    ty: ty@,
                    variant: variant.deep_view(),
                }
            },
            DeriveError::UnknownNamedArgument { name, ty, variant } => {
                DeriveErrorView::UnknownNamedArgument {
                    name: name@,
                    ty: ty@,
                    variant: variant.deep_view(),
                }
            },
        }
    }
}

impl DeepView for DeriveError {
    type V = DeriveErrorView;

    open spec fn deep_view(&self) -> DeriveErrorView {
        self@
    }
}

/// What a message calls the place of a failure: ` variant Type::Variant` for
/// a variant, ` struct Type` for a struct.
pub open spec fn place_text(ty: Seq<char>, variant: Option<Seq<char>>) -> Seq<char> {
    match variant {
        Some(variant) => " variant "@ + ty + "::"@ + variant,
        None => " struct "@ + ty,
    }
}

impl DeriveErrorView {
    /// The diagnostic for this failure.
    pub open spec fn message(self) -> Seq<char> {
        match self {
            DeriveErrorView::MalformedAnnotation => {
                "display attribute has invalid format. Expected: #[display(fmt=\"..\", ...)]"@
            },
            DeriveErrorView::ArgumentsOnUnitVariant { ty, variant } => {
                "Can not provide additional format arguments for unit"@ + place_text(
                    ty,
                    variant,
                )
            },
            DeriveErrorView::UnknownPositionalArgument { name, ty, variant } => {
                "Invalid format argument '"@ + name + "' for tuple"@ + place_text(
                    ty,
                    variant,
                ) + ". Expected underscore + field index, eg _0"@
            },
            DeriveErrorView::UnknownNamedArgument { name, ty, variant } => {
                "Invalid format argument '"@ + name + "' for"@ + (match variant {
                    Some(_) => " struct"@,
                    None => Seq::<char>::empty(),
                }) + place_text(ty, variant) + ". Expected name of field on struct"@
            },
        }
    }
}

/// Appends to `text` what a message calls the place of a failure.
fn append_place(text: &mut String, ty: &String, variant: &Option<String>)
    ensures
        final(text)@ == old(text)@ + place_text(ty@, variant.deep_view()),
{
    match variant {
        Some(variant) => {
            text.append(" variant ");
            text.append(ty.as_str());
            text.append("::");
            text.append(variant.as_str());
        },
        None => {
            text.append(" struct ");
            text.append(ty.as_str());
        },
    }
}

impl DeriveError {
    /// The diagnostic for this failure.
    pub fn message(&self) -> (text: String)
        ensures
            text@ == self@.message(),
    {
        match self {
            DeriveError::MalformedAnnotation => {
                String::from_str(
                    "display attribute has invalid format. Expected: #[display(fmt=\"..\", ...)]",
                )
            },
            DeriveError::ArgumentsOnUnitVariant { ty, variant } => {
                let mut text = String::from_str(
                    "Can not provide additional format arguments for unit",
                );
                append_place(&mut text, ty, variant);
                text
            },
            DeriveError::UnknownPositionalArgument { name, ty, variant } => {
                let mut text = String::from_str("Invalid format argument '");
                text.append(name.as_str());
                text.append("' for tuple");
                append_place(&mut text, ty, variant);
                text.append(". Expected underscore + field index, eg _0");
                text
            },
            DeriveError::UnknownNamedArgument { name, ty, variant } => {
                let mut text = String::from_str("Invalid format argument '");
                text.append(name.as_str());
                text.append("' for");
                if variant.is_some() {
                    text.append(" struct");
                }
                append_place(&mut text, ty, variant);
                text.append(". Expected name of field on struct");
                text
            },
        }
    }
}

} // verus!
