//! What a type looks like to the generator: its name, its shape, and the
//! annotations attached to it.
//!
//! Every type here has a view that replaces strings and vectors by sequences;
//! the contracts of the generator are stated over those views.

use vstd::prelude::*;
use vstd::string::StringExecFns;

verus! {

/// How a string literal is written in source text.
#[derive(Clone, Copy, Debug, PartialEq, Eq, Structural)]
pub enum StrStyle {
    /// An ordinary literal, `"text"`.
    Cooked,
    /// A raw literal, `r##"text"##`, with the given number of `#`.
    Raw(usize),
}

/// A literal inside an annotation.
#[derive(Clone, Debug, PartialEq, Eq)]
pub enum Literal {
    /// A string literal: its contents and the way it was written.
    Str(String, StrStyle),
    /// Any literal that is not a string.
    Other,
}

/// One item of a list-form annotation.
#[derive(Clone, Debug, PartialEq, Eq)]
pub enum AnnotationItem {
    /// A bare identifier, such as `_0`.
    Word(String),
    /// `key = literal`.
    NameValue(String, Literal),
    /// A nested list `key(..)`; what it holds is never looked at.
    List(String),
    /// A bare literal.
    Literal(Literal),
}

/// What follows the key of an annotation.
#[derive(Clone, Debug, PartialEq, Eq)]
pub enum Payload {
    /// Nothing: `#[key]`.
    Word,
    /// A value: `#[key = literal]`.
    NameValue(Literal),
    /// A list: `#[key(item, ..)]`.
    List(Vec<AnnotationItem>),
}

/// An annotation as written on a type or a variant, not yet validated.
#[derive(Clone, Debug, PartialEq, Eq)]
pub struct Annotation {
    pub key: String,
    pub payload: Payload,
}

/// The fields of a struct or of one variant.
#[derive(Clone, Debug, PartialEq, Eq)]
pub enum Shape {
    /// No fields.
    Unit,
    /// The given number of unnamed fields.
    Positional(usize),
    /// Named fields, in declaration order.
    Named(Vec<String>),
}

/// One variant of an enum.
#[derive(Clone, Debug, PartialEq, Eq)]
pub struct VariantDescription {
    pub name: String,
    pub shape: Shape,
    pub annotations: Vec<Annotation>,
}

/// The body of a type: a single shape, or variants in declaration order.
#[derive(Clone, Debug, PartialEq, Eq)]
pub enum Body {
    Struct(Shape),
    Enum(Vec<VariantDescription>),
}

/// A type for which a `Display` implementation is wanted.
#[derive(Clone, Debug, PartialEq, Eq)]
pub struct TypeDescription {
    pub name: String,
    pub annotations: Vec<Annotation>,
    pub body: Body,
}

/// The view of a result: the view of what it holds.
pub open spec fn result_view<T: DeepView, E: DeepView>(result: Result<T, E>) -> Result<T::V, E::V> {
    match result {
        Ok(value) => Ok(value.deep_view()),
        Err(error) => Err(error.deep_view()),
    }
}

/// Whether two strings hold the same text.
pub fn same_text(a: &str, b: &str) -> (same: bool)
    ensures
        same == (a@ == b@),
{
    let a = String::from_str(a);
    let b = String::from_str(b);
    a == b
}

/// The view of a [`Literal`].
pub enum LiteralView {
    Str(Seq<char>, StrStyle),
    Other,
}

/// The view of an [`AnnotationItem`].
pub enum AnnotationItemView {
    Word(Seq<char>),
    NameValue(Seq<char>, LiteralView),
    List(Seq<char>),
    Literal(LiteralView),
}

/// The view of a [`Payload`].
pub enum PayloadView {
    Word,
    NameValue(LiteralView),
    List(Seq<AnnotationItemView>),
}

/// The view of an [`Annotation`].
pub struct AnnotationView {
    pub key: Seq<char>,
    pub payload: PayloadView,
}

/// The view of a [`Shape`].
pub enum ShapeView {
    Unit,
    Positional(nat),
    Named(Seq<Seq<char>>),
}

/// The view of a [`VariantDescription`].
pub struct VariantView {
    pub name: Seq<char>,
    pub shape: ShapeView,
    pub annotations: Seq<AnnotationView>,
}

/// The view of a [`Body`].
pub enum BodyView {
    Struct(ShapeView),
    Enum(Seq<VariantView>),
}

/// The view of a [`TypeDescription`].
pub struct TypeView {
    pub name: Seq<char>,
    pub annotations: Seq<AnnotationView>,
    pub body: BodyView,
}

impl View for Literal {
    type V = LiteralView;

    open spec fn view(&self) -> LiteralView {
        match self {
            Literal::Str(value, style) => LiteralView::Str(value@, *style),
            Literal::Other => LiteralView::Other,
        }
    }
}

impl DeepView for Literal {
    type V = LiteralView;

    open spec fn deep_view(&self) -> LiteralView {
        self@
    }
}

impl View for AnnotationItem {
    type V = AnnotationItemView;

    open spec fn view(&self) -> AnnotationItemView {
        match self {
            AnnotationItem::Word(name) => AnnotationItemView::Word(name@),
            AnnotationItem::NameValue(key, value) => AnnotationItemView::NameValue(key@, value@),
            AnnotationItem::List(key) => AnnotationItemView::List(key@),
            AnnotationItem::Literal(value) => AnnotationItemView::Literal(value@),
        }
    }
}

impl DeepView for AnnotationItem {
    type V = AnnotationItemView;

    open spec fn deep_view(&self) -> AnnotationItemView {
        self@
    }
}

impl View for Payload {
    type V = PayloadView;

    open spec fn view(&self) -> PayloadView {
        match self {
            Payload::Word => PayloadView::Word,
            Payload::NameValue(value) => PayloadView::NameValue(value@),
            Payload::List(items) => PayloadView::List(items.deep_view()),
        }
    }
}

impl DeepView for Payload {
    type V = PayloadView;

    open spec fn deep_view(&self) -> PayloadView {
        self@
    }
}

impl View for Annotation {
    type V = AnnotationView;

    open spec fn view(&self) -> AnnotationView {
        AnnotationView { key: self.key@, payload: self.payload@ }
    }
}

impl DeepView for Annotation {
    type V = AnnotationView;

    open spec fn deep_view(&self) -> AnnotationView {
        self@
    }
}

impl View for Shape {
    type V = ShapeView;

    open spec fn view(&self) -> ShapeView {
        match self {
            Shape::Unit => ShapeView::Unit,
            Shape::Positional(n) => ShapeView::Positional(*n as nat),
            Shape::Named(fields) => ShapeView::Named(fields.deep_view()),
        }
    }
}

impl DeepView for Shape {
    type V = ShapeView;

    open spec fn deep_view(&self) -> ShapeView {
        self@
    }
}

impl View for VariantDescription {
    type V = VariantView;

    open spec fn view(&self) -> VariantView {
        VariantView {
            name: self.name@,
            shape: self.shape@,
            annotations: self.annotations.deep_view(),
        }
    }
}

impl DeepView for VariantDescription {
    type V = VariantView;

    open spec fn deep_view(&self) -> VariantView {
        self@
    }
}

impl View for Body {
    type V = BodyView;

    open spec fn view(&self) -> BodyView {
        match self {
            Body::Struct(shape) => BodyView::Struct(shape@),
            Body::Enum(variants) => BodyView::Enum(variants.deep_view()),
        }
    }
}

impl DeepView for Body {
    type V = BodyView;

    open spec fn deep_view(&self) -> BodyView {
        self@
    }
}

impl View for TypeDescription {
    type V = TypeView;

    open spec fn view(&self) -> TypeView {
        TypeView {
            name: self.name@,
            annotations: self.annotations.deep_view(),
            body: self.body@,
        }
    }
}

impl DeepView for TypeDescription {
    type V = TypeView;

    open spec fn deep_view(&self) -> TypeView {
        self@
    }
}

} // verus!
