//! Reading the `display` annotation of a type or a variant.

use crate::description::{
    result_view, same_text, Annotation, AnnotationItem, AnnotationItemView, AnnotationView,
    Literal, LiteralView, Payload, PayloadView, StrStyle,
};
use crate::error::{DeriveError, DeriveErrorView};
use vstd::prelude::*;

verus! {

/// A validated `display` annotation: the template and the arguments that are
/// substituted into it, in order.
#[derive(Clone, Debug, PartialEq, Eq)]
pub struct FormatSpec {
    pub template: String,
    pub style: StrStyle,
    pub args: Vec<String>,
}

/// The view of a [`FormatSpec`].
pub struct FormatSpecView {
    pub template: Seq<char>,
    pub style: StrStyle,
    pub args: Seq<Seq<char>>,
}

impl View for FormatSpec {
    type V = FormatSpecView;

    open spec fn view(&self) -> FormatSpecView {
        FormatSpecView { template: self.template@, style: self.style, args: self.args.deep_view() }
    }
}

impl DeepView for FormatSpec {
    type V = FormatSpecView;

    open spec fn deep_view(&self) -> FormatSpecView {
        self@
    }
}

/// Whether an annotation is tagged `display`.
pub open spec fn is_display(annotation: AnnotationView) -> bool {
    annotation.key == "display"@
}

/// The first annotation tagged `display`, if there is one.
pub open spec fn find_display(annotations: Seq<AnnotationView>) -> Option<AnnotationView>
    decreases annotations.len(),
{
    if annotations.len() == 0 {
        None
    } else if is_display(annotations.first()) {
        Some(annotations.first())
    } else {
        find_display(annotations.drop_first())
    }
}

/// Whether an item is `fmt = "template"`.
pub open spec fn is_template(item: AnnotationItemView) -> bool {
    item matches AnnotationItemView::NameValue(key, LiteralView::Str(_, _)) && key == "fmt"@
}

/// Whether the items of a list are a template followed by bare identifiers.
pub open spec fn well_formed(items: Seq<AnnotationItemView>) -> bool {
    &&& items.len() >= 1
    &&& is_template(items[0])
    &&& forall|i: int| 1 <= i < items.len() ==> #[trigger] items[i] is Word
}

/// The template and the arguments that a well-formed list of items holds.
pub open spec fn format_spec(items: Seq<AnnotationItemView>) -> FormatSpecView
    recommends
        well_formed(items),
{
    FormatSpecView {
        template: items[0]->NameValue_1->Str_0,
        style: items[0]->NameValue_1->Str_1,
        args: Seq::new((items.len() - 1) as nat, |i: int| items[i + 1]->Word_0),
    }
}

/// What the payload of a `display` annotation means.
pub open spec fn parse_payload(payload: PayloadView) -> Result<FormatSpecView, DeriveErrorView> {
    match payload {
        PayloadView::List(items) => if well_formed(items) {
            Ok(format_spec(items))
        } else {
            Err(DeriveErrorView::MalformedAnnotation)
        },
        _ => Err(DeriveErrorView::MalformedAnnotation),
    }
}

/// What a list of annotations says about formatting: nothing where none of
/// them is tagged `display`, else what the first one so tagged means.
pub open spec fn parse(annotations: Seq<AnnotationView>) -> Result<
    Option<FormatSpecView>,
    DeriveErrorView,
> {
    match find_display(annotations) {
        None => Ok(None),
        Some(annotation) => match parse_payload(annotation.payload) {
            Ok(spec) => Ok(Some(spec)),
            Err(error) => Err(error),
        },
    }
}

/// Reads the payload of a `display` annotation.
fn read_payload(payload: &Payload) -> (result: Result<FormatSpec, DeriveError>)
    ensures
        result_view(result) == parse_payload(payload@),
{
    match payload {
        Payload::List(items) => {
            if items.len() < 1 {
                return Err(DeriveError::MalformedAnnotation);
            }
            assert(items.deep_view()[0] == items[0]@);
            let (template, style) = match &items[0] {
                AnnotationItem::NameValue(key, Literal::Str(value, style)) => {
                    if !same_text(key.as_str(), "fmt") {
                        return Err(DeriveError::MalformedAnnotation);
                    }
                    (value.clone(), *style)
                },
                _ => {
                    return Err(DeriveError::MalformedAnnotation);
                },
            };
            let mut args: Vec<String> = Vec::new();
            let mut i: usize = 1;
            while i < items.len()
                invariant
                    1 <= i <= items.len(),
                    payload@ == PayloadView::List(items.deep_view()),
                    is_template(items.deep_view()[0]),
                    forall|k: int| 1 <= k < i ==> #[trigger] items.deep_view()[k] is Word,
                    args.len() == i - 1,
                    forall|k: int|
                        0 <= k < args.len() ==> (#[trigger] args[k])@ == items.deep_view()[k
                            + 1]->Word_0,
                decreases items.len() - i,
            {
                assert(items.deep_view()[i as int] == items[i as int]@);
                match &items[i] {
                    AnnotationItem::Word(name) => {
                        args.push(name.clone());
                    },
                    _ => {
                        assert(!(items.deep_view()[i as int] is Word));
                        return Err(DeriveError::MalformedAnnotation);
                    },
                }
                i += 1;
            }
            assert(args.deep_view() =~= format_spec(items.deep_view()).args);
            Ok(FormatSpec { template, style, args })
        },
        _ => Err(DeriveError::MalformedAnnotation),
    }
}

/// Reads the formatting that a list of annotations asks for.
///
/// Only the first annotation tagged `display` counts. Without one the result
/// is `None`; a malformed one is an error.
pub fn get_fmt_args(attrs: &Vec<Annotation>) -> (result: Result<Option<FormatSpec>, DeriveError>)
    ensures
        result_view(result) == parse(attrs.deep_view()),
{
    let mut i: usize = 0;
    assert(attrs.deep_view().skip(0) =~= attrs.deep_view());
    while i < attrs.len()
        invariant
            i <= attrs.len(),
            find_display(attrs.deep_view()) == find_display(attrs.deep_view().skip(i as int)),
        decreases attrs.len() - i,
    {
        let ghost rest = attrs.deep_view().skip(i as int);
        assert(rest.first() == attrs[i as int]@);
        assert(rest.drop_first() == attrs.deep_view().skip(i + 1));
        if same_text(attrs[i].key.as_str(), "display") {
            return match read_payload(&attrs[i].payload) {
                Ok(spec) => Ok(Some(spec)),
                Err(error) => Err(error),
            };
        }
        i += 1;
    }
    Ok(None)
}

} // verus!
