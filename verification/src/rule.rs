//! The rendering rule of one shape: which template is written, and which
//! fields are substituted into it.

use crate::annotation::{get_fmt_args, parse};
use crate::description::{result_view, Annotation, AnnotationView, Shape, ShapeView, StrStyle};
use crate::error::{DeriveError, DeriveErrorView};
use crate::resolve::{
    resolve, resolve_spec, ResolvedArgument, ResolvedArgumentView,
};
use crate::tokens::{
    append, append_ident, append_str_literal, append_tokens, lemma_spaced_empty, spaced,
    str_literal_text, tokens_text,
};
use vstd::prelude::*;
use vstd::string::StringExecFns;

verus! {

/// How a struct or one variant is rendered: the template, and the fields
/// that are substituted into it, in order.
#[derive(Clone, Debug, PartialEq, Eq)]
pub struct RenderRule {
    pub template: String,
    pub style: StrStyle,
    pub args: Vec<ResolvedArgument>,
}

/// The view of a [`RenderRule`].
pub struct RenderRuleView {
    pub template: Seq<char>,
    pub style: StrStyle,
    pub args: Seq<ResolvedArgumentView>,
}

impl View for RenderRule {
    type V = RenderRuleView;

    open spec fn view(&self) -> RenderRuleView {
        RenderRuleView { template: self.template@, style: self.style, args: self.args.deep_view() }
    }
}

impl DeepView for RenderRule {
    type V = RenderRuleView;

    open spec fn deep_view(&self) -> RenderRuleView {
        self@
    }
}

/// The name that is rendered where no annotation says otherwise: that of the
/// variant, or of the type where there is no variant.
pub open spec fn default_name(ty: Seq<char>, variant: Option<Seq<char>>) -> Seq<char> {
    match variant {
        Some(variant) => variant,
        None => ty,
    }
}

/// The rule for a shape and the annotations on it.
///
/// Without a `display` annotation the rule writes the bare name and no
/// fields. With one, it writes the annotation's template with the
/// annotation's arguments, each resolved against the shape.
pub open spec fn rule_spec(
    ty: Seq<char>,
    variant: Option<Seq<char>>,
    receiver: Seq<char>,
    annotations: Seq<AnnotationView>,
    shape: ShapeView,
) -> Result<RenderRuleView, DeriveErrorView> {
    match parse(annotations) {
        Err(error) => Err(error),
        Ok(None) => Ok(
            RenderRuleView {
                template: default_name(ty, variant),
                style: StrStyle::Cooked,
                args: Seq::empty(),
            },
        ),
        Ok(Some(spec)) => match resolve_spec(spec.args, shape, receiver, ty, variant) {
            Err(error) => Err(error),
            Ok(args) => Ok(RenderRuleView { template: spec.template, style: spec.style, args }),
        },
    }
}

/// Builds the rule for a shape and the annotations on it.
pub fn build_rule(
    ty: &str,
    variant: Option<&str>,
    receiver: &str,
    attrs: &Vec<Annotation>,
    shape: &Shape,
) -> (result: Result<RenderRule, DeriveError>)
    ensures
        result_view(result) == rule_spec(
            ty@,
            variant.deep_view(),
            receiver@,
            attrs.deep_view(),
            shape@,
        ),
{
    match get_fmt_args(attrs) {
        Err(error) => Err(error),
        Ok(None) => {
            let name = match variant {
                Some(variant) => variant,
                None => ty,
            };
            let args: Vec<ResolvedArgument> = Vec::new();
            assert(args.deep_view() =~= Seq::empty());
            Ok(RenderRule { template: String::from_str(name), style: StrStyle::Cooked, args })
        },
        Ok(Some(spec)) => match resolve(&spec, shape, receiver, ty, variant) {
            Err(error) => Err(error),
            Ok(args) => Ok(RenderRule { template: spec.template, style: spec.style, args }),
        },
    }
}

/// `prefix`, then each of `items` after a comma.
pub open spec fn after_commas(prefix: Seq<char>, items: Seq<Seq<char>>) -> Seq<char>
    decreases items.len(),
{
    if items.len() == 0 {
        prefix
    } else {
        spaced(spaced(after_commas(prefix, items.drop_last()), ","@), items.last())
    }
}

/// `prefix`, then `items` with a comma between each two of them.
pub open spec fn comma_separated(prefix: Seq<char>, items: Seq<Seq<char>>) -> Seq<char>
    decreases items.len(),
{
    if items.len() == 0 {
        prefix
    } else if items.len() == 1 {
        spaced(prefix, items.last())
    } else {
        spaced(spaced(comma_separated(prefix, items.drop_last()), ","@), items.last())
    }
}

/// The statement that writes a template, given as the source text of its
/// literal, with the given argument expressions to the formatter `f`.
pub open spec fn write_text(literal: Seq<char>, args: Seq<Seq<char>>) -> Seq<char> {
    spaced(after_commas(spaced("write ! ( f ,"@, literal), args), ") ? ;"@)
}

/// The expression for a field of a receiver.
pub open spec fn access_text(arg: ResolvedArgumentView) -> Seq<char> {
    spaced(spaced(arg.receiver, "."@), arg.member)
}

/// The expressions for the arguments of a rule, as fields of the receiver.
pub open spec fn accesses(args: Seq<ResolvedArgumentView>) -> Seq<Seq<char>> {
    Seq::new(args.len(), |i: int| access_text(args[i]))
}

/// The text of each of a list of token buffers.
pub open spec fn texts(parts: Seq<quote::Tokens>) -> Seq<Seq<char>> {
    Seq::new(parts.len(), |i: int| tokens_text(parts[i]))
}

/// The statement that a rule stands for, with its arguments read from the
/// receiver.
pub open spec fn rule_text(rule: RenderRuleView) -> Seq<char> {
    write_text(str_literal_text(rule.template, rule.style), accesses(rule.args))
}

/// The source text of a rule's template.
pub fn template_tokens(rule: &RenderRule) -> (tokens: quote::Tokens)
    ensures
        tokens_text(tokens) == str_literal_text(rule@.template, rule@.style),
{
    let mut tokens = quote::Tokens::new();
    append_str_literal(&mut tokens, rule.template.as_str(), rule.style);
    proof {
        lemma_spaced_empty(str_literal_text(rule@.template, rule@.style));
    }
    tokens
}

/// The statement that writes a template, given as the source text of its
/// literal, with the given argument expressions.
pub fn write_call(literal: &quote::Tokens, args: &Vec<quote::Tokens>) -> (tokens: quote::Tokens)
    ensures
        tokens_text(tokens) == write_text(tokens_text(*literal), texts(args@)),
{
    let mut tokens = quote::Tokens::new();
    append(&mut tokens, "write ! ( f ,");
    proof {
        lemma_spaced_empty("write ! ( f ,"@);
    }
    append_tokens(&mut tokens, literal);
    let ghost head = tokens_text(tokens);
    let mut i: usize = 0;
    assert(texts(args@).take(0) =~= Seq::empty());
    while i < args.len()
        invariant
            i <= args.len(),
            tokens_text(tokens) == after_commas(head, texts(args@).take(i as int)),
        decreases args.len() - i,
    {
        append(&mut tokens, ",");
        append_tokens(&mut tokens, &args[i]);
        proof {
            let next = texts(args@).take(i + 1);
            assert(next.drop_last() =~= texts(args@).take(i as int));
            assert(next.last() == tokens_text(args[i as int]));
        }
        i += 1;
    }
    assert(texts(args@).take(args.len() as int) =~= texts(args@));
    append(&mut tokens, ") ? ;");
    tokens
}

/// The statement that a rule stands for, with its arguments read from the
/// receiver.
pub fn rule_tokens(rule: &RenderRule) -> (tokens: quote::Tokens)
    ensures
        tokens_text(tokens) == rule_text(rule@),
{
    let mut args: Vec<quote::Tokens> = Vec::new();
    let mut i: usize = 0;
    while i < rule.args.len()
        invariant
            i <= rule.args.len(),
            args.len() == i,
            forall|k: int|
                0 <= k < i ==> tokens_text(#[trigger] args[k]) == access_text(rule@.args[k]),
        decreases rule.args.len() - i,
    {
        let mut access = quote::Tokens::new();
        append_ident(&mut access, rule.args[i].receiver.as_str());
        append(&mut access, ".");
        append_ident(&mut access, rule.args[i].member.as_str());
        proof {
            lemma_spaced_empty(rule.args[i as int].receiver@);
        }
        args.push(access);
        i += 1;
    }
    assert(texts(args@) =~= accesses(rule@.args));
    write_call(&template_tokens(rule), &args)
}

/// The view of a generated piece of code, or of the failure to generate it.
pub open spec fn code_view(result: Result<quote::Tokens, DeriveError>) -> Result<
    Seq<char>,
    DeriveErrorView,
> {
    match result {
        Ok(tokens) => Ok(tokens_text(tokens)),
        Err(error) => Err(error@),
    }
}

/// The statement that renders a value of the given shape, read from
/// `receiver`, or the reason why there is none.
pub open spec fn struct_code_spec(
    ty: Seq<char>,
    receiver: Seq<char>,
    annotations: Seq<AnnotationView>,
    shape: ShapeView,
) -> Result<Seq<char>, DeriveErrorView> {
    match rule_spec(ty, None, receiver, annotations, shape) {
        Ok(rule) => Ok(rule_text(rule)),
        Err(error) => Err(error),
    }
}

/// Generates the statement that renders a struct.
///
/// `ident` is the name of the struct, `self_ident` the expression for the
/// value that is rendered.
pub fn build_struct_code(ident: &str, self_ident: &str, attrs: &Vec<Annotation>, body: &Shape) -> (result:
    Result<quote::Tokens, DeriveError>)
    ensures
        code_view(result) == struct_code_spec(ident@, self_ident@, attrs.deep_view(), body@),
{
    match build_rule(ident, None, self_ident, attrs, body) {
        Ok(rule) => Ok(rule_tokens(&rule)),
        Err(error) => Err(error),
    }
}

} // verus!
