//! Assembling the `Display` implementation of a type from the rules of its
//! shape or of its variants.

use crate::description::{
    Body, BodyView, Shape, ShapeView, TypeDescription, TypeView, VariantDescription,
    VariantView,
};
use crate::error::{DeriveError, DeriveErrorView};
use crate::resolve::{field_names, field_names_of, ResolvedArgumentView};
use crate::rule::{
    build_rule, build_struct_code, code_view, comma_separated, rule_spec, struct_code_spec,
    template_tokens, texts, write_call, write_text, RenderRule, RenderRuleView,
};
use crate::tokens::{
    append, append_ident, append_tokens, lemma_spaced_assoc, lemma_spaced_empty, spaced,
    str_literal_text, tokens_text,
};
use vstd::prelude::*;
use vstd::string::StringExecFns;

verus! {

/// The name that a variant's pattern binds a field to, given what the field
/// is called in an access: `_` and the index for an unnamed field, the name
/// for a named one.
pub open spec fn binder_text(shape: ShapeView, member: Seq<char>) -> Seq<char> {
    match shape {
        ShapeView::Positional(_) => seq!['_'] + member,
        _ => member,
    }
}

/// The expressions for the arguments of a rule, as names bound by the
/// variant's pattern.
pub open spec fn binders(shape: ShapeView, args: Seq<ResolvedArgumentView>) -> Seq<Seq<char>> {
    Seq::new(args.len(), |i: int| binder_text(shape, args[i].member))
}

/// Each name after the word `ref`.
pub open spec fn by_ref(names: Seq<Seq<char>>) -> Seq<Seq<char>> {
    Seq::new(names.len(), |i: int| spaced("ref"@, names[i]))
}

/// The pattern that matches a variant and binds each of its fields by
/// reference, under the name by which annotations refer to it.
pub open spec fn pattern_text(ty: Seq<char>, variant: Seq<char>, shape: ShapeView) -> Seq<char> {
    let path = spaced(spaced(spaced("&"@, ty), "::"@), variant);
    match shape {
        ShapeView::Unit => path,
        ShapeView::Positional(_) => spaced(
            comma_separated(spaced(path, "("@), by_ref(field_names(shape))),
            ")"@,
        ),
        ShapeView::Named(_) => spaced(
            comma_separated(spaced(path, "{"@), by_ref(field_names(shape))),
            "}"@,
        ),
    }
}

/// The match arm that renders a variant by the given rule.
pub open spec fn arm_text(
    ty: Seq<char>,
    variant: Seq<char>,
    shape: ShapeView,
    rule: RenderRuleView,
) -> Seq<char> {
    spaced(
        spaced(
            spaced(pattern_text(ty, variant, shape), "=> {"@),
            write_text(str_literal_text(rule.template, rule.style), binders(shape, rule.args)),
        ),
        "}"@,
    )
}

/// The match arm that renders a variant, or the reason why there is none.
///
/// The variant's rule reads the fields of the matched value, which it calls
/// `item`; the arm writes each access as the name that the pattern binds.
pub open spec fn arm_spec(ty: Seq<char>, variant: VariantView) -> Result<
    Seq<char>,
    DeriveErrorView,
> {
    match rule_spec(ty, Some(variant.name), "item"@, variant.annotations, variant.shape) {
        Ok(rule) => Ok(arm_text(ty, variant.name, variant.shape, rule)),
        Err(error) => Err(error),
    }
}

/// The match arms of the variants, in declaration order, or the failure of
/// the first variant that has none.
pub open spec fn arms_spec(ty: Seq<char>, variants: Seq<VariantView>) -> Result<
    Seq<Seq<char>>,
    DeriveErrorView,
>
    decreases variants.len(),
{
    if variants.len() == 0 {
        Ok(Seq::empty())
    } else {
        match arms_spec(ty, variants.drop_last()) {
            Err(error) => Err(error),
            Ok(arms) => match arm_spec(ty, variants.last()) {
                Err(error) => Err(error),
                Ok(arm) => Ok(arms.push(arm)),
            },
        }
    }
}

/// The match over all variants of an enum, or the reason why there is none.
pub open spec fn enum_spec(ty: Seq<char>, variants: Seq<VariantView>) -> Result<
    Seq<char>,
    DeriveErrorView,
> {
    match arms_spec(ty, variants) {
        Ok(arms) => Ok(spaced(comma_separated("match self {"@, arms), "}"@)),
        Err(error) => Err(error),
    }
}

/// The implementation of `Display` for the type `name`, with `code` as the
/// statement that renders a value.
pub open spec fn impl_text(name: Seq<char>, code: Seq<char>) -> Seq<char> {
    spaced(
        spaced(
            spaced(
                spaced("impl :: std :: fmt :: Display for"@, name),
                "{ fn fmt ( & self , f : & mut :: std :: fmt :: Formatter ) -> :: std :: fmt :: Result {"@,
            ),
            code,
        ),
        "Ok ( ( ) ) } }"@,
    )
}

/// The implementation of `Display` for a type, or the reason why there is
/// none.
///
/// A struct is rendered by the rule of its own shape and annotations, read
/// from `self`. An enum is rendered by a match with one arm for each
/// variant; annotations on the enum itself are not looked at.
pub open spec fn impl_spec(description: TypeView) -> Result<Seq<char>, DeriveErrorView> {
    let code = match description.body {
        BodyView::Struct(shape) => struct_code_spec(
            description.name,
            "self"@,
            description.annotations,
            shape,
        ),
        BodyView::Enum(variants) => enum_spec(description.name, variants),
    };
    match code {
        Ok(code) => Ok(impl_text(description.name, code)),
        Err(error) => Err(error),
    }
}

/// Where a prefix of the variants has no arms, the variants have none, for
/// the same reason.
pub proof fn lemma_arms_prefix_error(ty: Seq<char>, variants: Seq<VariantView>, n: int)
    requires
        0 <= n <= variants.len(),
        arms_spec(ty, variants.take(n)) is Err,
    ensures
        arms_spec(ty, variants) == arms_spec(ty, variants.take(n)),
    decreases variants.len(),
{
    if n == variants.len() {
        assert(variants.take(n) =~= variants);
    } else {
        assert(variants.drop_last().take(n) =~= variants.take(n));
        lemma_arms_prefix_error(ty, variants.drop_last(), n);
    }
}

/// Appends to `tokens` the pattern's binders: each field of the shape, by
/// reference.
fn append_binders(tokens: &mut quote::Tokens, shape: &Shape)
    ensures
        tokens_text(*final(tokens)) == comma_separated(
            tokens_text(*old(tokens)),
            by_ref(field_names(shape@)),
        ),
{
    let names = field_names_of(shape);
    let ghost prefix = tokens_text(*tokens);
    let ghost items = by_ref(field_names(shape@));
    let mut i: usize = 0;
    assert(items.take(0) =~= Seq::empty());
    while i < names.len()
        invariant
            i <= names.len(),
            names.deep_view() == field_names(shape@),
            items == by_ref(field_names(shape@)),
            tokens_text(*tokens) == comma_separated(prefix, items.take(i as int)),
        decreases names.len() - i,
    {
        let ghost before = tokens_text(*tokens);
        if i > 0 {
            append(tokens, ",");
        }
        let ghost separated = tokens_text(*tokens);
        append(tokens, "ref");
        append_ident(tokens, names[i].as_str());
        proof {
            let next = items.take(i + 1);
            assert(next.drop_last() =~= items.take(i as int));
            assert(next.last() == spaced("ref"@, names[i as int]@));
            lemma_spaced_assoc(separated, "ref"@, names[i as int]@);
        }
        i += 1;
    }
    assert(items.take(names.len() as int) =~= items);
}

/// The pattern that matches a variant and binds its fields.
fn pattern_tokens(ty: &str, variant: &str, shape: &Shape) -> (tokens: quote::Tokens)
    ensures
        tokens_text(tokens) == pattern_text(ty@, variant@, shape@),
{
    let mut tokens = quote::Tokens::new();
    append(&mut tokens, "&");
    proof {
        lemma_spaced_empty("&"@);
    }
    append_ident(&mut tokens, ty);
    append(&mut tokens, "::");
    append_ident(&mut tokens, variant);
    match shape {
        Shape::Unit => {},
        Shape::Positional(_) => {
            append(&mut tokens, "(");
            append_binders(&mut tokens, shape);
            append(&mut tokens, ")");
        },
        Shape::Named(_) => {
            append(&mut tokens, "{");
            append_binders(&mut tokens, shape);
            append(&mut tokens, "}");
        },
    }
    tokens
}

/// The match arm that renders a variant by the given rule.
pub fn arm_tokens(ty: &str, variant: &str, shape: &Shape, rule: &RenderRule) -> (tokens:
    quote::Tokens)
    ensures
        tokens_text(tokens) == arm_text(ty@, variant@, shape@, rule@),
{
    let positional = match shape {
        Shape::Positional(_) => true,
        _ => false,
    };
    let mut args: Vec<quote::Tokens> = Vec::new();
    let mut i: usize = 0;
    while i < rule.args.len()
        invariant
            i <= rule.args.len(),
            positional == (shape@ is Positional),
            args.len() == i,
            forall|k: int|
                0 <= k < i ==> tokens_text(#[trigger] args[k]) == binder_text(
                    shape@,
                    rule@.args[k].member,
                ),
        decreases rule.args.len() - i,
    {
        let mut name = String::new();
        if positional {
            proof {
                reveal_strlit("_");
            }
            name.append("_");
        }
        name.append(rule.args[i].member.as_str());
        assert(name@ =~= binder_text(shape@, rule@.args[i as int].member));
        let mut binder = quote::Tokens::new();
        append_ident(&mut binder, name.as_str());
        proof {
            lemma_spaced_empty(name@);
        }
        args.push(binder);
        i += 1;
    }
    assert(texts(args@) =~= binders(shape@, rule@.args));
    let body = write_call(&template_tokens(rule), &args);
    let mut tokens = quote::Tokens::new();
    append_tokens(&mut tokens, &pattern_tokens(ty, variant, shape));
    proof {
        lemma_spaced_empty(pattern_text(ty@, variant@, shape@));
    }
    append(&mut tokens, "=> {");
    append_tokens(&mut tokens, &body);
    append(&mut tokens, "}");
    tokens
}

/// Generates the match that renders an enum: one arm for each variant, in
/// declaration order.
///
/// `ident` is the name of the enum. The first variant whose annotations are
/// malformed, or whose arguments name no field of it, fails the whole.
pub fn build_enum_impl(ident: &str, variants: &Vec<VariantDescription>) -> (result: Result<
    quote::Tokens,
    DeriveError,
>)
    ensures
        code_view(result) == enum_spec(ident@, variants.deep_view()),
{
    let mut tokens = quote::Tokens::new();
    append(&mut tokens, "match self {");
    proof {
        lemma_spaced_empty("match self {"@);
    }
    let ghost mut arms: Seq<Seq<char>> = Seq::empty();
    let mut i: usize = 0;
    assert(variants.deep_view().take(0) =~= Seq::empty());
    while i < variants.len()
        invariant
            i <= variants.len(),
            arms_spec(ident@, variants.deep_view().take(i as int)) == Ok::<
                Seq<Seq<char>>,
                DeriveErrorView,
            >(arms),
            arms.len() == i,
            tokens_text(tokens) == comma_separated("match self {"@, arms),
        decreases variants.len() - i,
    {
        let variant = &variants[i];
        let ghost next = variants.deep_view().take(i + 1);
        assert(next.drop_last() =~= variants.deep_view().take(i as int));
        assert(next.last() == variant@);
        let rule = match build_rule(
            ident,
            Some(variant.name.as_str()),
            "item",
            &variant.annotations,
            &variant.shape,
        ) {
            Ok(rule) => rule,
            Err(error) => {
                proof {
                    lemma_arms_prefix_error(ident@, variants.deep_view(), i + 1);
                }
                return Err(error);
            },
        };
        let arm = arm_tokens(ident, variant.name.as_str(), &variant.shape, &rule);
        if i > 0 {
            append(&mut tokens, ",");
        }
        append_tokens(&mut tokens, &arm);
        proof {
            assert(arms.push(tokens_text(arm)).drop_last() =~= arms);
            arms = arms.push(tokens_text(arm));
        }
        i += 1;
    }
    assert(variants.deep_view().take(variants.len() as int) =~= variants.deep_view());
    append(&mut tokens, "}");
    Ok(tokens)
}

/// Generates the implementation of `Display` for a type.
pub fn build_impl(ast: &TypeDescription) -> (result: Result<quote::Tokens, DeriveError>)
    ensures
        code_view(result) == impl_spec(ast@),
{
    let code = match &ast.body {
        Body::Struct(shape) => build_struct_code(ast.name.as_str(), "self", &ast.annotations, shape),
        Body::Enum(variants) => build_enum_impl(ast.name.as_str(), variants),
    };
    let code = match code {
        Ok(code) => code,
        Err(error) => {
            return Err(error);
        },
    };
    let mut tokens = quote::Tokens::new();
    append(&mut tokens, "impl :: std :: fmt :: Display for");
    proof {
        lemma_spaced_empty("impl :: std :: fmt :: Display for"@);
    }
    append_ident(&mut tokens, ast.name.as_str());
    append(
        &mut tokens,
        "{ fn fmt ( & self , f : & mut :: std :: fmt :: Formatter ) -> :: std :: fmt :: Result {",
    );
    append_tokens(&mut tokens, &code);
    append(&mut tokens, "Ok ( ( ) ) } }");
    Ok(tokens)
}

} // verus!
