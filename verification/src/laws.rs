//! What holds of every description, stated over the models of the generator
//! and proved from them.

use crate::annotation::{find_display, parse};
use crate::assemble::{arm_spec, arms_spec, binders, impl_spec};
use crate::description::{
    AnnotationItemView, AnnotationView, BodyView, LiteralView, PayloadView, ShapeView, StrStyle,
    TypeView, VariantView,
};
use crate::error::DeriveErrorView;
use crate::resolve::{
    first_unknown, is_field, member_text, unknown_argument, ResolvedArgumentView,
};
use crate::rule::{
    accesses, default_name, rule_spec, struct_code_spec, write_text, RenderRuleView,
};
use crate::tokens::{cooked_literal_text, str_literal_text};
use vstd::prelude::*;

verus! {

/// Whether the variant at `k` has no rule.
pub open spec fn variant_fails(ty: Seq<char>, variants: Seq<VariantView>, k: int) -> bool {
    rule_spec(ty, Some(variants[k].name), "item"@, variants[k].annotations, variants[k].shape) is Err
}

/// Every argument is a field exactly where there is no first unknown one;
/// and the first unknown one, where there is one, is one of the arguments,
/// preceded only by fields.
pub proof fn lemma_first_unknown(shape: ShapeView, args: Seq<Seq<char>>)
    ensures
        first_unknown(shape, args) is None <==> forall|i: int|
            0 <= i < args.len() ==> is_field(shape, #[trigger] args[i]),
        first_unknown(shape, args) matches Some(name) ==> exists|i: int|
            0 <= i < args.len() && #[trigger] args[i] == name && !is_field(shape, name) && forall|
                j: int,
            |
                0 <= j < i ==> is_field(shape, #[trigger] args[j]),
    decreases args.len(),
{
    if args.len() > 0 {
        let rest = args.drop_first();
        lemma_first_unknown(shape, rest);
        assert(forall|i: int| 0 <= i < rest.len() ==> rest[i] == args[i + 1]);
        if is_field(shape, args.first()) {
            if first_unknown(shape, args) is None {
                assert forall|i: int| 0 <= i < args.len() implies is_field(
                    shape,
                    #[trigger] args[i],
                ) by {
                    if i > 0 {
                        assert(rest[i - 1] == args[i]);
                    }
                }
            } else {
                let name = first_unknown(shape, rest)->Some_0;
                let i = choose|i: int|
                    0 <= i < rest.len() && #[trigger] rest[i] == name && !is_field(shape, name)
                        && forall|j: int| 0 <= j < i ==> is_field(shape, #[trigger] rest[j]);
                assert(args[i + 1] == name);
                assert forall|j: int| 0 <= j < i + 1 implies is_field(
                    shape,
                    #[trigger] args[j],
                ) by {
                    if j > 0 {
                        assert(rest[j - 1] == args[j]);
                    }
                }
            }
        } else {
            assert(args[0] == args.first());
        }
    }
}

/// A type or a variant without a `display` annotation is rendered as its
/// bare name: the rule writes the name and substitutes no field, whatever
/// the shape.
pub proof fn law_default_is_bare_name(
    ty: Seq<char>,
    variant: Option<Seq<char>>,
    receiver: Seq<char>,
    annotations: Seq<AnnotationView>,
    shape: ShapeView,
)
    requires
        find_display(annotations) is None,
    ensures
        rule_spec(ty, variant, receiver, annotations, shape) == Ok::<
            RenderRuleView,
            DeriveErrorView,
        >(
            RenderRuleView {
                template: default_name(ty, variant),
                style: StrStyle::Cooked,
                args: Seq::empty(),
            },
        ),
        variant is None ==> struct_code_spec(ty, receiver, annotations, shape) == Ok::<
            Seq<char>,
            DeriveErrorView,
        >(write_text(cooked_literal_text(ty), Seq::empty())),
{
    assert(accesses(Seq::empty()) =~= Seq::empty());
}

/// A type or a variant annotated with a template and no arguments is
/// rendered as that template: the rule writes the template as it was given
/// and substitutes no field, whatever the shape.
pub proof fn law_template_without_arguments(
    ty: Seq<char>,
    variant: Option<Seq<char>>,
    receiver: Seq<char>,
    annotations: Seq<AnnotationView>,
    shape: ShapeView,
    template: Seq<char>,
    style: StrStyle,
)
    requires
        find_display(annotations) matches Some(annotation) && annotation.payload
            == PayloadView::List(
            seq![AnnotationItemView::NameValue("fmt"@, LiteralView::Str(template, style))],
        ),
    ensures
        rule_spec(ty, variant, receiver, annotations, shape) == Ok::<
            RenderRuleView,
            DeriveErrorView,
        >(RenderRuleView { template, style, args: Seq::empty() }),
        variant is None ==> struct_code_spec(ty, receiver, annotations, shape) == Ok::<
            Seq<char>,
            DeriveErrorView,
        >(write_text(str_literal_text(template, style), Seq::empty())),
{
    let found = parse(annotations)->Ok_0->Some_0;
    assert(found.args =~= Seq::empty());
    lemma_first_unknown(shape, found.args);
    assert(rule_spec(ty, variant, receiver, annotations, shape)->Ok_0.args =~= Seq::empty());
    assert(accesses(Seq::empty()) =~= Seq::empty());
}

/// The arguments are substituted in the order in which the annotation gives
/// them, whatever the order of the fields: the rule has one access for each
/// argument, in the same place, to the field that the argument names. In a
/// variant's arm each of them is written as the argument itself.
pub proof fn law_arguments_keep_their_order(
    ty: Seq<char>,
    variant: Option<Seq<char>>,
    receiver: Seq<char>,
    annotations: Seq<AnnotationView>,
    shape: ShapeView,
)
    requires
        parse(annotations) matches Ok(Some(_)),
        rule_spec(ty, variant, receiver, annotations, shape) is Ok,
    ensures
        ({
            let spec = parse(annotations)->Ok_0->Some_0;
            let rule = rule_spec(ty, variant, receiver, annotations, shape)->Ok_0;
            &&& rule.template == spec.template
            &&& rule.style == spec.style
            &&& rule.args.len() == spec.args.len()
            &&& forall|i: int|
                0 <= i < spec.args.len() ==> #[trigger] rule.args[i] == (ResolvedArgumentView {
                    receiver,
                    member: member_text(shape, spec.args[i]),
                }) && is_field(shape, spec.args[i])
            &&& binders(shape, rule.args) == spec.args
        }),
{
    let spec = parse(annotations)->Ok_0->Some_0;
    let rule = rule_spec(ty, variant, receiver, annotations, shape)->Ok_0;
    lemma_first_unknown(shape, spec.args);
    assert forall|i: int| 0 <= i < spec.args.len() implies #[trigger] binders(shape, rule.args)[i]
        == spec.args[i] by {
        let arg = spec.args[i];
        assert(is_field(shape, arg));
        if shape is Positional {
            assert((seq!['_'] + arg.skip(1)) =~= arg);
        }
    }
    assert(binders(shape, rule.args) =~= spec.args);
}

/// An argument that names no field of the shape fails the rule: it is never
/// dropped. The failure names the first such argument.
pub proof fn law_unknown_argument_fails(
    ty: Seq<char>,
    variant: Option<Seq<char>>,
    receiver: Seq<char>,
    annotations: Seq<AnnotationView>,
    shape: ShapeView,
    i: int,
)
    requires
        parse(annotations) matches Ok(Some(spec)) && 0 <= i < spec.args.len() && !is_field(
            shape,
            spec.args[i],
        ),
    ensures
        rule_spec(ty, variant, receiver, annotations, shape) is Err,
        !(shape is Unit) ==> first_unknown(shape, parse(annotations)->Ok_0->Some_0.args) is Some
            && rule_spec(ty, variant, receiver, annotations, shape) == Err::<
            RenderRuleView,
            DeriveErrorView,
        >(
            unknown_argument(
                shape,
                ty,
                variant,
                first_unknown(shape, parse(annotations)->Ok_0->Some_0.args)->Some_0,
            ),
        ),
{
    let spec = parse(annotations)->Ok_0->Some_0;
    lemma_first_unknown(shape, spec.args);
}

/// Any argument for a shape without fields fails the rule.
pub proof fn law_unit_takes_no_arguments(
    ty: Seq<char>,
    variant: Option<Seq<char>>,
    receiver: Seq<char>,
    annotations: Seq<AnnotationView>,
)
    requires
        parse(annotations) matches Ok(Some(spec)) && spec.args.len() > 0,
    ensures
        rule_spec(ty, variant, receiver, annotations, ShapeView::Unit) == Err::<
            RenderRuleView,
            DeriveErrorView,
        >(DeriveErrorView::ArgumentsOnUnitVariant { ty, variant }),
{
}

/// There is a rule exactly where the annotation, if there is one, is well
/// formed and each of its arguments names a field of the shape.
pub proof fn law_rule_exists_where_arguments_are_fields(
    ty: Seq<char>,
    variant: Option<Seq<char>>,
    receiver: Seq<char>,
    annotations: Seq<AnnotationView>,
    shape: ShapeView,
)
    ensures
        rule_spec(ty, variant, receiver, annotations, shape) is Ok <==> (parse(annotations) is Ok
            && (parse(annotations) matches Ok(Some(spec)) ==> forall|i: int|
            0 <= i < spec.args.len() ==> is_field(shape, #[trigger] spec.args[i]))),
        parse(annotations) matches Err(error) ==> rule_spec(
            ty,
            variant,
            receiver,
            annotations,
            shape,
        ) == Err::<RenderRuleView, DeriveErrorView>(error),
{
    if let Ok(Some(spec)) = parse(annotations) {
        lemma_first_unknown(shape, spec.args);
        if shape is Unit && spec.args.len() > 0 {
            assert(!is_field(shape, spec.args[0]));
        }
    }
}

/// The variants have arms exactly where each of them has one.
pub proof fn lemma_arms_fail(ty: Seq<char>, variants: Seq<VariantView>)
    ensures
        arms_spec(ty, variants) is Err <==> exists|k: int|
            0 <= k < variants.len() && #[trigger] variant_fails(ty, variants, k),
    decreases variants.len(),
{
    if variants.len() > 0 {
        let front = variants.drop_last();
        lemma_arms_fail(ty, front);
        let last = variants.len() - 1;
        assert(variants.last() == variants[last]);
        assert(arm_spec(ty, variants[last]) is Err <==> variant_fails(ty, variants, last));
        assert forall|k: int| 0 <= k < front.len() implies (variant_fails(ty, front, k)
            <==> variant_fails(ty, variants, k)) by {
            assert(front[k] == variants[k]);
        }
        if arms_spec(ty, variants) is Err {
            if arms_spec(ty, front) is Err {
                let k = choose|k: int| 0 <= k < front.len() && #[trigger] variant_fails(ty, front, k);
                assert(variant_fails(ty, variants, k));
            } else {
                assert(variant_fails(ty, variants, last));
            }
        }
        if exists|k: int| 0 <= k < variants.len() && #[trigger] variant_fails(ty, variants, k) {
            let k = choose|k: int| 0 <= k < variants.len() && #[trigger] variant_fails(ty, variants, k);
            if k < last {
                assert(variant_fails(ty, front, k));
            }
        }
    }
}

/// Where an enum has a match, the match has one arm for each variant, in
/// declaration order: none is left out.
pub proof fn law_one_arm_for_each_variant(ty: Seq<char>, variants: Seq<VariantView>)
    requires
        arms_spec(ty, variants) is Ok,
    ensures
        arms_spec(ty, variants)->Ok_0.len() == variants.len(),
        forall|k: int|
            0 <= k < variants.len() ==> arm_spec(ty, #[trigger] variants[k]) == Ok::<
                Seq<char>,
                DeriveErrorView,
            >(arms_spec(ty, variants)->Ok_0[k]),
    decreases variants.len(),
{
    if variants.len() > 0 {
        let front = variants.drop_last();
        law_one_arm_for_each_variant(ty, front);
        assert forall|k: int| 0 <= k < variants.len() implies arm_spec(
            ty,
            #[trigger] variants[k],
        ) == Ok::<Seq<char>, DeriveErrorView>(arms_spec(ty, variants)->Ok_0[k]) by {
            if k < front.len() {
                assert(front[k] == variants[k]);
            }
        }
    }
}

/// A failure stops the generation for the whole type: there is an
/// implementation exactly where the struct has a rule, or where every
/// variant of the enum has one.
pub proof fn law_failure_stops_generation(description: TypeView)
    ensures
        description.body matches BodyView::Struct(shape) ==> (impl_spec(description) is Err
            <==> rule_spec(description.name, None, "self"@, description.annotations, shape) is Err),
        description.body matches BodyView::Enum(variants) ==> (impl_spec(description) is Err
            <==> exists|k: int|
            0 <= k < variants.len() && #[trigger] variant_fails(description.name, variants, k)),
{
    match description.body {
        BodyView::Struct(shape) => {},
        BodyView::Enum(variants) => {
            lemma_arms_fail(description.name, variants);
        },
    }
}

} // verus!
