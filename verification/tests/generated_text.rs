use display_derive::assemble::{arm_tokens, build_enum_impl, build_impl};
use display_derive::display;
use display_derive::description::{
    Annotation, AnnotationItem, Body, Literal, Payload, Shape, StrStyle, TypeDescription,
    VariantDescription,
};
use display_derive::error::DeriveError;
use display_derive::resolve::ResolvedArgument;
use display_derive::rule::{
    build_rule, build_struct_code, rule_tokens, template_tokens, write_call, RenderRule,
};

const HEAD: &str = "impl :: std :: fmt :: Display for";
const FMT: &str =
    "{ fn fmt ( & self , f : & mut :: std :: fmt :: Formatter ) -> :: std :: fmt :: Result {";
const TAIL: &str = "Ok ( ( ) ) } }";

fn styled(template: &str, style: StrStyle, args: &[&str]) -> Annotation {
    let mut items =
        vec![AnnotationItem::NameValue("fmt".to_string(), Literal::Str(template.to_string(), style))];
    for arg in args {
        items.push(AnnotationItem::Word(arg.to_string()));
    }
    Annotation { key: "display".to_string(), payload: Payload::List(items) }
}

fn annotation(template: &str, args: &[&str]) -> Annotation {
    styled(template, StrStyle::Cooked, args)
}

fn names(names: &[&str]) -> Vec<String> {
    names.iter().map(|name| name.to_string()).collect()
}

fn a_struct(name: &str, annotations: Vec<Annotation>, shape: Shape) -> TypeDescription {
    TypeDescription { name: name.to_string(), annotations, body: Body::Struct(shape) }
}

fn variant(name: &str, annotations: Vec<Annotation>, shape: Shape) -> VariantDescription {
    VariantDescription { name: name.to_string(), shape, annotations }
}

fn an_enum(name: &str, variants: Vec<VariantDescription>) -> TypeDescription {
    TypeDescription { name: name.to_string(), annotations: vec![], body: Body::Enum(variants) }
}

#[test]
fn unit_struct_without_annotation_writes_its_name() {
    let code = display(&a_struct("UnitStruct", vec![], Shape::Unit)).unwrap();
    assert_eq!(
        code,
        format!("{} UnitStruct {} write ! ( f , \"UnitStruct\" ) ? ; {}", HEAD, FMT, TAIL)
    );
}

#[test]
fn struct_with_fields_and_no_annotation_writes_only_its_name() {
    let positional = display(&a_struct("Pair", vec![], Shape::Positional(2))).unwrap();
    assert_eq!(positional, format!("{} Pair {} write ! ( f , \"Pair\" ) ? ; {}", HEAD, FMT, TAIL));
    let named = display(&a_struct("Point", vec![], Shape::Named(names(&["x", "y"])))).unwrap();
    assert_eq!(named, format!("{} Point {} write ! ( f , \"Point\" ) ? ; {}", HEAD, FMT, TAIL));
}

#[test]
fn annotations_with_other_keys_are_passed_over() {
    let other = Annotation { key: "derive".to_string(), payload: Payload::Word };
    let doc = Annotation {
        key: "doc".to_string(),
        payload: Payload::NameValue(Literal::Str("text".to_string(), StrStyle::Cooked)),
    };
    let code =
        display(&a_struct("S", vec![other, doc, annotation("shown", &[])], Shape::Unit)).unwrap();
    assert_eq!(code, format!("{} S {} write ! ( f , \"shown\" ) ? ; {}", HEAD, FMT, TAIL));
}

#[test]
fn template_without_arguments_is_written_as_given() {
    for shape in [Shape::Unit, Shape::Positional(3), Shape::Named(names(&["a"]))] {
        let code = display(&a_struct("S", vec![annotation("custom", &[])], shape)).unwrap();
        assert_eq!(code, format!("{} S {} write ! ( f , \"custom\" ) ? ; {}", HEAD, FMT, TAIL));
    }
}

#[test]
fn tuple_struct_reads_its_fields_by_index() {
    let description = a_struct(
        "TupleStructCustom",
        vec![annotation("custom {}/{}", &["_0", "_1"])],
        Shape::Positional(2),
    );
    assert_eq!(
        display(&description).unwrap(),
        format!(
            "{} TupleStructCustom {} write ! ( f , \"custom {{}}/{{}}\" , self . 0 , self . 1 ) ? ; {}",
            HEAD, FMT, TAIL
        )
    );
}

#[test]
fn named_struct_reads_its_fields_by_name() {
    let description = a_struct(
        "Struct",
        vec![annotation("custom {}/{}", &["a", "b"])],
        Shape::Named(names(&["a", "b"])),
    );
    assert_eq!(
        display(&description).unwrap(),
        format!(
            "{} Struct {} write ! ( f , \"custom {{}}/{{}}\" , self . a , self . b ) ? ; {}",
            HEAD, FMT, TAIL
        )
    );
}

#[test]
fn arguments_are_written_in_the_order_of_the_annotation() {
    let description = a_struct(
        "Struct",
        vec![annotation("{} {} {}", &["c", "a", "c"])],
        Shape::Named(names(&["a", "b", "c"])),
    );
    assert_eq!(
        display(&description).unwrap(),
        format!(
            "{} Struct {} write ! ( f , \"{{}} {{}} {{}}\" , self . c , self . a , self . c ) ? ; {}",
            HEAD, FMT, TAIL
        )
    );
    let rule = build_rule(
        "Struct",
        None,
        "self",
        &description.annotations,
        &Shape::Named(names(&["a", "b", "c"])),
    )
    .unwrap();
    let members: Vec<&str> = rule.args.iter().map(|arg| arg.member.as_str()).collect();
    assert_eq!(members, vec!["c", "a", "c"]);
    let reversed = a_struct(
        "Tuple",
        vec![annotation("{}{}", &["_1", "_0"])],
        Shape::Positional(2),
    );
    assert_eq!(
        display(&reversed).unwrap(),
        format!(
            "{} Tuple {} write ! ( f , \"{{}}{{}}\" , self . 1 , self . 0 ) ? ; {}",
            HEAD, FMT, TAIL
        )
    );
}

#[test]
fn full_enum_has_one_arm_for_each_variant() {
    let description = an_enum(
        "FullEnum",
        vec![
            variant("Unit", vec![annotation("unit", &[])], Shape::Unit),
            variant("Tuple", vec![annotation("tuple {}", &["_0"])], Shape::Positional(1)),
            variant(
                "Struct",
                vec![annotation("struct {}/{}", &["a", "b"])],
                Shape::Named(names(&["a", "b"])),
            ),
        ],
    );
    let arms = [
        "& FullEnum :: Unit => { write ! ( f , \"unit\" ) ? ; }",
        "& FullEnum :: Tuple ( ref _0 ) => { write ! ( f , \"tuple {}\" , _0 ) ? ; }",
        "& FullEnum :: Struct { ref a , ref b } => { write ! ( f , \"struct {}/{}\" , a , b ) ? ; }",
    ];
    assert_eq!(
        display(&description).unwrap(),
        format!(
            "{} FullEnum {} match self {{ {} , {} , {} }} {}",
            HEAD, FMT, arms[0], arms[1], arms[2], TAIL
        )
    );
}

#[test]
fn variants_without_annotation_write_their_own_name() {
    let description = an_enum(
        "E",
        vec![
            variant("A", vec![], Shape::Unit),
            variant("B", vec![], Shape::Positional(2)),
            variant("C", vec![], Shape::Named(names(&["x"]))),
        ],
    );
    let tokens = build_enum_impl("E", match &description.body {
        Body::Enum(variants) => variants,
        Body::Struct(_) => unreachable!(),
    })
    .unwrap();
    assert_eq!(
        tokens.as_str(),
        "match self { & E :: A => { write ! ( f , \"A\" ) ? ; } , \
         & E :: B ( ref _0 , ref _1 ) => { write ! ( f , \"B\" ) ? ; } , \
         & E :: C { ref x } => { write ! ( f , \"C\" ) ? ; } }"
    );
}

#[test]
fn enum_without_variants_has_an_empty_match() {
    let tokens = build_enum_impl("Never", &vec![]).unwrap();
    assert_eq!(tokens.as_str(), "match self { }");
    assert_eq!(
        display(&an_enum("Never", vec![])).unwrap(),
        format!("{} Never {} match self {{ }} {}", HEAD, FMT, TAIL)
    );
}

#[test]
fn variants_without_fields_in_brackets_have_empty_patterns() {
    let tokens = build_enum_impl(
        "E",
        &vec![
            variant("T", vec![], Shape::Positional(0)),
            variant("S", vec![], Shape::Named(vec![])),
        ],
    )
    .unwrap();
    assert_eq!(
        tokens.as_str(),
        "match self { & E :: T ( ) => { write ! ( f , \"T\" ) ? ; } , \
         & E :: S { } => { write ! ( f , \"S\" ) ? ; } }"
    );
}

#[test]
fn annotations_on_the_enum_itself_are_not_looked_at() {
    let mut description = an_enum("E", vec![variant("A", vec![], Shape::Unit)]);
    description.annotations =
        vec![Annotation { key: "display".to_string(), payload: Payload::Word }];
    assert_eq!(
        display(&description).unwrap(),
        format!("{} E {} match self {{ & E :: A => {{ write ! ( f , \"A\" ) ? ; }} }} {}", HEAD, FMT, TAIL)
    );
}

#[test]
fn the_first_failing_variant_fails_the_enum() {
    let description = an_enum(
        "E",
        vec![
            variant("Fine", vec![annotation("fine", &[])], Shape::Unit),
            variant("Unit", vec![annotation("{}", &["x"])], Shape::Unit),
            variant("Tuple", vec![annotation("{}", &["_7"])], Shape::Positional(1)),
        ],
    );
    assert_eq!(
        display(&description),
        Err(DeriveError::ArgumentsOnUnitVariant {
            ty: "E".to_string(),
            variant: Some("Unit".to_string())
        })
    );
    assert!(build_impl(&description).is_err());
}

#[test]
fn enum_variant_with_many_fields_binds_them_all() {
    let description = an_enum(
        "Wide",
        vec![variant("V", vec![annotation("{} {}", &["_11", "_0"])], Shape::Positional(12))],
    );
    let binders: Vec<String> = (0..12).map(|i| format!("ref _{}", i)).collect();
    assert_eq!(
        display(&description).unwrap(),
        format!(
            "{} Wide {} match self {{ & Wide :: V ( {} ) => {{ write ! ( f , \"{{}} {{}}\" , _11 , _0 ) ? ; }} }} {}",
            HEAD,
            FMT,
            binders.join(" , "),
            TAIL
        )
    );
}

#[test]
fn cooked_template_is_escaped() {
    let description =
        a_struct("S", vec![annotation("say \"hi\"\n\t\\ it's \u{e9}\0", &[])], Shape::Unit);
    assert_eq!(
        display(&description).unwrap(),
        format!(
            "{} S {} write ! ( f , \"say \\\"hi\\\"\\n\\t\\\\ it's \\u{{e9}}\\0\" ) ? ; {}",
            HEAD, FMT, TAIL
        )
    );
}

#[test]
fn raw_template_is_written_raw() {
    let description =
        a_struct("S", vec![styled("a \"b\" \\ {}", StrStyle::Raw(2), &["_0"])], Shape::Positional(1));
    assert_eq!(
        display(&description).unwrap(),
        format!(
            "{} S {} write ! ( f , r##\"a \"b\" \\ {{}}\"## , self . 0 ) ? ; {}",
            HEAD, FMT, TAIL
        )
    );
    let plain = a_struct("S", vec![styled("x", StrStyle::Raw(0), &[])], Shape::Unit);
    assert_eq!(
        display(&plain).unwrap(),
        format!("{} S {} write ! ( f , r\"x\" ) ? ; {}", HEAD, FMT, TAIL)
    );
}

#[test]
fn struct_code_is_the_write_statement() {
    let tokens = build_struct_code(
        "Struct",
        "self",
        &vec![annotation("custom {}/{}", &["a", "b"])],
        &Shape::Named(names(&["a", "b"])),
    )
    .unwrap();
    assert_eq!(tokens.as_str(), "write ! ( f , \"custom {}/{}\" , self . a , self . b ) ? ;");
    let with_item = build_struct_code(
        "E",
        "item",
        &vec![annotation("{}", &["_0"])],
        &Shape::Positional(1),
    )
    .unwrap();
    assert_eq!(with_item.as_str(), "write ! ( f , \"{}\" , item . 0 ) ? ;");
    assert_eq!(
        build_struct_code("S", "self", &vec![annotation("{}", &["a"])], &Shape::Unit),
        Err(DeriveError::ArgumentsOnUnitVariant { ty: "S".to_string(), variant: None })
    );
}

#[test]
fn rule_tokens_read_from_the_receiver() {
    let rule = RenderRule {
        template: "{} and {}".to_string(),
        style: StrStyle::Cooked,
        args: vec![
            ResolvedArgument { receiver: "self".to_string(), member: "left".to_string() },
            ResolvedArgument { receiver: "self".to_string(), member: "1".to_string() },
        ],
    };
    assert_eq!(
        rule_tokens(&rule).as_str(),
        "write ! ( f , \"{} and {}\" , self . left , self . 1 ) ? ;"
    );
    assert_eq!(template_tokens(&rule).as_str(), "\"{} and {}\"");
}

#[test]
fn write_call_puts_each_argument_after_a_comma() {
    let mut literal = quote::Tokens::new();
    literal.append("\"{}{}\"");
    let mut first = quote::Tokens::new();
    first.append("a");
    let mut second = quote::Tokens::new();
    second.append("b . c");
    assert_eq!(
        write_call(&literal, &vec![first, second]).as_str(),
        "write ! ( f , \"{}{}\" , a , b . c ) ? ;"
    );
    assert_eq!(write_call(&literal, &vec![]).as_str(), "write ! ( f , \"{}{}\" ) ? ;");
}

#[test]
fn arm_tokens_write_the_bound_names() {
    let rule = RenderRule {
        template: "{}".to_string(),
        style: StrStyle::Cooked,
        args: vec![ResolvedArgument { receiver: "item".to_string(), member: "1".to_string() }],
    };
    assert_eq!(
        arm_tokens("E", "V", &Shape::Positional(2), &rule).as_str(),
        "& E :: V ( ref _0 , ref _1 ) => { write ! ( f , \"{}\" , _1 ) ? ; }"
    );
    let named = RenderRule {
        template: "{}".to_string(),
        style: StrStyle::Cooked,
        args: vec![ResolvedArgument { receiver: "item".to_string(), member: "b".to_string() }],
    };
    assert_eq!(
        arm_tokens("E", "V", &Shape::Named(names(&["a", "b"])), &named).as_str(),
        "& E :: V { ref a , ref b } => { write ! ( f , \"{}\" , b ) ? ; }"
    );
}

#[test]
fn build_impl_and_display_give_the_same_text() {
    let description = a_struct("S", vec![annotation("{}", &["_0"])], Shape::Positional(1));
    assert_eq!(build_impl(&description).unwrap().into_string(), display(&description).unwrap());
}

#[test]
fn empty_names_leave_no_double_space() {
    let code = display(&a_struct("", vec![], Shape::Unit)).unwrap();
    assert_eq!(code, format!("{} {} write ! ( f , \"\" ) ? ; {}", HEAD, FMT, TAIL));
}

#[test]
fn unknown_argument_fails_the_generation() {
    let positional = a_struct("Pair", vec![annotation("{} {}", &["_0", "_2"])], Shape::Positional(2));
    assert_eq!(
        display(&positional),
        Err(DeriveError::UnknownPositionalArgument {
            name: "_2".to_string(),
            ty: "Pair".to_string(),
            variant: None
        })
    );
    let named =
        a_struct("Point", vec![annotation("{} {}", &["x", "z"])], Shape::Named(names(&["x", "y"])));
    assert_eq!(
        display(&named),
        Err(DeriveError::UnknownNamedArgument {
            name: "z".to_string(),
            ty: "Point".to_string(),
            variant: None
        })
    );
    let in_variant = an_enum(
        "E",
        vec![
            variant("A", vec![], Shape::Unit),
            variant("B", vec![annotation("{}", &["y"])], Shape::Named(names(&["x"]))),
        ],
    );
    assert_eq!(
        display(&in_variant),
        Err(DeriveError::UnknownNamedArgument {
            name: "y".to_string(),
            ty: "E".to_string(),
            variant: Some("B".to_string())
        })
    );
}

#[test]
fn argument_on_a_unit_shape_fails_the_generation() {
    let unit = a_struct("UnitStruct", vec![annotation("{}", &["_0"])], Shape::Unit);
    assert_eq!(
        display(&unit),
        Err(DeriveError::ArgumentsOnUnitVariant { ty: "UnitStruct".to_string(), variant: None })
    );
    let unit_variant =
        an_enum("E", vec![variant("Unit", vec![annotation("unit {}", &["a"])], Shape::Unit)]);
    assert_eq!(
        display(&unit_variant),
        Err(DeriveError::ArgumentsOnUnitVariant {
            ty: "E".to_string(),
            variant: Some("Unit".to_string())
        })
    );
}

#[test]
fn malformed_annotation_fails_the_generation() {
    let bare = Annotation { key: "display".to_string(), payload: Payload::Word };
    assert_eq!(
        display(&a_struct("S", vec![bare.clone()], Shape::Unit)),
        Err(DeriveError::MalformedAnnotation)
    );
    assert_eq!(
        display(&an_enum("E", vec![variant("A", vec![bare], Shape::Unit)])),
        Err(DeriveError::MalformedAnnotation)
    );
}
