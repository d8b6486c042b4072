//! Resolving the arguments of a `display` annotation against the fields of
//! the shape that it decorates.

use crate::annotation::FormatSpec;
use crate::description::{result_view, same_text, Shape, ShapeView};
use crate::error::{DeriveError, DeriveErrorView};
use vstd::prelude::*;
use vstd::string::StringExecFns;

verus! {

/// An argument of a template: the field `member` of the value `receiver`.
#[derive(Clone, Debug, PartialEq, Eq)]
pub struct ResolvedArgument {
    pub receiver: String,
    pub member: String,
}

/// The view of a [`ResolvedArgument`].
pub struct ResolvedArgumentView {
    pub receiver: Seq<char>,
    pub member: Seq<char>,
}

impl View for ResolvedArgument {
    type V = ResolvedArgumentView;

    open spec fn view(&self) -> ResolvedArgumentView {
        ResolvedArgumentView { receiver: self.receiver@, member: self.member@ }
    }
}

impl DeepView for ResolvedArgument {
    type V = ResolvedArgumentView;

    open spec fn deep_view(&self) -> ResolvedArgumentView {
        self@
    }
}

/// The decimal digit for a number below ten.
pub open spec fn digit(d: nat) -> char
    recommends
        d < 10,
{
    if d == 0 {
        '0'
    } else if d == 1 {
        '1'
    } else if d == 2 {
        '2'
    } else if d == 3 {
        '3'
    } else if d == 4 {
        '4'
    } else if d == 5 {
        '5'
    } else if d == 6 {
        '6'
    } else if d == 7 {
        '7'
    } else if d == 8 {
        '8'
    } else {
        '9'
    }
}

/// A number in decimal, without leading zeros.
pub open spec fn decimal(n: nat) -> Seq<char>
    decreases n,
{
    if n < 10 {
        seq![digit(n)]
    } else {
        decimal(n / 10).push(digit(n % 10))
    }
}

/// The name by which an annotation refers to the unnamed field at `index`:
/// an underscore followed by the index.
pub open spec fn positional_name(index: nat) -> Seq<char> {
    seq!['_'] + decimal(index)
}

/// The names by which an annotation refers to `count` unnamed fields.
pub open spec fn positional_names(count: nat) -> Seq<Seq<char>> {
    Seq::new(count, |i: int| positional_name(i as nat))
}

/// The names by which an annotation may refer to the fields of a shape.
pub open spec fn field_names(shape: ShapeView) -> Seq<Seq<char>> {
    match shape {
        ShapeView::Unit => Seq::empty(),
        ShapeView::Positional(count) => positional_names(count),
        ShapeView::Named(fields) => fields,
    }
}

/// Whether `name` refers to a field of the shape.
pub open spec fn is_field(shape: ShapeView, name: Seq<char>) -> bool {
    field_names(shape).contains(name)
}

/// What a field is called in an access: the index of an unnamed field, the
/// name of a named one.
pub open spec fn member_text(shape: ShapeView, name: Seq<char>) -> Seq<char> {
    match shape {
        ShapeView::Positional(_) => name.skip(1),
        _ => name,
    }
}

/// The first of `args` that refers to no field of the shape.
pub open spec fn first_unknown(shape: ShapeView, args: Seq<Seq<char>>) -> Option<Seq<char>>
    decreases args.len(),
{
    if args.len() == 0 {
        None
    } else if !is_field(shape, args.first()) {
        Some(args.first())
    } else {
        first_unknown(shape, args.drop_first())
    }
}

/// The failure for an argument that refers to no field of the shape.
pub open spec fn unknown_argument(
    shape: ShapeView,
    ty: Seq<char>,
    variant: Option<Seq<char>>,
    name: Seq<char>,
) -> DeriveErrorView {
    match shape {
        ShapeView::Positional(_) => DeriveErrorView::UnknownPositionalArgument {
            name,
            ty,
            variant,
        },
        _ => DeriveErrorView::UnknownNamedArgument { name, ty, variant },
    }
}

/// The accesses that the arguments of an annotation stand for, in the order
/// of the arguments; or the failure for the first argument that stands for
/// none.
pub open spec fn resolve_spec(
    args: Seq<Seq<char>>,
    shape: ShapeView,
    receiver: Seq<char>,
    ty: Seq<char>,
    variant: Option<Seq<char>>,
) -> Result<Seq<ResolvedArgumentView>, DeriveErrorView> {
    if shape is Unit && args.len() > 0 {
        Err(DeriveErrorView::ArgumentsOnUnitVariant { ty, variant })
    } else {
        match first_unknown(shape, args) {
            Some(name) => Err(unknown_argument(shape, ty, variant, name)),
            None => Ok(
                Seq::new(
                    args.len(),
                    |i: int| ResolvedArgumentView { receiver, member: member_text(shape, args[i]) },
                ),
            ),
        }
    }
}

/// The decimal digit for a number below ten, as a string.
fn digit_str(d: usize) -> (text: &'static str)
    requires
        d < 10,
    ensures
        text@ == seq![digit(d as nat)],
{
    proof {
        reveal_strlit("0");
        reveal_strlit("1");
        reveal_strlit("2");
        reveal_strlit("3");
        reveal_strlit("4");
        reveal_strlit("5");
        reveal_strlit("6");
        reveal_strlit("7");
        reveal_strlit("8");
        reveal_strlit("9");
    }
    let text = if d == 0 {
        "0"
    } else if d == 1 {
        "1"
    } else if d == 2 {
        "2"
    } else if d == 3 {
        "3"
    } else if d == 4 {
        "4"
    } else if d == 5 {
        "5"
    } else if d == 6 {
        "6"
    } else if d == 7 {
        "7"
    } else if d == 8 {
        "8"
    } else {
        "9"
    };
    assert(text@ =~= seq![digit(d as nat)]);
    text
}

/// Appends a number in decimal to `text`.
fn append_decimal(text: &mut String, n: usize)
    ensures
        final(text)@ == old(text)@ + decimal(n as nat),
    decreases n,
{
    if n >= 10 {
        append_decimal(text, n / 10);
    }
    text.append(digit_str(n % 10));
}

/// The name by which an annotation refers to the unnamed field at `index`.
pub fn positional_name_of(index: usize) -> (name: String)
    ensures
        name@ == positional_name(index as nat),
{
    proof {
        reveal_strlit("_");
    }
    let mut name = String::from_str("_");
    append_decimal(&mut name, index);
    name
}

/// The names by which an annotation may refer to the fields of a shape, in
/// declaration order.
pub fn field_names_of(shape: &Shape) -> (names: Vec<String>)
    ensures
        names.deep_view() == field_names(shape@),
{
    match shape {
        Shape::Unit => {
            let names: Vec<String> = Vec::new();
            assert(names.deep_view() =~= field_names(shape@));
            names
        },
        Shape::Positional(count) => {
            let mut names: Vec<String> = Vec::new();
            let mut i: usize = 0;
            while i < *count
                invariant
                    i <= *count,
                    names.len() == i,
                    forall|k: int|
                        0 <= k < i ==> (#[trigger] names[k])@ == positional_name(k as nat),
                decreases *count - i,
            {
                names.push(positional_name_of(i));
                i += 1;
            }
            assert(names.deep_view() =~= field_names(shape@));
            names
        },
        Shape::Named(fields) => {
            let names = fields.clone();
            assert(names.deep_view() =~= field_names(shape@));
            names
        },
    }
}

/// The place of the first of `names` that is `name`.
fn position_of(names: &Vec<String>, name: &str) -> (place: Option<usize>)
    ensures
        match place {
            Some(index) => index < names.len() && names.deep_view()[index as int] == name@,
            None => !names.deep_view().contains(name@),
        },
{
    let mut i: usize = 0;
    while i < names.len()
        invariant
            i <= names.len(),
            forall|k: int| 0 <= k < i ==> names.deep_view()[k] != name@,
        decreases names.len() - i,
    {
        if same_text(names[i].as_str(), name) {
            return Some(i);
        }
        i += 1;
    }
    None
}

/// Resolves the arguments of `spec` against the fields of `shape`.
///
/// On success the accesses come in the order of the arguments, one for
/// each. Arguments for a shape without fields are refused, and so is the
/// first argument that names no field of the shape.
pub fn resolve(
    spec: &FormatSpec,
    shape: &Shape,
    receiver: &str,
    ty: &str,
    variant: Option<&str>,
) -> (result: Result<Vec<ResolvedArgument>, DeriveError>)
    ensures
        result_view(result) == resolve_spec(
            spec@.args,
            shape@,
            receiver@,
            ty@,
            variant.deep_view(),
        ),
{
    let variant_name = match variant {
        Some(variant) => Some(String::from_str(variant)),
        None => None,
    };
    if let Shape::Unit = shape {
        if spec.args.len() > 0 {
            return Err(
                DeriveError::ArgumentsOnUnitVariant { ty: String::from_str(ty), variant: variant_name },
            );
        }
    }
    let names = field_names_of(shape);
    let positional = match shape {
        Shape::Positional(_) => true,
        _ => false,
    };
    let mut resolved: Vec<ResolvedArgument> = Vec::new();
    let mut i: usize = 0;
    assert(spec@.args.skip(0) =~= spec@.args);
    while i < spec.args.len()
        invariant
            i <= spec.args.len(),
            variant_name.deep_view() == variant.deep_view(),
            !(shape@ is Unit && spec@.args.len() > 0),
            names.deep_view() == field_names(shape@),
            positional == (shape@ is Positional),
            first_unknown(shape@, spec@.args) == first_unknown(shape@, spec@.args.skip(i as int)),
            resolved.len() == i,
            forall|k: int|
                0 <= k < i ==> (#[trigger] resolved[k])@ == (ResolvedArgumentView {
                    receiver: receiver@,
                    member: member_text(shape@, spec@.args[k]),
                }),
        decreases spec.args.len() - i,
    {
        let ghost rest = spec@.args.skip(i as int);
        assert(rest.first() == spec.args[i as int]@);
        assert(rest.drop_first() == spec@.args.skip(i + 1));
        let arg = &spec.args[i];
        let index = match position_of(&names, arg.as_str()) {
            Some(index) => index,
            None => {
                let name = arg.clone();
                let ty = String::from_str(ty);
                return Err(
                    if positional {
                        DeriveError::UnknownPositionalArgument { name, ty, variant: variant_name }
                    } else {
                        DeriveError::UnknownNamedArgument { name, ty, variant: variant_name }
                    },
                );
            },
        };
        let member = if positional {
            let mut member = String::new();
            append_decimal(&mut member, index);
            assert(member@ =~= arg@.skip(1));
            member
        } else {
            arg.clone()
        };
        resolved.push(ResolvedArgument { receiver: String::from_str(receiver), member });
        i += 1;
    }
    assert(resolved.deep_view() =~= resolve_spec(
        spec@.args,
        shape@,
        receiver@,
        ty@,
        variant.deep_view(),
    )->Ok_0);
    Ok(resolved)
}

} // verus!
