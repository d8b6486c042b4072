//! The token buffer that generated code is written to.
//!
//! Code is assembled in a `quote::Tokens`. The buffer is opaque to the
//! verifier: what it holds is named by [`tokens_text`], and the items below
//! say how each operation on it changes that text. None of them is proved;
//! each states what the source of `quote` and `syn` shows.

use crate::description::StrStyle;
use vstd::prelude::*;

verus! {

/// `quote::Tokens`, a growable buffer of source text.
#[verifier::external_type_specification]
#[verifier::external_body]
pub struct ExTokens(quote::Tokens);

/// The text held by a token buffer.
pub uninterp spec fn tokens_text(tokens: quote::Tokens) -> Seq<char>;

/// The text that `quote` writes for a cooked (escaped) string literal with
/// the given contents: the contents between double quotes, with the
/// characters that need it escaped.
pub uninterp spec fn cooked_literal_text(value: Seq<char>) -> Seq<char>;

/// `a` followed by `b`, with a single space between them where neither is
/// empty.
pub open spec fn spaced(a: Seq<char>, b: Seq<char>) -> Seq<char> {
    if a.len() > 0 && b.len() > 0 {
        a + seq![' '] + b
    } else {
        a + b
    }
}

/// `n` copies of `#`.
pub open spec fn hashes(n: nat) -> Seq<char> {
    Seq::new(n, |i: int| '#')
}

/// The source text of a raw string literal: `r`, `n` times `#`, the contents
/// between double quotes, and `n` times `#` again.
pub open spec fn raw_literal_text(value: Seq<char>, n: nat) -> Seq<char> {
    seq!['r'] + hashes(n) + seq!['"'] + value + seq!['"'] + hashes(n)
}

/// The source text of a string literal with the given contents and style.
pub open spec fn str_literal_text(value: Seq<char>, style: StrStyle) -> Seq<char> {
    match style {
        StrStyle::Cooked => cooked_literal_text(value),
        StrStyle::Raw(n) => raw_literal_text(value, n as nat),
    }
}

/// `quote::Tokens::new` returns a buffer that holds no text.
pub assume_specification[ quote::Tokens::new ]() -> (tokens: quote::Tokens)
    ensures
        tokens_text(tokens) == Seq::<char>::empty(),
;

/// `quote::Tokens::into_string` hands out the text that the buffer holds.
pub assume_specification[ quote::Tokens::into_string ](tokens: quote::Tokens) -> (text: String)
    ensures
        text@ == tokens_text(tokens),
;

/// `quote::Tokens::append` adds `token` at the end of the buffer, after a
/// space unless the buffer or the token is empty.
#[verifier::external_body]
pub(crate) fn append(tokens: &mut quote::Tokens, token: &str)
    ensures
        tokens_text(*final(tokens)) == spaced(tokens_text(*old(tokens)), token@),
{
    tokens.append(token);
}

/// `<syn::Ident as quote::ToTokens>::to_tokens` appends the identifier's
/// name as one token.
#[verifier::external_body]
pub(crate) fn append_ident(tokens: &mut quote::Tokens, name: &str)
    ensures
        tokens_text(*final(tokens)) == spaced(tokens_text(*old(tokens)), name@),
{
    quote::ToTokens::to_tokens(&syn::Ident::new(name), tokens);
}

/// `<syn::Lit as quote::ToTokens>::to_tokens`, on a string literal, appends
/// the literal's source text as one token: for a raw literal `r`, the `#`s,
/// the contents between double quotes and the `#`s again; for a cooked
/// literal what `quote` writes for a `str`.
#[verifier::external_body]
pub(crate) fn append_str_literal(tokens: &mut quote::Tokens, value: &str, style: StrStyle)
    ensures
        style is Cooked ==> tokens_text(*final(tokens)) == spaced(
            tokens_text(*old(tokens)),
            cooked_literal_text(value@),
        ),
        style matches StrStyle::Raw(n) ==> tokens_text(*final(tokens)) == spaced(
            tokens_text(*old(tokens)),
            raw_literal_text(value@, n as nat),
        ),
{
    let style = match style {
        StrStyle::Cooked => syn::StrStyle::Cooked,
        StrStyle::Raw(n) => syn::StrStyle::Raw(n),
    };
    quote::ToTokens::to_tokens(&syn::Lit::Str(value.to_string(), style), tokens);
}

/// `<quote::Tokens as quote::ToTokens>::to_tokens` appends the whole text of
/// `part` as one token.
#[verifier::external_body]
pub(crate) fn append_tokens(tokens: &mut quote::Tokens, part: &quote::Tokens)
    ensures
        tokens_text(*final(tokens)) == spaced(tokens_text(*old(tokens)), tokens_text(*part)),
{
    quote::ToTokens::to_tokens(part, tokens);
}

/// `spaced` is associative.
pub proof fn lemma_spaced_assoc(a: Seq<char>, b: Seq<char>, c: Seq<char>)
    ensures
        spaced(spaced(a, b), c) == spaced(a, spaced(b, c)),
{
    assert(spaced(spaced(a, b), c) =~= spaced(a, spaced(b, c)));
}

/// The empty text is a unit of `spaced` on both sides.
pub proof fn lemma_spaced_empty(a: Seq<char>)
    ensures
        spaced(Seq::<char>::empty(), a) == a,
        spaced(a, Seq::<char>::empty()) == a,
{
    assert(spaced(Seq::<char>::empty(), a) =~= a);
    assert(spaced(a, Seq::<char>::empty()) =~= a);
}

} // verus!
