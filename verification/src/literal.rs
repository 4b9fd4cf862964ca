//! String-level operations borrowed from `std` and `syn`.
//!
//! Each function here is a thin call into outside code. Its contract is
//! trusted, not proved; the rest of the crate is verified against it.
use vstd::prelude::*;

verus! {

/// The value denoted by `tokens` when they form exactly one Rust string
/// literal expression, and `None` for any other token text.
pub uninterp spec fn string_literal_value(tokens: Seq<char>) -> Option<Seq<char>>;

/// The upper-cased form of `text`.
pub uninterp spec fn uppercase(text: Seq<char>) -> Seq<char>;

/// Parses `tokens` with `syn::parse_str::<syn::Expr>` and, when the result is
/// a string literal expression, unescapes it with `syn::LitStr::value`.
///
/// Trusted: the result depends on the token text alone. Nothing is claimed
/// about which texts are literals or what they denote.
#[verifier::external_body]
pub(crate) fn parse_string_literal(tokens: &str) -> (value: Option<String>)
    ensures
        value.is_some() == string_literal_value(tokens@).is_some(),
        value.is_some() ==> value.unwrap()@ == string_literal_value(tokens@).unwrap(),
{
    match syn::parse_str::<syn::Expr>(tokens) {
        Ok(syn::Expr::Lit(syn::ExprLit { lit: syn::Lit::Str(text), .. })) => Some(text.value()),
        _ => None,
    }
}

/// Calls `str::to_uppercase`.
///
/// Trusted: the result depends on the input text alone.
#[verifier::external_body]
pub(crate) fn to_uppercase(text: &str) -> (upper: String)
    ensures
        upper@ == uppercase(text@),
{
    text.to_uppercase()
}

/// Calls `String::push`, which appends one character to the end of `text`.
#[verifier::external_body]
pub(crate) fn push_char(text: &mut String, c: char)
    ensures
        final(text)@ == old(text)@.push(c),
{
    text.push(c);
}

} // verus!
