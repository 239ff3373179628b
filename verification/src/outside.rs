//! Calls into `proc-macro2` and `syn`, which know the Rust language.
//!
//! The crates are used without their link to the compiler, so that what they return depends on
//! the text alone.
use crate::syntax::{
    seen, seen_all, seen_text, AttrForm, Chars, DataSyntax, DeriveSyntax, ExprForm, FieldSyntax,
    MetaSyntax, ModuleAttr, ModuleSyntax, RawToken, StructSyntax, TypePrefix, Variant,
};
use proc_macro2::{Literal, Span, Spacing, TokenStream, TokenTree};
use quote::ToTokens;
use std::str::FromStr;
use syn::parse::Parser;
use syn::{
    parse_str, AttrStyle, Data, DeriveInput, Expr, ExprLit, ExprUnary, Fields, ItemMod, ItemStruct,
    Lit, LitStr, UnOp,
};
use vstd::prelude::*;

verus! {

/// The token trees of a source text, or the lexer's message.
pub uninterp spec fn lexed(text: Chars) -> Result<Seq<RawToken<Chars>>, Chars>;

/// Calls `TokenStream::from_str` and hands out the token trees of the stream, each as plain data:
/// the name of an identifier, the character and the spacing of a punctuation mark, the text of a
/// literal or a group. What they are is named by `lexed`.
#[verifier::external_body]
pub(crate) fn lex(text: &str) -> (r: Result<Vec<RawToken<String>>, String>)
    ensures
        seen_all(r) == lexed(text@),
{
    let stream = TokenStream::from_str(text).map_err(|e| e.to_string())?;
    let trees = stream.into_iter().map(|tree| match tree {
        TokenTree::Ident(i) => RawToken::Ident(i.to_string()),
        TokenTree::Punct(p) => RawToken::Punct(p.as_char().to_string(), p.spacing() == Spacing::Joint),
        TokenTree::Literal(l) => RawToken::Literal(l.to_string()),
        TokenTree::Group(g) => RawToken::Group(g.to_string()),
    });
    Ok(trees.collect())
}

/// The identifier that a word is, or the message that refuses it.
pub uninterp spec fn identifier(word: Chars) -> Result<Chars, Chars>;

/// Calls `syn::parse_str` for an `Ident`, which refuses keywords. The outcome is named by
/// `identifier`.
#[verifier::external_body]
pub(crate) fn parse_identifier(word: &str) -> (r: Result<String, String>)
    ensures
        seen(r) == identifier(word@),
{
    parse_str::<syn::Ident>(word).map(|i| i.to_string()).map_err(|e| e.to_string())
}

/// The value of a string literal, if the text is one.
pub uninterp spec fn string_value(text: Chars) -> Option<Chars>;

/// Calls `syn::parse_str` for a `LitStr` and then `LitStr::value`. The outcome is named by
/// `string_value`.
#[verifier::external_body]
pub(crate) fn parse_string(text: &str) -> (r: Option<String>)
    ensures
        seen_text(r) == string_value(text@),
{
    parse_str::<LitStr>(text).ok().map(|l| l.value())
}

/// The string literal that stands for a text.
pub uninterp spec fn string_literal(text: Chars) -> Chars;

/// Calls `Literal::string` and prints the literal. The outcome is named by `string_literal`; as a
/// literal it has the text as its value.
#[verifier::external_body]
pub(crate) fn write_string(text: &str) -> (r: String)
    ensures
        r@ == string_literal(text@),
        string_value(r@) == Some(text@),
{
    Literal::string(text).to_string()
}

/// The invocation of `compile_error!` that reports a message.
pub open spec fn error_invocation(message: Chars) -> Chars {
    ":: core :: compile_error ! { "@ + string_literal(message) + " }"@
}

/// Calls `syn::Error::into_compile_error` on an error with the message and prints the tokens: the
/// path of the macro, an exclamation mark and, in braces, the message as a string literal, with a
/// space between each two.
#[verifier::external_body]
pub(crate) fn write_error(message: &str) -> (r: String)
    ensures
        r@ == error_invocation(message@),
{
    syn::Error::new(Span::call_site(), message).into_compile_error().to_string()
}

/// The content of an attribute, or the parser's message.
pub uninterp spec fn parsed_meta(text: Chars) -> Result<MetaSyntax<Chars>, Chars>;

/// Calls `syn::parse_str` for a `Meta` and takes its path, the last segment of the path and its
/// form. The outcome is named by `parsed_meta`.
#[verifier::external_body]
pub(crate) fn parse_meta(text: &str) -> (r: Result<MetaSyntax<String>, String>)
    ensures
        seen(r) == parsed_meta(text@),
{
    let meta = parse_str::<syn::Meta>(text).map_err(|e| e.to_string())?;
    Ok(MetaSyntax {
        path: meta.path().to_token_stream().to_string(),
        last: meta.path().segments.last().map(|s| s.ident.to_string()),
        form: match meta {
            syn::Meta::Path(_) => AttrForm::Path,
            syn::Meta::List(list) => AttrForm::List(list.tokens.to_string()),
            syn::Meta::NameValue(_) => AttrForm::NameValue,
        },
    })
}

/// A struct item, or the parser's message.
pub uninterp spec fn parsed_struct(text: Chars) -> Result<StructSyntax<Chars, Seq<Chars>>, Chars>;

/// Calls `syn::parse_str` for an `ItemStruct` and prints its parts. The outcome is named by
/// `parsed_struct`.
#[verifier::external_body]
pub(crate) fn parse_struct(text: &str) -> (r: Result<StructSyntax<String, Vec<String>>, String>)
    ensures
        seen(r) == parsed_struct(text@),
{
    let item = parse_str::<ItemStruct>(text).map_err(|e| e.to_string())?;
    Ok(StructSyntax {
        attrs: item.attrs.iter().map(|a| a.meta.to_token_stream().to_string()).collect(),
        vis: item.vis.to_token_stream().to_string(),
        name: item.ident.to_string(),
        generics: item.generics.to_token_stream().to_string(),
        where_clause: item.generics.where_clause.to_token_stream().to_string(),
        fields: match item.fields {
            Fields::Named(list) => Some(list.named.iter().map(|f| f.to_token_stream().to_string()).collect()),
            _ => None,
        },
    })
}

/// A named field, or the parser's message.
pub uninterp spec fn parsed_field(text: Chars) -> Result<FieldSyntax<Chars, Seq<Chars>>, Chars>;

/// Calls `syn::Field::parse_named` and prints the field's parts. The outcome is named by
/// `parsed_field`.
#[verifier::external_body]
pub(crate) fn parse_field(text: &str) -> (r: Result<FieldSyntax<String, Vec<String>>, String>)
    ensures
        seen(r) == parsed_field(text@),
{
    let field = syn::Field::parse_named.parse_str(text).map_err(|e| e.to_string())?;
    Ok(FieldSyntax {
        attrs: field.attrs.iter().map(|a| a.meta.to_token_stream().to_string()).collect(),
        vis: field.vis.to_token_stream().to_string(),
        name: field.ident.to_token_stream().to_string(),
        ty: field.ty.to_token_stream().to_string(),
    })
}

/// A module item, or the parser's message.
pub uninterp spec fn parsed_module(
    text: Chars,
) -> Result<ModuleSyntax<Chars, Seq<Chars>, Seq<ModuleAttr<Chars>>>, Chars>;

/// Calls `syn::parse_str` for an `ItemMod` and prints its parts. The outcome is named by
/// `parsed_module`.
#[verifier::external_body]
pub(crate) fn parse_module(text: &str) -> (r: Result<
    ModuleSyntax<String, Vec<String>, Vec<ModuleAttr<String>>>,
    String,
>)
    ensures
        seen(r) == parsed_module(text@),
{
    let module = parse_str::<ItemMod>(text).map_err(|e| e.to_string())?;
    Ok(ModuleSyntax {
        attrs: module.attrs.iter().map(|a| ModuleAttr {
            inner: matches!(a.style, AttrStyle::Inner(_)),
            text: a.to_token_stream().to_string(),
        }).collect(),
        vis: module.vis.to_token_stream().to_string(),
        unsafety: module.unsafety.to_token_stream().to_string(),
        name: module.ident.to_string(),
        items: module.content.map(|c| c.1.iter().map(|i| i.to_token_stream().to_string()).collect()),
    })
}

/// An item under a derive, or the parser's message.
pub uninterp spec fn parsed_derive(text: Chars) -> Result<DeriveSyntax<Chars, Seq<Chars>>, Chars>;

/// Calls `syn::parse_str` for a `DeriveInput` and prints its parts. The outcome is named by
/// `parsed_derive`.
#[verifier::external_body]
pub(crate) fn parse_derive(text: &str) -> (r: Result<DeriveSyntax<String, Vec<String>>, String>)
    ensures
        seen(r) == parsed_derive(text@),
{
    let input = parse_str::<DeriveInput>(text).map_err(|e| e.to_string())?;
    Ok(DeriveSyntax {
        attrs: input.attrs.iter().map(|a| a.meta.to_token_stream().to_string()).collect(),
        name: input.ident.to_string(),
        data: match input.data {
            Data::Struct(s) => DataSyntax::Struct(match s.fields {
                Fields::Unnamed(l) => Some(l.unnamed.iter().map(|f| f.ty.to_token_stream().to_string()).collect()),
                _ => None,
            }),
            Data::Enum(e) => DataSyntax::Enum(e.variants.iter().map(|v| v.to_token_stream().to_string()).collect()),
            Data::Union(_) => DataSyntax::Union,
        },
    })
}

/// A variant of an enum, or the parser's message.
pub uninterp spec fn parsed_variant(text: Chars) -> Result<Variant<Chars, Chars>, Chars>;

/// Calls `syn::parse_str` for a `Variant` and prints its parts. The outcome is named by
/// `parsed_variant`.
#[verifier::external_body]
pub(crate) fn parse_variant(text: &str) -> (r: Result<Variant<String, String>, String>)
    ensures
        seen(r) == parsed_variant(text@),
{
    let variant = parse_str::<syn::Variant>(text).map_err(|e| e.to_string())?;
    Ok(Variant {
        name: variant.ident.to_string(),
        unit: matches!(variant.fields, Fields::Unit),
        discriminant: variant.discriminant.map(|d| d.1.to_token_stream().to_string()),
    })
}

/// What an expression is as a discriminant, or the parser's message.
pub uninterp spec fn parsed_expr(text: Chars) -> Result<ExprForm<Chars>, Chars>;

/// Calls `syn::parse_str` for an `Expr` and, on an integer literal, `LitInt::base10_parse`. The
/// outcome is named by `parsed_expr`; the value of a literal is never negative, because the
/// parser keeps a minus sign apart from the literal behind it.
#[verifier::external_body]
pub(crate) fn parse_expr(text: &str) -> (r: Result<ExprForm<String>, String>)
    ensures
        seen(r) == parsed_expr(text@),
        r matches Ok(ExprForm::Negated(Ok(value))) ==> value >= 0,
{
    Ok(match parse_str::<Expr>(text).map_err(|e| e.to_string())? {
        Expr::Lit(ExprLit { lit: Lit::Int(n), .. }) => {
            ExprForm::Int(n.base10_parse::<i64>().map_err(|e| e.to_string()))
        },
        Expr::Unary(ExprUnary { op: UnOp::Neg(_), expr, .. }) => match *expr {
            Expr::Lit(ExprLit { lit: Lit::Int(n), .. }) => {
                ExprForm::Negated(n.base10_parse::<i64>().map_err(|e| e.to_string()))
            },
            _ => ExprForm::NegatedOther,
        },
        _ => ExprForm::Other,
    })
}

/// The type at the front of a source text, or the parser's message.
pub uninterp spec fn type_prefix(text: Chars) -> Result<TypePrefix<Chars>, Chars>;

/// Parses a `syn::Type` off the front of the text and counts the token trees behind it. The
/// outcome is named by `type_prefix`.
#[verifier::external_body]
pub(crate) fn parse_type_prefix(text: &str) -> (r: Result<TypePrefix<String>, String>)
    ensures
        seen(r) == type_prefix(text@),
{
    let parser = |input: syn::parse::ParseStream| {
        Ok((input.parse::<syn::Type>()?, input.parse::<TokenStream>()?))
    };
    let (ty, rest) = parser.parse_str(text).map_err(|e| e.to_string())?;
    Ok(TypePrefix { ty: ty.to_token_stream().to_string(), left: rest.into_iter().count() })
}

} // verus!
