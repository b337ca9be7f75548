//! The boundary to the host's parser and printer.
//!
//! Parsing a declaration and printing its parts is the work of `syn`,
//! `quote` and `proc_macro2`. Nothing in this file is proved: each function
//! makes one such call and hands the result on, and its contract gives the
//! result a name. The rest of the crate is verified against these names.

use crate::model::{
    FieldSpec, FieldStyle, FieldView, MalformedDeclaration, MalformedView, Scope, ScopeView,
};
use crate::token::{Token, TokenView};
use vstd::prelude::*;

verus! {

// The parser's types that pass through the classifier. Nothing is known of
// what a value of them holds but through the functions further down.
#[verifier::external_type_specification]
#[verifier::external_body]
pub struct ExItemFn(syn::ItemFn);

#[verifier::external_type_specification]
#[verifier::external_body]
pub struct ExItemStruct(syn::ItemStruct);

#[verifier::external_type_specification]
#[verifier::external_body]
pub struct ExItemEnum(syn::ItemEnum);

#[verifier::external_type_specification]
#[verifier::external_body]
pub struct ExItemTrait(syn::ItemTrait);

#[verifier::external_type_specification]
#[verifier::external_body]
pub struct ExItemImpl(syn::ItemImpl);

#[verifier::external_type_specification]
#[verifier::external_body]
pub struct ExFields(syn::Fields);

#[verifier::external_type_specification]
#[verifier::external_body]
pub struct ExTokenStream(proc_macro2::TokenStream);

/// A parsed declaration, told apart by the kind of item that the parser found.
pub enum Syntax {
    Routine(syn::ItemFn),
    Record(syn::ItemStruct),
    Union(syn::ItemEnum),
    Contract(syn::ItemTrait),
    Implementation(syn::ItemImpl),
    /// Any other item.
    Other,
}

/// A member of a contract or of an implementation as the parser found it.
pub struct MemberSyntax {
    /// Whether the member is an operation.
    pub operation: bool,
    /// The member's tokens.
    pub stream: proc_macro2::TokenStream,
}

/// A variant of a tagged union as the parser found it.
pub struct VariantSyntax {
    pub name: String,
    pub fields: syn::Fields,
}

pub struct VariantSyntaxView {
    pub name: Seq<char>,
    pub fields: syn::Fields,
}

impl DeepView for VariantSyntax {
    type V = VariantSyntaxView;

    open spec fn deep_view(&self) -> VariantSyntaxView {
        VariantSyntaxView { name: self.name@, fields: self.fields }
    }
}

/// One piece of metadata attached to a declaration.
pub struct Metadata {
    /// Whether it is written inside the braces of the declaration it belongs to.
    pub inner: bool,
    pub text: String,
}

pub struct MetadataView {
    pub inner: bool,
    pub text: Seq<char>,
}

impl DeepView for Metadata {
    type V = MetadataView;

    open spec fn deep_view(&self) -> MetadataView {
        MetadataView { inner: self.inner, text: self.text@ }
    }
}

/// What parsing `text` as a single item gives.
pub uninterp spec fn parsed(text: Seq<char>) -> Result<Syntax, MalformedView>;

/// The tokens that printing a routine gives.
pub uninterp spec fn routine_tokens(item: syn::ItemFn) -> proc_macro2::TokenStream;

/// The tokens that printing a contract gives.
pub uninterp spec fn contract_tokens(item: syn::ItemTrait) -> proc_macro2::TokenStream;

/// The tokens that printing an implementation gives.
pub uninterp spec fn implementation_tokens(item: syn::ItemImpl) -> proc_macro2::TokenStream;

/// The outermost tokens of a stream, in order.
pub uninterp spec fn stream_tokens(stream: proc_macro2::TokenStream) -> Seq<TokenView>;

/// The members of a contract, in order.
pub uninterp spec fn contract_member_list(item: syn::ItemTrait) -> Seq<MemberSyntax>;

/// The members of an implementation, in order.
pub uninterp spec fn implementation_member_list(item: syn::ItemImpl) -> Seq<MemberSyntax>;

/// The metadata of a contract, in order.
pub uninterp spec fn contract_metadata(item: syn::ItemTrait) -> Seq<MetadataView>;

/// The metadata of an implementation, in order.
pub uninterp spec fn implementation_metadata(item: syn::ItemImpl) -> Seq<MetadataView>;

/// Whether an implementation names a contract that it implements.
pub uninterp spec fn implementation_bound(item: syn::ItemImpl) -> bool;

/// The name and the generic parameters of a record.
pub uninterp spec fn record_scope_of(item: syn::ItemStruct) -> ScopeView;

/// The name and the generic parameters of a tagged union.
pub uninterp spec fn union_scope_of(item: syn::ItemEnum) -> ScopeView;

/// The field list of a record.
pub uninterp spec fn record_field_list(item: syn::ItemStruct) -> syn::Fields;

/// The variants of a tagged union, in order.
pub uninterp spec fn union_variant_list(item: syn::ItemEnum) -> Seq<VariantSyntaxView>;

/// How a field list is written.
pub uninterp spec fn field_list_style(fields: syn::Fields) -> FieldStyle;

/// The fields of a field list, in order.
pub uninterp spec fn field_list_specs(fields: syn::Fields) -> Seq<FieldView>;

/// Calls `syn::parse_str` for an `Item`. The contract names the result
/// [`parsed`]: which kind of item was found, with the item itself, or the
/// parser's message (`Error::to_string`) and the line and column at which
/// the span that it reports starts (`Error::span`, `Span::start`). To name
/// the result is to say that parsing a text twice finds the same item; the
/// positions that the parser records inside an item play no part in what this
/// crate reads from it.
#[verifier::external_body]
pub(crate) fn parse_declaration(text: &str) -> (r: Result<Syntax, MalformedDeclaration>)
    ensures
        match r {
            Ok(syntax) => parsed(text@) == Ok::<Syntax, MalformedView>(syntax),
            Err(error) => parsed(text@) == Err::<Syntax, MalformedView>(error.deep_view()),
        },
{
    match syn::parse_str::<syn::Item>(text) {
        Ok(syn::Item::Fn(item)) => Ok(Syntax::Routine(item)),
        Ok(syn::Item::Struct(item)) => Ok(Syntax::Record(item)),
        Ok(syn::Item::Enum(item)) => Ok(Syntax::Union(item)),
        Ok(syn::Item::Trait(item)) => Ok(Syntax::Contract(item)),
        Ok(syn::Item::Impl(item)) => Ok(Syntax::Implementation(item)),
        Ok(_) => Ok(Syntax::Other),
        Err(error) => Err(MalformedDeclaration {
            message: error.to_string(),
            line: error.span().start().line,
            column: error.span().start().column,
        }),
    }
}

/// Calls `ToTokens::to_token_stream` on a routine; the result is named
/// [`routine_tokens`].
#[verifier::external_body]
pub(crate) fn routine_stream(item: &syn::ItemFn) -> (r: proc_macro2::TokenStream)
    ensures
        r == routine_tokens(*item),
{
    quote::ToTokens::to_token_stream(item)
}

/// Calls `ToTokens::to_token_stream` on a contract; the result is named
/// [`contract_tokens`].
#[verifier::external_body]
pub(crate) fn contract_stream(item: &syn::ItemTrait) -> (r: proc_macro2::TokenStream)
    ensures
        r == contract_tokens(*item),
{
    quote::ToTokens::to_token_stream(item)
}

/// Calls `ToTokens::to_token_stream` on an implementation; the result is
/// named [`implementation_tokens`].
#[verifier::external_body]
pub(crate) fn implementation_stream(item: &syn::ItemImpl) -> (r: proc_macro2::TokenStream)
    ensures
        r == implementation_tokens(*item),
{
    quote::ToTokens::to_token_stream(item)
}

/// Walks a `proc_macro2::TokenStream` with `into_iter` and hands out each
/// token tree as its text (`to_string`), marked as glued where it is a
/// punctuation character whose `spacing` is `Joint`. The result is named
/// [`stream_tokens`].
#[verifier::external_body]
pub(crate) fn token_list(stream: proc_macro2::TokenStream) -> (r: Vec<Token>)
    ensures
        r.deep_view() == stream_tokens(stream),
{
    stream.into_iter().map(|tree| Token {
        glued: match &tree {
            proc_macro2::TokenTree::Punct(p) => matches!(p.spacing(), proc_macro2::Spacing::Joint),
            _ => false,
        },
        text: tree.to_string(),
    }).collect()
}

/// Hands out the `items` of a `syn::ItemTrait`, each with its tokens and
/// with whether it is a `TraitItem::Fn`. The result is named
/// [`contract_member_list`].
#[verifier::external_body]
pub(crate) fn contract_members(item: &syn::ItemTrait) -> (r: Vec<MemberSyntax>)
    ensures
        r@ == contract_member_list(*item),
{
    item.items.iter().map(|member| MemberSyntax {
        operation: matches!(member, syn::TraitItem::Fn(_)),
        stream: quote::ToTokens::to_token_stream(member),
    }).collect()
}

/// Hands out the `items` of a `syn::ItemImpl`, each with its tokens and with
/// whether it is an `ImplItem::Fn`. The result is named
/// [`implementation_member_list`].
#[verifier::external_body]
pub(crate) fn implementation_members(item: &syn::ItemImpl) -> (r: Vec<MemberSyntax>)
    ensures
        r@ == implementation_member_list(*item),
{
    item.items.iter().map(|member| MemberSyntax {
        operation: matches!(member, syn::ImplItem::Fn(_)),
        stream: quote::ToTokens::to_token_stream(member),
    }).collect()
}

/// Hands out the `attrs` of a `syn::ItemTrait`, each as its printed text and
/// with whether its style is `AttrStyle::Inner`. The result is named
/// [`contract_metadata`].
#[verifier::external_body]
pub(crate) fn contract_attributes(item: &syn::ItemTrait) -> (r: Vec<Metadata>)
    ensures
        r.deep_view() == contract_metadata(*item),
{
    item.attrs.iter().map(|attribute| Metadata {
        inner: matches!(attribute.style, syn::AttrStyle::Inner(_)),
        text: quote::ToTokens::to_token_stream(attribute).to_string(),
    }).collect()
}

/// Hands out the `attrs` of a `syn::ItemImpl`, each as its printed text and
/// with whether its style is `AttrStyle::Inner`. The result is named
/// [`implementation_metadata`].
#[verifier::external_body]
pub(crate) fn implementation_attributes(item: &syn::ItemImpl) -> (r: Vec<Metadata>)
    ensures
        r.deep_view() == implementation_metadata(*item),
{
    item.attrs.iter().map(|attribute| Metadata {
        inner: matches!(attribute.style, syn::AttrStyle::Inner(_)),
        text: quote::ToTokens::to_token_stream(attribute).to_string(),
    }).collect()
}

/// Tells whether the field `trait_` of a `syn::ItemImpl` is set. The result
/// is named [`implementation_bound`].
#[verifier::external_body]
pub(crate) fn implementation_is_bound(item: &syn::ItemImpl) -> (r: bool)
    ensures
        r == implementation_bound(*item),
{
    item.trait_.is_some()
}

/// Prints the identifier of a `syn::ItemStruct` and the three parts that
/// `Generics::split_for_impl` gives for its generics. The result is named
/// [`record_scope_of`].
#[verifier::external_body]
pub(crate) fn record_scope(item: &syn::ItemStruct) -> (r: Scope)
    ensures
        r.deep_view() == record_scope_of(*item),
{
    let (for_impl, for_type, clause) = item.generics.split_for_impl();
    Scope {
        name: item.ident.to_string(),
        impl_generics: quote::ToTokens::to_token_stream(&for_impl).to_string(),
        type_generics: quote::ToTokens::to_token_stream(&for_type).to_string(),
        where_clause: quote::ToTokens::to_token_stream(&clause).to_string(),
    }
}

/// Prints the identifier of a `syn::ItemEnum` and the three parts that
/// `Generics::split_for_impl` gives for its generics. The result is named
/// [`union_scope_of`].
#[verifier::external_body]
pub(crate) fn union_scope(item: &syn::ItemEnum) -> (r: Scope)
    ensures
        r.deep_view() == union_scope_of(*item),
{
    let (for_impl, for_type, clause) = item.generics.split_for_impl();
    Scope {
        name: item.ident.to_string(),
        impl_generics: quote::ToTokens::to_token_stream(&for_impl).to_string(),
        type_generics: quote::ToTokens::to_token_stream(&for_type).to_string(),
        where_clause: quote::ToTokens::to_token_stream(&clause).to_string(),
    }
}

/// Hands out the field `fields` of a `syn::ItemStruct`, named
/// [`record_field_list`].
#[verifier::external_body]
pub(crate) fn record_fields(item: &syn::ItemStruct) -> (r: &syn::Fields)
    ensures
        *r == record_field_list(*item),
{
    &item.fields
}

/// Hands out the `variants` of a `syn::ItemEnum`, each with its identifier
/// as text and its field list. The result is named [`union_variant_list`].
#[verifier::external_body]
pub(crate) fn union_variants(item: &syn::ItemEnum) -> (r: Vec<VariantSyntax>)
    ensures
        r.deep_view() == union_variant_list(*item),
{
    item.variants.iter().map(|variant| VariantSyntax {
        name: variant.ident.to_string(),
        fields: variant.fields.clone(),
    }).collect()
}

/// Tells the three variants of `syn::Fields` apart. The result is named
/// [`field_list_style`].
#[verifier::external_body]
pub(crate) fn field_style(fields: &syn::Fields) -> (r: FieldStyle)
    ensures
        r == field_list_style(*fields),
{
    match fields {
        syn::Fields::Named(_) => FieldStyle::Named,
        syn::Fields::Unnamed(_) => FieldStyle::Positional,
        syn::Fields::Unit => FieldStyle::Unit,
    }
}

/// Walks a `syn::Fields` with `iter` and hands out each field as its
/// identifier, where it has one, and its printed type. The result is named
/// [`field_list_specs`].
#[verifier::external_body]
pub(crate) fn field_specs(fields: &syn::Fields) -> (r: Vec<FieldSpec>)
    ensures
        r.deep_view() == field_list_specs(*fields),
{
    fields.iter().map(|field| FieldSpec {
        name: field.ident.as_ref().map(|name| name.to_string()),
        ty: quote::ToTokens::to_token_stream(&field.ty).to_string(),
    }).collect()
}

} // verus!
