//! The parsed Rust syntax the attribute readers are handed, declared so verified code can carry it,
//! and the calls that read plain values out of it.

use syn::parse::Parser;
use syn::spanned::Spanned;
use vstd::prelude::*;

verus! {

#[verifier::external_type_specification]
#[verifier::external_body]
pub struct ExTokenStream(proc_macro2::TokenStream);

#[verifier::external_type_specification]
#[verifier::external_body]
pub struct ExSpan(proc_macro2::Span);

#[verifier::external_type_specification]
#[verifier::external_body]
pub struct ExSynError(syn::Error);

#[verifier::external_type_specification]
#[verifier::external_body]
pub struct ExMeta(syn::Meta);

#[verifier::external_type_specification]
#[verifier::external_body]
pub struct ExExpr(syn::Expr);

#[verifier::external_type_specification]
#[verifier::external_body]
pub struct ExIdent(proc_macro2::Ident);

#[verifier::external_type_specification]
#[verifier::external_body]
pub struct ExItemTrait(syn::ItemTrait);

#[verifier::external_type_specification]
#[verifier::external_body]
pub struct ExTraitItemFn(syn::TraitItemFn);

#[verifier::external_type_specification]
#[verifier::external_body]
pub struct ExAttribute(syn::Attribute);

#[verifier::external_type_specification]
#[verifier::external_body]
pub struct ExPatType(syn::PatType);

#[verifier::external_type_specification]
#[verifier::external_body]
pub struct ExType(syn::Type);

#[verifier::external_type_specification]
#[verifier::external_body]
pub struct ExReturnType(syn::ReturnType);

#[verifier::external_type_specification]
#[verifier::external_body]
pub struct ExPathSegment(syn::PathSegment);

#[verifier::external_type_specification]
#[verifier::external_body]
pub struct ExGenericArgument(syn::GenericArgument);

#[verifier::external_type_specification]
#[verifier::external_body]
pub struct ExLitStr(syn::LitStr);

#[verifier::external_type_specification]
#[verifier::external_body]
pub struct ExItemStruct(syn::ItemStruct);

#[verifier::external_type_specification]
#[verifier::external_body]
pub struct ExItemEnum(syn::ItemEnum);

#[verifier::external_type_specification]
#[verifier::external_body]
pub struct ExVariant(syn::Variant);

#[verifier::external_type_specification]
#[verifier::external_body]
pub struct ExField(syn::Field);

/// A refusal, before it becomes a compile error: where it points, and what it says.
pub struct Refusal {
    pub span: proc_macro2::Span,
    pub message: String,
}

/// How an argument of an attribute was written after its name.
pub enum WrittenValue {
    /// Nothing: the argument is a bare name.
    Bare,
    /// A parenthesised list after the name.
    Listed,
    /// `= <expression>`: where it points, its text where the expression is a string literal, and
    /// the elements where it is a bracketed list.
    Valued {
        span: proc_macro2::Span,
        text: Option<String>,
        elements: Option<Vec<WrittenElement>>,
    },
}

/// One element of a bracketed list: where it points, and its text where it is a string literal.
pub struct WrittenElement {
    pub span: proc_macro2::Span,
    pub text: Option<String>,
}

/// One argument of an attribute: its name where it is a single identifier, where the name points,
/// and what followed it.
pub struct WrittenArgument {
    pub name: Option<String>,
    pub name_span: proc_macro2::Span,
    pub value: WrittenValue,
}

/// The messages a compile error carries, in order, each with the first and last span it covers:
/// what `syn::Error` holds and `to_compile_error` emits.
pub uninterp spec fn error_messages_of(error: syn::Error) -> Seq<(proc_macro2::Span, proc_macro2::Span, Seq<char>)>;

/// The span of a string literal's token.
pub uninterp spec fn literal_span_of(literal: syn::LitStr) -> proc_macro2::Span;

/// `syn::Error::new`: a compile error carrying `message`, spanned on `span`, and nothing else.
#[verifier::external_body]
pub(crate) fn error_at(span: proc_macro2::Span, message: &str) -> (r: syn::Error)
    ensures
        error_messages_of(r) == seq![(span, span, message@)],
{
    syn::Error::new(span, message)
}

/// `syn::Error::new_spanned`: a compile error carrying `message`, spanned on the string literal,
/// whose tokens are the one literal token, so the message starts and ends on its span.
#[verifier::external_body]
pub(crate) fn error_on_literal(literal: &syn::LitStr, message: &str) -> (r: syn::Error)
    ensures
        error_messages_of(r) == seq![(literal_span_of(*literal), literal_span_of(*literal), message@)],
{
    syn::Error::new_spanned(literal, message)
}

/// What [`literal_value`] reads.
pub uninterp spec fn literal_text(literal: syn::LitStr) -> Seq<char>;

/// `LitStr::value`: the string the literal denotes, its escapes resolved; named [`literal_text`].
#[verifier::external_body]
pub(crate) fn literal_value(literal: &syn::LitStr) -> (r: String)
    ensures
        r@ == literal_text(*literal),
{
    literal.value()
}

/// `syn::Error::combine`: `other`'s messages appended to `into`'s, so one build reports both.
#[verifier::external_body]
pub(crate) fn combine_errors(into: &mut syn::Error, other: syn::Error)
    ensures
        error_messages_of(*final(into)) == error_messages_of(*old(into)) + error_messages_of(other),
{
    into.combine(other);
}

/// What [`ident_text`] reads.
pub uninterp spec fn ident_text_of(ident: proc_macro2::Ident) -> Seq<char>;

/// `Ident::to_string`: the identifier as written.
#[verifier::external_body]
pub(crate) fn ident_text(ident: &proc_macro2::Ident) -> (r: String)
    ensures
        r@ == ident_text_of(*ident),
{
    ident.to_string()
}

/// What [`ident_span`] reads.
pub uninterp spec fn ident_span_of(ident: proc_macro2::Ident) -> proc_macro2::Span;

/// `Ident::span`: where the identifier was written.
#[verifier::external_body]
pub(crate) fn ident_span(ident: &proc_macro2::Ident) -> (r: proc_macro2::Span)
    ensures
        r == ident_span_of(*ident),
{
    ident.span()
}

/// `Ident::clone`, which is derived: the copy is the same identifier, with the same span.
#[verifier::external_body]
pub(crate) fn clone_ident(ident: &proc_macro2::Ident) -> (r: proc_macro2::Ident)
    ensures
        r == *ident,
{
    ident.clone()
}

/// `Type::clone`, which copies the type variant by variant and field by field: the copy is the
/// same type.
#[verifier::external_body]
pub(crate) fn clone_type(declared: &syn::Type) -> (r: syn::Type)
    ensures
        r == *declared,
{
    declared.clone()
}

/// `syn::Error::clone`, which copies each message with its span: the copy is the same error.
#[verifier::external_body]
pub(crate) fn clone_error(error: &syn::Error) -> (r: syn::Error)
    ensures
        r == *error,
{
    error.clone()
}

/// A type name every lexer reads as one identifier and syn takes as one: an ASCII capital, then
/// ASCII letters, digits and underscores, and not the keyword `Self`.
pub open spec fn plain_type_name(text: Seq<char>) -> bool {
    &&& text.len() > 0
    &&& 'A' <= text[0] && text[0] <= 'Z'
    &&& forall|k: int|
        0 <= k < text.len() ==> ('a' <= #[trigger] text[k] && text[k] <= 'z') || ('A' <= text[k] && text[k]
            <= 'Z') || ('0' <= text[k] && text[k] <= '9') || text[k] == '_'
    &&& text != "Self"@
}

/// `syn::parse_str::<Ident>`: `text` as an identifier, or `None` where it is not one. A plain type
/// name is lexed as one identifier token, whichever lexer reads it, and syn's `Ident` parser takes
/// every identifier but the keywords, so it comes back as an identifier spelled as written; of any
/// other text nothing is stated.
#[verifier::external_body]
pub(crate) fn parse_ident(text: &str) -> (r: Option<proc_macro2::Ident>)
    ensures
        plain_type_name(text@) ==> r is Some,
        plain_type_name(text@) ==> ident_text_of(r->Some_0) == text@,
{
    match syn::parse_str::<proc_macro2::Ident>(text) {
        Ok(ident) => Some(ident),
        Err(_) => None,
    }
}

/// What [`trait_ident`] reads.
pub uninterp spec fn trait_ident_of(declared: syn::ItemTrait) -> proc_macro2::Ident;

/// The trait's name, as declared.
#[verifier::external_body]
pub(crate) fn trait_ident(declared: &syn::ItemTrait) -> (r: proc_macro2::Ident)
    ensures
        r == trait_ident_of(*declared),
{
    declared.ident.clone()
}

/// What [`trait_type_parameters`] reads.
pub uninterp spec fn trait_type_parameters_of(declared: syn::ItemTrait) -> Seq<Option<proc_macro2::Ident>>;

/// The trait's generic parameters in order: the name of each type parameter, and `None` for a
/// lifetime or a const parameter.
#[verifier::external_body]
pub(crate) fn trait_type_parameters(declared: &syn::ItemTrait) -> (r: Vec<Option<proc_macro2::Ident>>)
    ensures
        r@ == trait_type_parameters_of(*declared),
{
    declared.generics.params.iter().map(|parameter| match parameter {
        syn::GenericParam::Type(named) => Some(named.ident.clone()),
        syn::GenericParam::Lifetime(_) => None,
        syn::GenericParam::Const(_) => None,
    }).collect()
}

/// What [`trait_methods`] reads.
pub uninterp spec fn trait_methods_of(declared: syn::ItemTrait) -> Seq<Option<syn::TraitItemFn>>;

/// The trait's items in order: each method declaration, and `None` for any other item.
#[verifier::external_body]
pub(crate) fn trait_methods(declared: &syn::ItemTrait) -> (r: Vec<Option<syn::TraitItemFn>>)
    ensures
        r@ == trait_methods_of(*declared),
{
    declared.items.iter().map(|item| match item {
        syn::TraitItem::Fn(method) => Some(method.clone()),
        _ => None,
    }).collect()
}

/// `ItemTrait::clone`, which is derived: the copy is the same trait.
#[verifier::external_body]
pub(crate) fn clone_trait(declared: &syn::ItemTrait) -> (r: syn::ItemTrait)
    ensures
        r == *declared,
{
    declared.clone()
}

/// `TraitItemFn::clone`, which is derived: the copy is the same method.
#[verifier::external_body]
pub(crate) fn clone_method(method: &syn::TraitItemFn) -> (r: syn::TraitItemFn)
    ensures
        r == *method,
{
    method.clone()
}

/// `Attribute::clone`, which is derived: the copy is the same attribute.
#[verifier::external_body]
pub(crate) fn clone_attribute(attribute: &syn::Attribute) -> (r: syn::Attribute)
    ensures
        r == *attribute,
{
    attribute.clone()
}

/// The trait's `index`-th item replaced by the method; a trait with no such item is left as it is.
/// Only the items change, so the methods read off it afterwards are those read before, the one at
/// `index` now being `method`.
#[verifier::external_body]
pub(crate) fn replace_trait_item(declared: &mut syn::ItemTrait, index: usize, method: syn::TraitItemFn)
    ensures
        trait_methods_of(*final(declared)) == if index < trait_methods_of(*old(declared)).len() {
            trait_methods_of(*old(declared)).update(index as int, Some(method))
        } else {
            trait_methods_of(*old(declared))
        },
        trait_ident_of(*final(declared)) == trait_ident_of(*old(declared)),
        trait_type_parameters_of(*final(declared)) == trait_type_parameters_of(*old(declared)),
{
    if let Some(slot) = declared.items.get_mut(index) {
        *slot = syn::TraitItem::Fn(method);
    }
}

/// The method's attributes replaced by `attributes`; its signature is left as it was.
#[verifier::external_body]
pub(crate) fn set_method_attributes(method: &mut syn::TraitItemFn, attributes: Vec<syn::Attribute>)
    ensures
        method_attributes_of(*final(method)) == attributes@,
        method_is_async_of(*final(method)) == method_is_async_of(*old(method)),
        method_output_of(*final(method)) == method_output_of(*old(method)),
        method_ident_of(*final(method)) == method_ident_of(*old(method)),
        method_inputs_of(*final(method)) == method_inputs_of(*old(method)),
{
    method.attrs = attributes;
}

/// What [`method_is_async`] reads.
pub uninterp spec fn method_is_async_of(method: syn::TraitItemFn) -> bool;

/// Whether the method is declared `async fn`.
#[verifier::external_body]
pub(crate) fn method_is_async(method: &syn::TraitItemFn) -> (r: bool)
    ensures
        r == method_is_async_of(*method),
{
    method.sig.asyncness.is_some()
}

/// What [`parse_trait`] reads.
pub uninterp spec fn parsed_trait(input: proc_macro2::TokenStream) -> Option<syn::ItemTrait>;

/// `syn::parse2::<ItemTrait>`: the tokens read as a trait declaration, or the parse error.
/// Nothing is stated of either.
#[verifier::external_body]
pub(crate) fn parse_trait(input: proc_macro2::TokenStream) -> (r: Result<syn::ItemTrait, syn::Error>)
    ensures
        match r {
            Ok(declared) => parsed_trait(input) == Some(declared),
            Err(_) => parsed_trait(input) is None,
        },
{
    syn::parse2::<syn::ItemTrait>(input)
}

/// The method's `async` taken off; everything else is left as it was.
#[verifier::external_body]
pub(crate) fn clear_async(method: &mut syn::TraitItemFn)
    ensures
        !method_is_async_of(*final(method)),
        method_attributes_of(*final(method)) == method_attributes_of(*old(method)),
        method_output_of(*final(method)) == method_output_of(*old(method)),
        method_ident_of(*final(method)) == method_ident_of(*old(method)),
        method_inputs_of(*final(method)) == method_inputs_of(*old(method)),
{
    method.sig.asyncness = None;
}

/// `syn::parse_str::<ReturnType>`: `text` read as a return type, or `None` where it is not one.
/// The text is lexed by the compiler inside a macro expansion and by proc-macro2 elsewhere, and the
/// parsed tokens carry the call site's span, so nothing is stated of the result.
#[verifier::external_body]
pub(crate) fn parse_return_type(text: &str) -> Option<syn::ReturnType> {
    match syn::parse_str::<syn::ReturnType>(text) {
        Ok(output) => Some(output),
        Err(_) => None,
    }
}

/// The method's return type replaced by `output`, and its `async` taken off; its attributes, name
/// and inputs are left as they were.
#[verifier::external_body]
pub(crate) fn set_plain_output(method: &mut syn::TraitItemFn, output: syn::ReturnType)
    ensures
        !method_is_async_of(*final(method)),
        method_attributes_of(*final(method)) == method_attributes_of(*old(method)),
        method_ident_of(*final(method)) == method_ident_of(*old(method)),
        method_inputs_of(*final(method)) == method_inputs_of(*old(method)),
{
    method.sig.asyncness = None;
    method.sig.output = output;
}

/// What [`method_ident`] reads.
pub uninterp spec fn method_ident_of(method: syn::TraitItemFn) -> proc_macro2::Ident;

/// The method's name, as declared.
#[verifier::external_body]
pub(crate) fn method_ident(method: &syn::TraitItemFn) -> (r: proc_macro2::Ident)
    ensures
        r == method_ident_of(*method),
{
    method.sig.ident.clone()
}

/// What [`method_attributes`] reads.
pub uninterp spec fn method_attributes_of(method: syn::TraitItemFn) -> Seq<syn::Attribute>;

/// The attributes written on the method, in order.
#[verifier::external_body]
pub(crate) fn method_attributes(method: &syn::TraitItemFn) -> (r: Vec<syn::Attribute>)
    ensures
        r@ == method_attributes_of(*method),
{
    method.attrs.clone()
}

/// What [`method_signature_span`] reads.
pub uninterp spec fn method_signature_span_of(method: syn::TraitItemFn) -> proc_macro2::Span;

/// `Spanned::span` of the method's signature.
#[verifier::external_body]
pub(crate) fn method_signature_span(method: &syn::TraitItemFn) -> (r: proc_macro2::Span)
    ensures
        r == method_signature_span_of(*method),
{
    method.sig.span()
}

/// What [`method_inputs`] reads.
pub uninterp spec fn method_inputs_of(method: syn::TraitItemFn) -> Seq<Option<syn::PatType>>;

/// The method's inputs in order: `None` for a receiver, and the typed argument otherwise.
#[verifier::external_body]
pub(crate) fn method_inputs(method: &syn::TraitItemFn) -> (r: Vec<Option<syn::PatType>>)
    ensures
        r@ == method_inputs_of(*method),
{
    method.sig.inputs.iter().map(|input| match input {
        syn::FnArg::Receiver(_) => None,
        syn::FnArg::Typed(typed) => Some(typed.clone()),
    }).collect()
}

/// What [`method_output`] reads.
pub uninterp spec fn method_output_of(method: syn::TraitItemFn) -> Option<syn::Type>;

/// The method's declared return type, or `None` where it declares none.
#[verifier::external_body]
pub(crate) fn method_output(method: &syn::TraitItemFn) -> (r: Option<syn::Type>)
    ensures
        r == method_output_of(*method),
{
    match &method.sig.output {
        syn::ReturnType::Default => None,
        syn::ReturnType::Type(_, answered) => Some((**answered).clone()),
    }
}

/// What [`argument_ident`] reads.
pub uninterp spec fn argument_ident_of(typed: syn::PatType) -> Option<proc_macro2::Ident>;

/// The argument's name where its pattern is a plain identifier.
#[verifier::external_body]
pub(crate) fn argument_ident(typed: &syn::PatType) -> (r: Option<proc_macro2::Ident>)
    ensures
        r == argument_ident_of(*typed),
{
    match &*typed.pat {
        syn::Pat::Ident(named) => Some(named.ident.clone()),
        _ => None,
    }
}

/// What [`argument_pattern_span`] reads.
pub uninterp spec fn argument_pattern_span_of(typed: syn::PatType) -> proc_macro2::Span;

/// `Spanned::span` of the argument's pattern.
#[verifier::external_body]
pub(crate) fn argument_pattern_span(typed: &syn::PatType) -> (r: proc_macro2::Span)
    ensures
        r == argument_pattern_span_of(*typed),
{
    typed.pat.span()
}

/// What [`argument_type`] reads.
pub uninterp spec fn argument_type_of(typed: syn::PatType) -> syn::Type;

/// The argument's declared type.
#[verifier::external_body]
pub(crate) fn argument_type(typed: &syn::PatType) -> (r: syn::Type)
    ensures
        r == argument_type_of(*typed),
{
    (*typed.ty).clone()
}

/// What [`type_span`] reads.
pub uninterp spec fn type_span_of(declared: syn::Type) -> proc_macro2::Span;

/// `Spanned::span` of a type.
#[verifier::external_body]
pub(crate) fn type_span(declared: &syn::Type) -> (r: proc_macro2::Span)
    ensures
        r == type_span_of(*declared),
{
    declared.span()
}

/// What [`type_text`] reads.
pub uninterp spec fn type_text_of(declared: syn::Type) -> Seq<char>;

/// `ToTokens::to_token_stream` then `TokenStream::to_string`: the type as its tokens print.
#[verifier::external_body]
pub(crate) fn type_text(declared: &syn::Type) -> (r: String)
    ensures
        r@ == type_text_of(*declared),
{
    quote::ToTokens::to_token_stream(declared).to_string()
}

/// What [`referenced_type`] reads.
pub uninterp spec fn referenced_type_of(declared: syn::Type) -> Option<syn::Type>;

/// The type a reference type borrows, or `None` for any other type.
#[verifier::external_body]
pub(crate) fn referenced_type(declared: &syn::Type) -> (r: Option<syn::Type>)
    ensures
        r == referenced_type_of(*declared),
{
    match declared {
        syn::Type::Reference(borrowed) => Some((*borrowed.elem).clone()),
        _ => None,
    }
}

/// What [`path_type_ident`] reads.
pub uninterp spec fn path_type_ident_of(declared: syn::Type) -> Option<(bool, Option<proc_macro2::Ident>)>;

/// For a path type: whether it carries a qualified self, and `Path::get_ident`, the identifier the
/// path is where it is a single plain identifier. `None` for any other type.
#[verifier::external_body]
pub(crate) fn path_type_ident(declared: &syn::Type) -> (r: Option<(bool, Option<proc_macro2::Ident>)>)
    ensures
        r == path_type_ident_of(*declared),
{
    match declared {
        syn::Type::Path(named) => Some((named.qself.is_some(), named.path.get_ident().cloned())),
        _ => None,
    }
}

/// What [`path_type_last_segment`] reads.
pub uninterp spec fn path_type_last_segment_of(declared: syn::Type) -> Option<syn::PathSegment>;

/// For a path type, its last segment; `None` for any other type or an empty path.
#[verifier::external_body]
pub(crate) fn path_type_last_segment(declared: &syn::Type) -> (r: Option<syn::PathSegment>)
    ensures
        r == path_type_last_segment_of(*declared),
{
    match declared {
        syn::Type::Path(named) => named.path.segments.last().cloned(),
        _ => None,
    }
}

/// What [`segment_ident`] reads.
pub uninterp spec fn segment_ident_of(segment: syn::PathSegment) -> proc_macro2::Ident;

/// A path segment's identifier.
#[verifier::external_body]
pub(crate) fn segment_ident(segment: &syn::PathSegment) -> (r: proc_macro2::Ident)
    ensures
        r == segment_ident_of(*segment),
{
    segment.ident.clone()
}

/// What [`segment_angle_arguments`] reads.
pub uninterp spec fn segment_angle_arguments_of(segment: syn::PathSegment) -> Option<Seq<syn::GenericArgument>>;

/// A path segment's angle-bracketed generic arguments in order, or `None` where it has none or
/// has parenthesised ones.
#[verifier::external_body]
pub(crate) fn segment_angle_arguments(segment: &syn::PathSegment) -> (r: Option<Vec<syn::GenericArgument>>)
    ensures
        match r {
            Some(written) => segment_angle_arguments_of(*segment) == Some(written@),
            None => segment_angle_arguments_of(*segment) is None,
        },
{
    match &segment.arguments {
        syn::PathArguments::AngleBracketed(written) => Some(written.args.iter().cloned().collect()),
        _ => None,
    }
}

/// What [`argument_as_type`] reads.
pub uninterp spec fn argument_as_type_of(argument: syn::GenericArgument) -> Option<syn::Type>;

/// A generic argument where it is a type.
#[verifier::external_body]
pub(crate) fn argument_as_type(argument: &syn::GenericArgument) -> (r: Option<syn::Type>)
    ensures
        r == argument_as_type_of(*argument),
{
    match argument {
        syn::GenericArgument::Type(arm) => Some(arm.clone()),
        _ => None,
    }
}

/// What [`attribute_name`] reads.
pub uninterp spec fn attribute_name_of(attribute: syn::Attribute) -> Option<Seq<char>>;

/// `Attribute::path` and `Path::get_ident`: the attribute's name, where it is a single identifier.
#[verifier::external_body]
pub(crate) fn attribute_name(attribute: &syn::Attribute) -> (r: Option<String>)
    ensures
        match r {
            Some(name) => attribute_name_of(*attribute) == Some(name@),
            None => attribute_name_of(*attribute) is None,
        },
{
    match attribute.path().get_ident() {
        Some(ident) => Some(ident.to_string()),
        None => None,
    }
}

/// What [`attribute_arguments`] reads.
pub uninterp spec fn attribute_arguments_of(attribute: syn::Attribute) -> Result<Seq<syn::Meta>, syn::Error>;

/// `Attribute::parse_args_with(Punctuated::<Meta, Comma>::parse_terminated)`: the attribute's
/// parenthesised arguments in order, or the parse error.
#[verifier::external_body]
pub(crate) fn attribute_arguments(attribute: &syn::Attribute) -> (r: Result<Vec<syn::Meta>, syn::Error>)
    ensures
        match r {
            Ok(metas) => attribute_arguments_of(*attribute) == Ok::<Seq<syn::Meta>, syn::Error>(metas@),
            Err(refused) => attribute_arguments_of(*attribute) == Err::<Seq<syn::Meta>, syn::Error>(refused),
        },
{
    let parser = syn::punctuated::Punctuated::<syn::Meta, syn::token::Comma>::parse_terminated;
    match attribute.parse_args_with(parser) {
        Ok(list) => Ok(list.into_iter().collect()),
        Err(refused) => Err(refused),
    }
}

/// What [`struct_attributes`] reads.
pub uninterp spec fn struct_attributes_of(item: syn::ItemStruct) -> Seq<syn::Attribute>;

/// The attributes written on a struct, in order.
#[verifier::external_body]
pub(crate) fn struct_attributes(item: &syn::ItemStruct) -> (r: &Vec<syn::Attribute>)
    ensures
        r@ == struct_attributes_of(*item),
{
    &item.attrs
}

/// What [`enum_attributes`] reads.
pub uninterp spec fn enum_attributes_of(item: syn::ItemEnum) -> Seq<syn::Attribute>;

/// The attributes written on an enum, in order.
#[verifier::external_body]
pub(crate) fn enum_attributes(item: &syn::ItemEnum) -> (r: &Vec<syn::Attribute>)
    ensures
        r@ == enum_attributes_of(*item),
{
    &item.attrs
}

/// What [`variant_attributes`] reads.
pub uninterp spec fn variant_attributes_of(variant: syn::Variant) -> Seq<syn::Attribute>;

/// The attributes written on an enum variant, in order.
#[verifier::external_body]
pub(crate) fn variant_attributes(variant: &syn::Variant) -> (r: &Vec<syn::Attribute>)
    ensures
        r@ == variant_attributes_of(*variant),
{
    &variant.attrs
}

/// What [`field_attributes`] reads.
pub uninterp spec fn field_attributes_of(field: syn::Field) -> Seq<syn::Attribute>;

/// The attributes written on a field, in order.
#[verifier::external_body]
pub(crate) fn field_attributes(field: &syn::Field) -> (r: &Vec<syn::Attribute>)
    ensures
        r@ == field_attributes_of(*field),
{
    &field.attrs
}

/// What [`attribute_meta`] reads.
pub uninterp spec fn attribute_meta_of(attribute: syn::Attribute) -> syn::Meta;

/// The attribute's meta item: its path, and what follows it.
#[verifier::external_body]
pub(crate) fn attribute_meta(attribute: &syn::Attribute) -> (r: syn::Meta)
    ensures
        r == attribute_meta_of(*attribute),
{
    attribute.meta.clone()
}

/// What [`attribute_span`] reads.
pub uninterp spec fn attribute_span_of(attribute: syn::Attribute) -> proc_macro2::Span;

/// `Spanned::span` of an attribute: where it was written. For a `///` line, the line itself.
#[verifier::external_body]
pub(crate) fn attribute_span(attribute: &syn::Attribute) -> (r: proc_macro2::Span)
    ensures
        r == attribute_span_of(*attribute),
{
    attribute.span()
}

/// What [`parse_meta_list`] reads.
pub uninterp spec fn parsed_meta_list(args: proc_macro2::TokenStream) -> Option<Seq<syn::Meta>>;

/// `Punctuated::<Meta, Comma>::parse_terminated` over the tokens: the comma-separated arguments an
/// attribute was written with, in order, or the parse error.
#[verifier::external_body]
pub(crate) fn parse_meta_list(args: proc_macro2::TokenStream) -> (r: Result<Vec<syn::Meta>, syn::Error>)
    ensures
        match r {
            Ok(metas) => parsed_meta_list(args) == Some(metas@),
            Err(_) => parsed_meta_list(args) is None,
        },
{
    let parser = syn::punctuated::Punctuated::<syn::Meta, syn::token::Comma>::parse_terminated;
    match parser.parse2(args) {
        Ok(list) => Ok(list.into_iter().collect()),
        Err(refused) => Err(refused),
    }
}

/// What [`meta_name`] reads.
pub uninterp spec fn meta_name_of(meta: syn::Meta) -> Option<Seq<char>>;

/// `Meta::path` and `Path::get_ident`: the argument's name, where it is a single identifier.
#[verifier::external_body]
pub(crate) fn meta_name(meta: &syn::Meta) -> (r: Option<String>)
    ensures
        match r {
            Some(name) => meta_name_of(*meta) == Some(name@),
            None => meta_name_of(*meta) is None,
        },
{
    match meta.path().get_ident() {
        Some(ident) => Some(ident.to_string()),
        None => None,
    }
}

/// What [`meta_name_span`] reads.
pub uninterp spec fn meta_name_span_of(meta: syn::Meta) -> proc_macro2::Span;

/// `Spanned::span` of `Meta::path`: where the argument's name was written.
#[verifier::external_body]
pub(crate) fn meta_name_span(meta: &syn::Meta) -> (r: proc_macro2::Span)
    ensures
        r == meta_name_span_of(*meta),
{
    meta.path().span()
}

/// What [`meta_value`] reads.
pub uninterp spec fn meta_value_of(meta: syn::Meta) -> Option<Option<syn::Expr>>;

/// What followed the argument's name: nothing, a parenthesised list, or `= <expression>`.
#[verifier::external_body]
pub(crate) fn meta_value(meta: &syn::Meta) -> (r: Option<Option<syn::Expr>>)
    ensures
        r == meta_value_of(*meta),
{
    match meta {
        syn::Meta::Path(_) => None,
        syn::Meta::List(_) => Some(None),
        syn::Meta::NameValue(named) => Some(Some(named.value.clone())),
    }
}

/// What [`expr_array_elements`] reads.
pub uninterp spec fn expr_array_elements_of(expr: syn::Expr) -> Option<Seq<syn::Expr>>;

/// The elements of a bracketed list expression, in order, or `None` for any other expression.
#[verifier::external_body]
pub(crate) fn expr_array_elements(expr: &syn::Expr) -> (r: Option<Vec<syn::Expr>>)
    ensures
        match r {
            Some(elements) => expr_array_elements_of(*expr) == Some(elements@),
            None => expr_array_elements_of(*expr) is None,
        },
{
    match expr {
        syn::Expr::Array(listed) => Some(listed.elems.iter().cloned().collect()),
        _ => None,
    }
}

/// What [`expr_string`] reads.
pub uninterp spec fn expr_string_of(expr: syn::Expr) -> Option<Seq<char>>;

/// The value of a string literal expression, or `None` for any other expression.
#[verifier::external_body]
pub(crate) fn expr_string(expr: &syn::Expr) -> (r: Option<String>)
    ensures
        match r {
            Some(text) => expr_string_of(*expr) == Some(text@),
            None => expr_string_of(*expr) is None,
        },
{
    match expr {
        syn::Expr::Lit(syn::ExprLit { lit: syn::Lit::Str(written), .. }) => Some(written.value()),
        _ => None,
    }
}

/// What [`expr_span`] reads.
pub uninterp spec fn expr_span_of(expr: syn::Expr) -> proc_macro2::Span;

/// `Spanned::span` of an expression: where it was written.
#[verifier::external_body]
pub(crate) fn expr_span(expr: &syn::Expr) -> (r: proc_macro2::Span)
    ensures
        r == expr_span_of(*expr),
{
    expr.span()
}

/// A text that may be missing, as its characters.
pub open spec fn opt_text(text: Option<String>) -> Option<Seq<char>> {
    match text {
        Some(written) => Some(written@),
        None => None,
    }
}

/// An element read from an expression: where it points, and its text where it is a string literal.
pub open spec fn written_element_of(element: WrittenElement, expr: syn::Expr) -> bool {
    element.span == expr_span_of(expr) && opt_text(element.text) == expr_string_of(expr)
}

/// The elements read from a bracketed list, one per expression, in order.
pub open spec fn written_elements_of(elements: Seq<WrittenElement>, exprs: Seq<syn::Expr>) -> bool {
    elements.len() == exprs.len() && forall|k: int|
        0 <= k < exprs.len() ==> written_element_of(#[trigger] elements[k], exprs[k])
}

/// What followed an argument's name, read from the meta item's value.
pub open spec fn written_value_of(value: WrittenValue, meta_value: Option<Option<syn::Expr>>) -> bool {
    match meta_value {
        None => value is Bare,
        Some(None) => value is Listed,
        Some(Some(expr)) => value matches WrittenValue::Valued { span, text, elements } && span
            == expr_span_of(expr) && opt_text(text) == expr_string_of(expr) && match expr_array_elements_of(
            expr,
        ) {
            Some(exprs) => elements matches Some(read) && written_elements_of(read@, exprs),
            None => elements is None,
        },
    }
}

/// An argument read from a meta item: its name, where the name points, and what followed it.
pub open spec fn written_argument_of(argument: WrittenArgument, meta: syn::Meta) -> bool {
    &&& opt_text(argument.name) == meta_name_of(meta)
    &&& argument.name_span == meta_name_span_of(meta)
    &&& written_value_of(argument.value, meta_value_of(meta))
}

/// Arguments read from meta items, one per item, in order.
pub open spec fn written_arguments_of(arguments: Seq<WrittenArgument>, metas: Seq<syn::Meta>) -> bool {
    arguments.len() == metas.len() && forall|k: int|
        0 <= k < metas.len() ==> written_argument_of(#[trigger] arguments[k], metas[k])
}

/// The elements of a written list, each with where it points and its text where it is a string.
fn written_elements(exprs: &Vec<syn::Expr>) -> (r: Vec<WrittenElement>)
    ensures
        written_elements_of(r@, exprs@),
{
    let mut r: Vec<WrittenElement> = Vec::new();
    let mut i: usize = 0;
    while i < exprs.len()
        invariant
            0 <= i <= exprs@.len(),
            r@.len() == i,
            forall|k: int| 0 <= k < i ==> written_element_of(#[trigger] r@[k], exprs@[k]),
        decreases exprs@.len() - i,
    {
        let element = &exprs[i];
        r.push(WrittenElement { span: expr_span(element), text: expr_string(element) });
        i = i + 1;
    }
    r
}

/// An attribute's arguments read into plain values, or the parse error that stopped the read.
pub fn written_arguments(args: proc_macro2::TokenStream) -> (r: Result<Vec<WrittenArgument>, syn::Error>)
    ensures
        match r {
            Ok(arguments) => parsed_meta_list(args) matches Some(metas) && written_arguments_of(
                arguments@,
                metas,
            ),
            Err(_) => parsed_meta_list(args) is None,
        },
{
    let metas = parse_meta_list(args)?;
    Ok(written_metas(&metas))
}

/// Parsed arguments read into plain values, in order.
pub fn written_metas(metas: &Vec<syn::Meta>) -> (r: Vec<WrittenArgument>)
    ensures
        written_arguments_of(r@, metas@),
{
    let mut r: Vec<WrittenArgument> = Vec::new();
    let mut i: usize = 0;
    while i < metas.len()
        invariant
            0 <= i <= metas@.len(),
            r@.len() == i,
            forall|k: int| 0 <= k < i ==> written_argument_of(#[trigger] r@[k], metas@[k]),
        decreases metas@.len() - i,
    {
        let meta = &metas[i];
        let value = match meta_value(meta) {
            None => WrittenValue::Bare,
            Some(None) => WrittenValue::Listed,
            Some(Some(expr)) => {
                let elements = match expr_array_elements(&expr) {
                    Some(exprs) => Some(written_elements(&exprs)),
                    None => None,
                };
                WrittenValue::Valued { span: expr_span(&expr), text: expr_string(&expr), elements }
            },
        };
        r.push(WrittenArgument { name: meta_name(meta), name_span: meta_name_span(meta), value });
        i = i + 1;
    }
    r
}

} // verus!
