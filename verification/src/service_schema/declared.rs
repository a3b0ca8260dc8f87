//! A declared service trait read into plain values: what the rules of [`super::parse`] look at,
//! beside the syntax each piece was written in, which the emitters are handed on.

use crate::service_schema::parse::{result_arms, result_arms_of};
use crate::syntax::{
    argument_ident, argument_ident_of, argument_pattern_span, argument_pattern_span_of,
    argument_type, argument_type_of, attribute_arguments, attribute_arguments_of, attribute_name,
    attribute_name_of, clone_ident, ident_span, ident_span_of, ident_text, ident_text_of,
    method_attributes, method_attributes_of, method_ident, method_ident_of, method_inputs,
    method_inputs_of, method_output, method_output_of, method_signature_span,
    method_signature_span_of, path_type_ident, path_type_ident_of, referenced_type,
    referenced_type_of, trait_ident, trait_ident_of, trait_methods, trait_methods_of,
    trait_type_parameters, trait_type_parameters_of, type_span, type_span_of, type_text,
    type_text_of, written_arguments_of, written_metas, WrittenArgument,
};
use crate::text::str_eq;
use vstd::prelude::*;

verus! {

/// A type as a method declares it: the syntax, where it was written, and its printed tokens.
pub struct DeclaredType {
    pub declared: syn::Type,
    pub span: proc_macro2::Span,
    pub text: String,
}

/// One input of a declared method: the receiver, or a typed argument with its name where its
/// pattern is a plain one, where that pattern was written, its type, and, where that type is a
/// reference to a path, whether the path is qualified and the single identifier it is.
pub enum DeclaredInput {
    Receiver,
    Typed {
        name: Option<proc_macro2::Ident>,
        pattern_span: proc_macro2::Span,
        argument: DeclaredType,
        borrowed: Option<(bool, Option<String>)>,
    },
}

/// A declared return type, with its success and error arms where it is a `Result` of two types.
pub struct DeclaredOutput {
    pub answered: DeclaredType,
    pub arms: Option<(DeclaredType, DeclaredType)>,
}

/// One method of the declared trait: its name, where its signature was written, the arguments of
/// each `#[service_schema_op(...)]` on it in order (or the error parsing them raised), its inputs
/// and its return type.
pub struct DeclaredOperation {
    pub ident: proc_macro2::Ident,
    pub name: String,
    pub name_span: proc_macro2::Span,
    pub signature_span: proc_macro2::Span,
    pub directives: Vec<Result<Vec<WrittenArgument>, syn::Error>>,
    pub inputs: Vec<DeclaredInput>,
    pub output: Option<DeclaredOutput>,
}

/// The declared trait: its name, its first type parameter where it has one, and its methods in
/// order.
pub struct DeclaredService {
    pub ident: proc_macro2::Ident,
    pub name: String,
    pub name_span: proc_macro2::Span,
    pub context: Option<(proc_macro2::Ident, String)>,
    pub operations: Vec<DeclaredOperation>,
}

/// A type read with where it was written and its printed tokens.
pub open spec fn declared_type_of(read: DeclaredType, declared: syn::Type) -> bool {
    &&& read.declared == declared
    &&& read.span == type_span_of(declared)
    &&& read.text@ == type_text_of(declared)
}

/// Where a type is a reference to a path: whether the path is qualified, and the text of the
/// single identifier it is.
pub open spec fn borrowed_of(declared: syn::Type) -> Option<(bool, Option<Seq<char>>)> {
    match referenced_type_of(declared) {
        None => None,
        Some(target) => match path_type_ident_of(target) {
            None => None,
            Some((qualified, None)) => Some((qualified, None)),
            Some((qualified, Some(named))) => Some((qualified, Some(ident_text_of(named)))),
        },
    }
}

pub open spec fn borrowed_view(borrowed: Option<(bool, Option<String>)>) -> Option<(bool, Option<Seq<char>>)> {
    match borrowed {
        None => None,
        Some((qualified, None)) => Some((qualified, None)),
        Some((qualified, Some(named))) => Some((qualified, Some(named@))),
    }
}

/// One input read from a method's signature: the receiver, or a typed argument with its name,
/// where its pattern was written, its type, and what its type refers to.
pub open spec fn declared_input_of(read: DeclaredInput, written: Option<syn::PatType>) -> bool {
    match written {
        None => read is Receiver,
        Some(typed) => read matches DeclaredInput::Typed { name, pattern_span, argument, borrowed }
            && name == argument_ident_of(typed) && pattern_span == argument_pattern_span_of(typed)
            && declared_type_of(argument, argument_type_of(typed)) && borrowed_view(borrowed)
            == borrowed_of(argument_type_of(typed)),
    }
}

/// A return type read with its success and error arms, where it is a `Result` of two types.
pub open spec fn declared_output_of(read: Option<DeclaredOutput>, written: Option<syn::Type>) -> bool {
    match written {
        None => read is None,
        Some(answered) => read matches Some(output) && declared_type_of(output.answered, answered)
            && match result_arms_of(answered) {
            None => output.arms is None,
            Some((success, error)) => output.arms matches Some((read_success, read_error))
                && declared_type_of(read_success, success) && declared_type_of(read_error, error),
        },
    }
}

/// The `#[service_schema_op(...)]` attributes among `attrs`, in order.
pub open spec fn directive_attributes(attrs: Seq<syn::Attribute>) -> Seq<syn::Attribute>
    decreases attrs.len(),
{
    if attrs.len() == 0 {
        Seq::empty()
    } else if attribute_name_of(attrs.last()) == Some("service_schema_op"@) {
        directive_attributes(attrs.drop_last()).push(attrs.last())
    } else {
        directive_attributes(attrs.drop_last())
    }
}

/// A directive read from its attribute: its arguments, or the error parsing them raised.
pub open spec fn directive_of(read: Result<Vec<WrittenArgument>, syn::Error>, attribute: syn::Attribute) -> bool {
    match attribute_arguments_of(attribute) {
        Ok(metas) => read matches Ok(arguments) && written_arguments_of(arguments@, metas),
        Err(error) => read matches Err(given) && given == error,
    }
}

/// One method read into plain values: its identifier with the identifier's text and span, where
/// its signature was written, each directive on it, each input, and its return type.
pub open spec fn declared_operation_of(read: DeclaredOperation, method: syn::TraitItemFn) -> bool {
    let directives = directive_attributes(method_attributes_of(method));
    let inputs = method_inputs_of(method);
    &&& read.ident == method_ident_of(method)
    &&& read.name@ == ident_text_of(read.ident)
    &&& read.name_span == ident_span_of(read.ident)
    &&& read.signature_span == method_signature_span_of(method)
    &&& read.directives@.len() == directives.len()
    &&& forall|k: int| 0 <= k < directives.len() ==> directive_of(#[trigger] read.directives@[k], directives[k])
    &&& read.inputs@.len() == inputs.len()
    &&& forall|k: int| 0 <= k < inputs.len() ==> declared_input_of(#[trigger] read.inputs@[k], inputs[k])
    &&& declared_output_of(read.output, method_output_of(method))
}

/// The first type parameter from position `p` on.
pub open spec fn first_type_parameter(parameters: Seq<Option<proc_macro2::Ident>>, p: int) -> Option<
    proc_macro2::Ident,
>
    decreases parameters.len() - p,
{
    if p < 0 || p >= parameters.len() {
        None
    } else {
        match parameters[p] {
            Some(named) => Some(named),
            None => first_type_parameter(parameters, p + 1),
        }
    }
}

/// The methods among a trait's items, in order.
pub open spec fn present_methods(items: Seq<Option<syn::TraitItemFn>>) -> Seq<syn::TraitItemFn>
    decreases items.len(),
{
    if items.len() == 0 {
        Seq::empty()
    } else {
        match items.last() {
            Some(method) => present_methods(items.drop_last()).push(method),
            None => present_methods(items.drop_last()),
        }
    }
}

/// The declared trait read into plain values: its identifier with the identifier's text and span,
/// its first type parameter with that parameter's text, and each method in order.
pub open spec fn declared_service_of(read: DeclaredService, declared: syn::ItemTrait) -> bool {
    let methods = present_methods(trait_methods_of(declared));
    &&& read.ident == trait_ident_of(declared)
    &&& read.name@ == ident_text_of(read.ident)
    &&& read.name_span == ident_span_of(read.ident)
    &&& match first_type_parameter(trait_type_parameters_of(declared), 0) {
        None => read.context is None,
        Some(first) => read.context matches Some((param, text)) && param == first && text@
            == ident_text_of(first),
    }
    &&& read.operations@.len() == methods.len()
    &&& forall|k: int| 0 <= k < methods.len() ==> declared_operation_of(#[trigger] read.operations@[k], methods[k])
}

/// A type with where it was written and its printed tokens.
pub fn declared_type(declared: syn::Type) -> (r: DeclaredType)
    ensures
        declared_type_of(r, declared),
{
    let span = type_span(&declared);
    let text = type_text(&declared);
    DeclaredType { declared, span, text }
}

/// One typed input: a plain name or not, and where its type is a reference to a path, whether
/// that path is qualified and the single identifier it is.
fn declared_input(typed: &syn::PatType) -> (r: DeclaredInput)
    ensures
        declared_input_of(r, Some(*typed)),
{
    let name = argument_ident(typed);
    let borrowed = match referenced_type(&argument_type(typed)) {
        Some(target) => match path_type_ident(&target) {
            Some((qualified, Some(named))) => Some((qualified, Some(ident_text(&named)))),
            Some((qualified, None)) => Some((qualified, None)),
            None => None,
        },
        None => None,
    };
    DeclaredInput::Typed {
        name,
        pattern_span: argument_pattern_span(typed),
        argument: declared_type(argument_type(typed)),
        borrowed,
    }
}

/// One method read into plain values.
pub fn declared_operation(method: &syn::TraitItemFn) -> (r: DeclaredOperation)
    ensures
        declared_operation_of(r, *method),
{
    let ident = method_ident(method);
    let name = ident_text(&ident);
    let name_span = ident_span(&ident);
    let attributes = method_attributes(method);
    let mut directives: Vec<Result<Vec<WrittenArgument>, syn::Error>> = Vec::new();
    let mut a: usize = 0;
    while a < attributes.len()
        invariant
            0 <= a <= attributes@.len(),
            directives@.len() == directive_attributes(attributes@.take(a as int)).len(),
            forall|k: int|
                0 <= k < directives@.len() ==> directive_of(
                    #[trigger] directives@[k],
                    directive_attributes(attributes@.take(a as int))[k],
                ),
        decreases attributes@.len() - a,
    {
        proof {
            assert(attributes@.take(a + 1).drop_last() == attributes@.take(a as int));
            assert(attributes@.take(a + 1).last() == attributes@[a as int]);
            reveal_strlit("service_schema_op");
        }
        let carried = match attribute_name(&attributes[a]) {
            Some(named) => str_eq(named.as_str(), "service_schema_op"),
            None => false,
        };
        if carried {
            match attribute_arguments(&attributes[a]) {
                Ok(metas) => directives.push(Ok(written_metas(&metas))),
                Err(refused) => directives.push(Err(refused)),
            }
        }
        a = a + 1;
    }
    assert(attributes@.take(attributes@.len() as int) == attributes@);
    let written = method_inputs(method);
    let mut inputs: Vec<DeclaredInput> = Vec::new();
    let mut k: usize = 0;
    while k < written.len()
        invariant
            0 <= k <= written@.len(),
            inputs@.len() == k,
            forall|q: int| 0 <= q < k ==> declared_input_of(#[trigger] inputs@[q], written@[q]),
        decreases written@.len() - k,
    {
        match &written[k] {
            None => inputs.push(DeclaredInput::Receiver),
            Some(typed) => inputs.push(declared_input(typed)),
        }
        k = k + 1;
    }
    let output = match method_output(method) {
        None => None,
        Some(answered) => {
            let arms = match result_arms(&answered) {
                Some((success, error)) => Some((declared_type(success), declared_type(error))),
                None => None,
            };
            Some(DeclaredOutput { answered: declared_type(answered), arms })
        },
    };
    DeclaredOperation {
        ident,
        name,
        name_span,
        signature_span: method_signature_span(method),
        directives,
        inputs,
        output,
    }
}

/// The declared trait read into plain values: its first type parameter, and its methods in order.
pub fn declared_service(declared: &syn::ItemTrait) -> (r: DeclaredService)
    ensures
        declared_service_of(r, *declared),
{
    let ident = trait_ident(declared);
    let name = ident_text(&ident);
    let name_span = ident_span(&ident);
    let parameters = trait_type_parameters(declared);
    let mut context: Option<(proc_macro2::Ident, String)> = None;
    let mut p: usize = 0;
    while p < parameters.len() && context.is_none()
        invariant
            0 <= p <= parameters@.len(),
            match context {
                None => first_type_parameter(parameters@, 0) == first_type_parameter(parameters@, p as int),
                Some((param, text)) => first_type_parameter(parameters@, 0) == Some(param) && text@
                    == ident_text_of(param),
            },
        decreases parameters@.len() - p,
    {
        if let Some(named) = &parameters[p] {
            context = Some((clone_ident(named), ident_text(named)));
        }
        p = p + 1;
    }
    let methods = trait_methods(declared);
    let mut operations: Vec<DeclaredOperation> = Vec::new();
    let mut i: usize = 0;
    while i < methods.len()
        invariant
            0 <= i <= methods@.len(),
            operations@.len() == present_methods(methods@.take(i as int)).len(),
            forall|k: int|
                0 <= k < operations@.len() ==> declared_operation_of(
                    #[trigger] operations@[k],
                    present_methods(methods@.take(i as int))[k],
                ),
        decreases methods@.len() - i,
    {
        proof {
            assert(methods@.take(i + 1).drop_last() == methods@.take(i as int));
            assert(methods@.take(i + 1).last() == methods@[i as int]);
        }
        if let Some(method) = &methods[i] {
            operations.push(declared_operation(method));
        }
        i = i + 1;
    }
    assert(methods@.take(methods@.len() as int) == methods@);
    DeclaredService { ident, name, name_span, context, operations }
}

} // verus!
