//! `#[service_schema]`: a service declared once as a trait, read once, and handed to the emitters.
//! The trait itself is emitted as declared, save for the per-operation directives and the
//! `async fn` desugaring the compiler asks for.

pub mod client;
pub mod declared;
pub mod messages;
pub mod parse;
pub mod rustdoc;
pub mod support;
pub mod transport;

use crate::syntax::{
    clear_async, method_ident_of, method_inputs_of, trait_ident_of, trait_type_parameters_of,
    attribute_name_of, method_attributes_of, method_is_async_of, method_output_of, opt_text,
    trait_methods_of, attribute_name, clone_attribute, clone_method, clone_trait, method_attributes, method_is_async,
    method_output, parse_return_type, parse_trait, parsed_trait, replace_trait_item, set_method_attributes, set_plain_output,
    trait_methods, type_text,
};
use crate::service_schema::parse::{
    operation_ts_names, operation_wire_names, parse_service, service_reading_of, all_distinct,
    ServiceDef,
};
use crate::text::str_eq;
use vstd::prelude::*;

verus! {

/// Whether an attribute is the per-operation directive, which belongs to this macro and not to
/// the emitted trait.
pub open spec fn is_directive(name: Option<Seq<char>>) -> bool {
    name == Some("service_schema_op"@)
}

pub open spec fn name_views(names: Seq<Option<String>>) -> Seq<Option<Seq<char>>> {
    names.map_values(
        |name: Option<String>|
            match name {
                Some(s) => Some(s@),
                None => None,
            },
    )
}

/// The positions of the attributes an emitted method keeps: every one but the directives, in
/// order.
pub open spec fn kept_positions(names: Seq<Option<Seq<char>>>) -> Seq<int>
    decreases names.len(),
{
    if names.len() == 0 {
        Seq::empty()
    } else if is_directive(names.last()) {
        kept_positions(names.drop_last())
    } else {
        kept_positions(names.drop_last()).push(names.len() - 1)
    }
}

/// The positions of the attributes an emitted method keeps, given their names in order.
pub fn kept_attribute_positions(names: &Vec<Option<String>>) -> (r: Vec<usize>)
    ensures
        r@.map_values(|p: usize| p as int) == kept_positions(name_views(names@)),
{
    let ghost all = name_views(names@);
    let mut r: Vec<usize> = Vec::new();
    let mut i: usize = 0;
    while i < names.len()
        invariant
            0 <= i <= names@.len(),
            all == name_views(names@),
            r@.map_values(|p: usize| p as int) == kept_positions(all.take(i as int)),
        decreases names@.len() - i,
    {
        assert(all.take(i + 1).drop_last() == all.take(i as int));
        assert(all.take(i + 1).last() == all[i as int]);
        let directive = match &names[i] {
            Some(name) => str_eq(name.as_str(), "service_schema_op"),
            None => false,
        };
        if !directive {
            let ghost before = r@;
            r.push(i);
            assert(r@.map_values(|p: usize| p as int) == before.map_values(|p: usize| p as int).push(
                i as int,
            ));
        }
        i = i + 1;
    }
    assert(all.take(names@.len() as int) == all);
    r
}

/// The return type an `async fn` answering `answered` is desugared to.
pub open spec fn desugared_output_seq(answered: Seq<char>) -> Seq<char> {
    "-> impl ::core::future::Future<Output = "@ + answered + "> + Send"@
}

/// What an emitted method is made of: the positions of the attributes it keeps, and for an
/// `async fn` the return type it is desugared to, `()` standing for a return type left unwritten.
pub struct MethodEmission {
    pub kept: Vec<usize>,
    pub output: Option<String>,
}

/// The return type an `async fn` answering `answered` (its printed return type, `None` where it
/// declares none) is desugared to: `-> impl ::core::future::Future<Output = T> + Send`, the form
/// the `async_fn_in_trait` warning recommends writing.
pub fn desugared_output(answered: &Option<String>) -> (r: String)
    ensures
        r@ == desugared_output_seq(
            match answered {
                Some(text) => text@,
                None => "()"@,
            },
        ),
{
    let mut r = String::from_str("-> impl ::core::future::Future<Output = ");
    match answered {
        Some(text) => r.append(text.as_str()),
        None => r.append("()"),
    }
    r.append("> + Send");
    r
}

/// How one method of the declared trait is emitted, given the names of its attributes in order,
/// whether it is an `async fn`, and its printed return type: every attribute but the directives is
/// kept in order, and an `async fn` is desugared.
pub fn method_emission(names: &Vec<Option<String>>, is_async: bool, answered: &Option<String>) -> (r:
    MethodEmission)
    ensures
        r.kept@.map_values(|p: usize| p as int) == kept_positions(name_views(names@)),
        match r.output {
            Some(output) => is_async && output@ == desugared_output_seq(
                match answered {
                    Some(text) => text@,
                    None => "()"@,
                },
            ),
            None => !is_async,
        },
{
    let kept = kept_attribute_positions(names);
    let output = if is_async {
        Some(desugared_output(answered))
    } else {
        None
    };
    MethodEmission { kept, output }
}

/// The attributes an emitted method keeps are exactly those that are not directives, in the
/// order they were written.
pub proof fn lemma_kept_positions_drop_exactly_the_directives(names: Seq<Option<Seq<char>>>)
    ensures
        forall|k: int|
            0 <= k < kept_positions(names).len() ==> !is_directive(
                names[#[trigger] kept_positions(names)[k]],
            ),
        forall|k: int, j: int|
            0 <= k < j < kept_positions(names).len() ==> #[trigger] kept_positions(names)[k]
                < #[trigger] kept_positions(names)[j],
        forall|p: int|
            0 <= p < names.len() && !is_directive(#[trigger] names[p]) ==> kept_positions(
                names,
            ).contains(p),
    decreases names.len(),
{
    lemma_kept_positions_in_range(names);
    if names.len() > 0 {
        let prefix = names.drop_last();
        lemma_kept_positions_drop_exactly_the_directives(prefix);
        lemma_kept_positions_in_range(prefix);
        let earlier = kept_positions(prefix);
        let all = kept_positions(names);
        assert forall|k: int| 0 <= k < all.len() implies !is_directive(names[#[trigger] all[k]]) by {
            if k < earlier.len() {
                assert(all[k] == earlier[k]);
                assert(names[earlier[k]] == prefix[earlier[k]]);
            }
        }
        assert forall|k: int, j: int| 0 <= k < j < all.len() implies #[trigger] all[k] < #[trigger] all[j] by {
            if j < earlier.len() {
                assert(all[k] == earlier[k]);
                assert(all[j] == earlier[j]);
            } else {
                assert(all[k] == earlier[k]);
            }
        }
        assert forall|p: int| 0 <= p < names.len() && !is_directive(#[trigger] names[p]) implies all.contains(p) by {
            if p < names.len() - 1 {
                assert(prefix[p] == names[p]);
                let w = choose|w: int| 0 <= w < earlier.len() && earlier[w] == p;
                assert(all[w] == p);
            } else {
                assert(all[all.len() - 1] == p);
            }
        }
    }
}

/// The names of some attributes, in order.
pub open spec fn attribute_names(attrs: Seq<syn::Attribute>) -> Seq<Option<Seq<char>>> {
    attrs.map_values(|attribute: syn::Attribute| attribute_name_of(attribute))
}

/// The attributes an emitted method keeps: every one but the directives, in order.
pub open spec fn kept_attributes(attrs: Seq<syn::Attribute>) -> Seq<syn::Attribute> {
    kept_positions(attribute_names(attrs)).map_values(|p: int| attrs[p])
}

/// A method as it is emitted: it keeps its name and inputs, and every attribute but the
/// directives, in order; it is never `async`; a method that was not `async` keeps its return type.
pub open spec fn emitted_method_of(emitted: syn::TraitItemFn, declared: syn::TraitItemFn) -> bool {
    &&& method_attributes_of(emitted) == kept_attributes(method_attributes_of(declared))
    &&& method_ident_of(emitted) == method_ident_of(declared)
    &&& method_inputs_of(emitted) == method_inputs_of(declared)
    &&& !method_is_async_of(emitted)
    &&& !method_is_async_of(declared) ==> method_output_of(emitted) == method_output_of(declared)
}

/// A trait as it is emitted: item by item, each method as [`emitted_method_of`] has it, and
/// nothing else where the declaration has no method.
pub open spec fn emitted_from(emitted: syn::ItemTrait, declared: syn::ItemTrait) -> bool {
    &&& trait_ident_of(emitted) == trait_ident_of(declared)
    &&& trait_type_parameters_of(emitted) == trait_type_parameters_of(declared)
    &&& trait_methods_of(emitted).len() == trait_methods_of(declared).len()
    &&& forall|i: int|
        0 <= i < trait_methods_of(declared).len() ==> match #[trigger] trait_methods_of(declared)[i] {
            None => trait_methods_of(emitted)[i] is None,
            Some(method) => trait_methods_of(emitted)[i] matches Some(made) && emitted_method_of(
                made,
                method,
            ),
        }
}

/// The trait as the author declared it, less the per-operation directives, with every `async fn`
/// desugared as [`method_emission`] decides: it loses its `async`, and its return type is the
/// desugared text read back as tokens, which carry the macro's call site as their span rather than
/// the declared type's. A text that does not read back leaves the declared return type in place.
pub fn emitted_trait(declared: &syn::ItemTrait) -> (r: syn::ItemTrait)
    ensures
        emitted_from(r, *declared),
{
    let mut emitted = clone_trait(declared);
    let methods = trait_methods(declared);
    let ghost before = trait_methods_of(*declared);
    let mut i: usize = 0;
    while i < methods.len()
        invariant
            0 <= i <= methods@.len(),
            methods@ == before,
            trait_ident_of(emitted) == trait_ident_of(*declared),
            trait_type_parameters_of(emitted) == trait_type_parameters_of(*declared),
            before == trait_methods_of(*declared),
            trait_methods_of(emitted).len() == before.len(),
            forall|j: int| i <= j < before.len() ==> #[trigger] trait_methods_of(emitted)[j] == before[j],
            forall|j: int|
                0 <= j < i ==> match #[trigger] before[j] {
                    None => trait_methods_of(emitted)[j] is None,
                    Some(method) => trait_methods_of(emitted)[j] matches Some(made) && emitted_method_of(
                        made,
                        method,
                    ),
                },
        decreases methods@.len() - i,
    {
        match &methods[i] {
            Some(method) => {
                let attributes = method_attributes(method);
                let mut names: Vec<Option<String>> = Vec::new();
                let mut a: usize = 0;
                while a < attributes.len()
                    invariant
                        0 <= a <= attributes@.len(),
                        name_views(names@) == attribute_names(attributes@).take(a as int),
                    decreases attributes@.len() - a,
                {
                    let ghost nb = names@;
                    let named = attribute_name(&attributes[a]);
                    names.push(named);
                    assert(name_views(names@) =~= name_views(nb).push(opt_text(named)));
                    assert(attribute_names(attributes@).take(a + 1) =~= attribute_names(attributes@).take(
                        a as int,
                    ).push(attribute_name_of(attributes@[a as int])));
                    a = a + 1;
                }
                assert(attribute_names(attributes@).take(attributes@.len() as int) =~= attribute_names(
                    attributes@,
                ));
                let answered = match method_output(method) {
                    Some(declared_output) => Some(type_text(&declared_output)),
                    None => None,
                };
                let emission = method_emission(&names, method_is_async(method), &answered);
                let kept = emission.kept;
                let ghost kv = kept@.map_values(|p: usize| p as int);
                proof {
                    lemma_kept_positions_in_range(name_views(names@));
                    assert forall|k: int| 0 <= k < kept@.len() implies #[trigger] kept@[k] < attributes@.len() by {
                        assert(kv[k] == kept@[k] as int);
                    }
                }
                let mut retained: Vec<syn::Attribute> = Vec::new();
                let mut k: usize = 0;
                while k < kept.len()
                    invariant
                        0 <= k <= kept@.len(),
                        kv == kept@.map_values(|p: usize| p as int),
                        forall|q: int| 0 <= q < kept@.len() ==> #[trigger] kept@[q] < attributes@.len(),
                        retained@ == kv.take(k as int).map_values(|p: int| attributes@[p]),
                    decreases kept@.len() - k,
                {
                    let ghost rb = retained@;
                    retained.push(clone_attribute(&attributes[kept[k]]));
                    assert(kv[k as int] == kept@[k as int] as int);
                    assert(retained@ =~= kv.take(k + 1).map_values(|p: int| attributes@[p]));
                    k = k + 1;
                }
                assert(kv.take(kv.len() as int) =~= kv);
                assert(retained@ =~= kept_attributes(attributes@));
                let mut rewritten = clone_method(method);
                set_method_attributes(&mut rewritten, retained);
                if let Some(text) = emission.output {
                    match parse_return_type(text.as_str()) {
                        Some(output) => set_plain_output(&mut rewritten, output),
                        None => clear_async(&mut rewritten),
                    }
                }
                assert(emitted_method_of(rewritten, *method));
                replace_trait_item(&mut emitted, i, rewritten);
            },
            None => {},
        }
        i = i + 1;
    }
    emitted
}

/// Every position [`kept_positions`] lists is one of the attributes.
pub proof fn lemma_kept_positions_in_range(names: Seq<Option<Seq<char>>>)
    ensures
        forall|k: int|
            0 <= k < kept_positions(names).len() ==> 0 <= #[trigger] kept_positions(names)[k]
                < names.len(),
    decreases names.len(),
{
    if names.len() > 0 {
        let prefix = names.drop_last();
        lemma_kept_positions_in_range(prefix);
        let earlier = kept_positions(prefix);
        assert forall|k: int| 0 <= k < kept_positions(names).len() implies 0
            <= #[trigger] kept_positions(names)[k] < names.len() by {
            if k < earlier.len() {
                assert(kept_positions(names)[k] == earlier[k]);
            }
        }
    }
}

/// What `#[service_schema]` reads of the tokens it is handed: the trait, parsed, in the form it is
/// emitted in, beside the service it is read into or every refusal it earns. Tokens that are not a
/// trait declaration give the parse error.
pub fn read_service(input: proc_macro2::TokenStream) -> (r: Result<
    (syn::ItemTrait, Result<ServiceDef, syn::Error>),
    syn::Error,
>)
    ensures
        match parsed_trait(input) {
            None => r is Err,
            Some(declared) => r matches Ok((contract, read)) && emitted_from(contract, declared)
                && service_reading_of(declared, read),
        },
        r matches Ok((_, Ok(made))) ==> all_distinct(operation_wire_names(made.operations@)),
        r matches Ok((_, Ok(made))) ==> all_distinct(operation_ts_names(made.operations@)),
{
    let declared = parse_trait(input)?;
    let contract = emitted_trait(&declared);
    let service = parse_service(&declared);
    Ok((contract, service))
}

} // verus!
