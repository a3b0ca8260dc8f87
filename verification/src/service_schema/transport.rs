//! The transports a service can ask for, and the one place a name is bound to one.
//!
//! `#[service_schema(transports = ["amqp_rpc"])]` is where a service says which of them it wants,
//! and `non_exhaustive` is the one other argument the attribute takes. [`parse_arguments`] reads
//! both, and [`Transport`] is the vocabulary a name is read against — written with an underscore
//! rather than a hyphen, because a transport's name reaches a generated macro name and a hyphen
//! cannot.

use crate::syntax::{
    error_at, error_messages_of, parsed_meta_list, written_arguments, written_arguments_of, Refusal, WrittenArgument,
    WrittenElement, WrittenValue,
};
use crate::text::str_eq;
use vstd::prelude::*;

verus! {

/// One transport a service asks for by name.
#[derive(Clone, Copy, Debug, Eq, PartialEq, Structural)]
pub enum Transport {
    AmqpRpc,
    HttpRest,
    WsRpc,
}

/// The name a service writes for `transport`.
pub open spec fn transport_name(transport: Transport) -> Seq<char> {
    match transport {
        Transport::AmqpRpc => "amqp_rpc"@,
        Transport::HttpRest => "http_rest"@,
        Transport::WsRpc => "ws_rpc"@,
    }
}

/// The transport whose name is `written`, if this version knows one.
pub open spec fn transport_named(written: Seq<char>) -> Option<Transport> {
    if written == transport_name(Transport::AmqpRpc) {
        Some(Transport::AmqpRpc)
    } else if written == transport_name(Transport::HttpRest) {
        Some(Transport::HttpRest)
    } else if written == transport_name(Transport::WsRpc) {
        Some(Transport::WsRpc)
    } else {
        None
    }
}

impl Transport {
    /// Every transport this version knows, in the order a refusal lists them.
    pub const KNOWN: [Transport; 3] = [Transport::AmqpRpc, Transport::HttpRest, Transport::WsRpc];

    /// The name a service writes for it.
    pub fn name(self) -> (r: &'static str)
        ensures
            r@ == transport_name(self),
    {
        match self {
            Transport::AmqpRpc => "amqp_rpc",
            Transport::HttpRest => "http_rest",
            Transport::WsRpc => "ws_rpc",
        }
    }

    /// The transport a service names by `written`, if this version knows one.
    pub fn from_name(written: &str) -> (r: Option<Transport>)
        ensures
            r == transport_named(written@),
    {
        if str_eq(written, Transport::AmqpRpc.name()) {
            Some(Transport::AmqpRpc)
        } else if str_eq(written, Transport::HttpRest.name()) {
            Some(Transport::HttpRest)
        } else if str_eq(written, Transport::WsRpc.name()) {
            Some(Transport::WsRpc)
        } else {
            None
        }
    }
}

/// What `#[service_schema(...)]`'s own arguments asked for.
#[derive(Debug, PartialEq, Eq)]
pub struct ServiceArguments {
    /// Whether the generated types are marked `#[non_exhaustive]`.
    pub non_exhaustive: bool,
    /// The transports the service asked for, in the order it wrote them.
    pub transports: Vec<Transport>,
}

impl Default for ServiceArguments {
    fn default() -> (r: ServiceArguments)
        ensures
            !r.non_exhaustive,
            r.transports@ == Seq::<Transport>::empty(),
    {
        ServiceArguments { non_exhaustive: false, transports: Vec::new() }
    }
}

pub open spec fn transports_argument() -> Seq<char> {
    "transports"@
}

pub open spec fn non_exhaustive_argument() -> Seq<char> {
    "non_exhaustive"@
}

pub open spec fn unknown_argument_message() -> Seq<char> {
    "service_schema: unknown `service_schema` argument\n       the arguments are `transports`, written `transports = [\"amqp_rpc\"]`,\n       and `non_exhaustive`, written bare"@
}

pub open spec fn written_shape_message() -> Seq<char> {
    "service_schema: `transports` takes a bracketed list of transport names\n       write `transports = [\"amqp_rpc\"]`, or `transports = []` for none"@
}

pub open spec fn bare_flag_message() -> Seq<char> {
    "service_schema: `non_exhaustive` is a bare flag and takes no value\n       write `non_exhaustive`, and leave it out for the exhaustive generated types"@
}

pub open spec fn known_transports_listed() -> Seq<char> {
    "`amqp_rpc`, `http_rest`, `ws_rpc`"@
}

pub open spec fn unknown_transport_message_seq(written: Seq<char>) -> Seq<char> {
    "service_schema: `"@ + written + "` is not a transport this version knows\n       known transports: "@
        + known_transports_listed()
}

/// A refusal as the values it holds.
pub open spec fn refusal_view(refusal: Refusal) -> (proc_macro2::Span, Seq<char>) {
    (refusal.span, refusal.message@)
}

/// One element of a `transports` list read: the transport it names, or the refusal it earns.
pub open spec fn element_reading(element: WrittenElement) -> Result<Transport, (proc_macro2::Span, Seq<char>)> {
    match element.text {
        None => Err((element.span, written_shape_message())),
        Some(text) => match transport_named(text@) {
            Some(transport) => Ok(transport),
            None => Err((element.span, unknown_transport_message_seq(text@))),
        },
    }
}

/// The elements of a `transports` list read in order, appended to `asked`, stopping at the first
/// refusal.
pub open spec fn elements_reading(asked: Seq<Transport>, elements: Seq<WrittenElement>) -> Result<
    Seq<Transport>,
    (proc_macro2::Span, Seq<char>),
>
    decreases elements.len(),
{
    if elements.len() == 0 {
        Ok(asked)
    } else {
        match elements_reading(asked, elements.drop_last()) {
            Err(refused) => Err(refused),
            Ok(read) => match element_reading(elements.last()) {
                Err(refused) => Err(refused),
                Ok(transport) => Ok(read.push(transport)),
            },
        }
    }
}

/// What one argument does to what was asked for so far: the flag set, the list appended, or the
/// refusal it earns.
pub open spec fn argument_reading(asked: (bool, Seq<Transport>), argument: WrittenArgument) -> Result<
    (bool, Seq<Transport>),
    (proc_macro2::Span, Seq<char>),
> {
    match argument.name {
        Some(name) if name@ == transports_argument() => match argument.value {
            WrittenValue::Valued { span, elements, .. } => match elements {
                Some(listed) => match elements_reading(asked.1, listed@) {
                    Ok(read) => Ok((asked.0, read)),
                    Err(refused) => Err(refused),
                },
                None => Err((span, written_shape_message())),
            },
            _ => Err((argument.name_span, written_shape_message())),
        },
        Some(name) if name@ == non_exhaustive_argument() => match argument.value {
            WrittenValue::Bare => Ok((true, asked.1)),
            _ => Err((argument.name_span, bare_flag_message())),
        },
        _ => Err((argument.name_span, unknown_argument_message())),
    }
}

/// The arguments read in the order they were written, stopping at the first refusal.
pub open spec fn arguments_reading(written: Seq<WrittenArgument>) -> Result<
    (bool, Seq<Transport>),
    (proc_macro2::Span, Seq<char>),
>
    decreases written.len(),
{
    if written.len() == 0 {
        Ok((false, Seq::empty()))
    } else {
        match arguments_reading(written.drop_last()) {
            Err(refused) => Err(refused),
            Ok(asked) => argument_reading(asked, written.last()),
        }
    }
}

/// What an unknown transport's refusal says: the name the service wrote, and every name it could
/// have written instead.
pub fn unknown_transport_message(written: &str) -> (r: String)
    ensures
        r@ == unknown_transport_message_seq(written@),
{
    let mut known = String::new();
    let mut i: usize = 0;
    while i < 3
        invariant
            0 <= i <= 3,
            i == 0 ==> known@ == Seq::<char>::empty(),
            i == 1 ==> known@ == "`amqp_rpc`"@,
            i == 2 ==> known@ == "`amqp_rpc`, `http_rest`"@,
            i == 3 ==> known@ == known_transports_listed(),
        decreases 3 - i,
    {
        let transport = Transport::KNOWN[i];
        if i > 0 {
            known.append(", ");
        }
        known.append("`");
        known.append(transport.name());
        known.append("`");
        proof {
            reveal_strlit("`");
            reveal_strlit(", ");
            reveal_strlit("amqp_rpc");
            reveal_strlit("http_rest");
            reveal_strlit("ws_rpc");
            reveal_strlit("`amqp_rpc`");
            reveal_strlit("`amqp_rpc`, `http_rest`");
            reveal_strlit("`amqp_rpc`, `http_rest`, `ws_rpc`");
            assert(known@ =~= if i == 0 {
                "`amqp_rpc`"@
            } else if i == 1 {
                "`amqp_rpc`, `http_rest`"@
            } else {
                "`amqp_rpc`, `http_rest`, `ws_rpc`"@
            });
        }
        i = i + 1;
    }
    let mut message = String::from_str("service_schema: `");
    message.append(written);
    message.append("` is not a transport this version knows\n       known transports: ");
    message.append(known.as_str());
    message
}

fn refusal(span: proc_macro2::Span, message: String) -> (r: Refusal)
    ensures
        r.span == span,
        r.message@ == message@,
{
    Refusal { span, message }
}

/// Reads the elements of a written `transports` list into `asked`, in order.
fn read_elements(asked: &mut Vec<Transport>, elements: &Vec<WrittenElement>) -> (r: Result<(), Refusal>)
    ensures
        match elements_reading(old(asked)@, elements@) {
            Ok(read) => r is Ok && final(asked)@ == read,
            Err(refused) => r matches Err(given) && refusal_view(given) == refused,
        },
{
    let ghost start = asked@;
    let mut i: usize = 0;
    while i < elements.len()
        invariant
            0 <= i <= elements@.len(),
            start == old(asked)@,
            elements_reading(start, elements@.take(i as int)) == Ok::<Seq<Transport>, (proc_macro2::Span, Seq<char>)>(asked@),
        decreases elements@.len() - i,
    {
        let element = &elements[i];
        proof {
            let p = elements@.take(i + 1);
            assert(p.drop_last() == elements@.take(i as int));
            assert(p.last() == *element);
            lemma_elements_reading_stops(start, elements@, i as int + 1);
        }
        match &element.text {
            None => {
                let given = refusal(element.span, string_of(written_shape_text()));
                assert(elements_reading(start, elements@.take(i + 1)) == Err::<Seq<Transport>, (proc_macro2::Span, Seq<char>)>(refusal_view(given)));
                return Err(given);
            },
            Some(text) => match Transport::from_name(text.as_str()) {
                Some(transport) => {
                    asked.push(transport);
                },
                None => {
                    let given = refusal(element.span, unknown_transport_message(text.as_str()));
                    assert(elements_reading(start, elements@.take(i + 1)) == Err::<Seq<Transport>, (proc_macro2::Span, Seq<char>)>(refusal_view(given)));
                    return Err(given);
                },
            },
        }
        i = i + 1;
    }
    assert(elements@.take(elements@.len() as int) == elements@);
    Ok(())
}

/// A reading that fails on a prefix fails the same way on the whole list.
proof fn lemma_elements_reading_stops(asked: Seq<Transport>, elements: Seq<WrittenElement>, i: int)
    requires
        0 <= i <= elements.len(),
    ensures
        elements_reading(asked, elements.take(i)) is Err ==> elements_reading(asked, elements)
            == elements_reading(asked, elements.take(i)),
    decreases elements.len() - i,
{
    if i < elements.len() {
        lemma_elements_reading_stops(asked, elements, i + 1);
        let p = elements.take(i + 1);
        assert(p.drop_last() == elements.take(i));
    } else {
        assert(elements.take(i) == elements);
    }
}

/// A reading that fails on a prefix fails the same way on the whole list.
proof fn lemma_arguments_reading_stops(written: Seq<WrittenArgument>, i: int)
    requires
        0 <= i <= written.len(),
    ensures
        arguments_reading(written.take(i)) is Err ==> arguments_reading(written)
            == arguments_reading(written.take(i)),
    decreases written.len() - i,
{
    if i < written.len() {
        lemma_arguments_reading_stops(written, i + 1);
        let p = written.take(i + 1);
        assert(p.drop_last() == written.take(i));
    } else {
        assert(written.take(i) == written);
    }
}

fn written_shape_text() -> (r: &'static str)
    ensures
        r@ == written_shape_message(),
{
    "service_schema: `transports` takes a bracketed list of transport names\n       write `transports = [\"amqp_rpc\"]`, or `transports = []` for none"
}

fn string_of(s: &str) -> (r: String)
    ensures
        r@ == s@,
{
    s.to_owned()
}

/// Reads an attribute's written arguments into what the service asked for, or the first refusal
/// they earn: a `transports` value that is not a bracketed list of strings, a name no transport
/// answers to, a `non_exhaustive` written with a value, or an argument the attribute does not
/// take.
pub fn read_arguments(written: &Vec<WrittenArgument>) -> (r: Result<ServiceArguments, Refusal>)
    ensures
        match arguments_reading(written@) {
            Ok((non_exhaustive, transports)) => r matches Ok(read) && read.non_exhaustive
                == non_exhaustive && read.transports@ == transports,
            Err(refused) => r matches Err(given) && refusal_view(given) == refused,
        },
{
    let mut non_exhaustive = false;
    let mut transports: Vec<Transport> = Vec::new();
    let mut i: usize = 0;
    while i < written.len()
        invariant
            0 <= i <= written@.len(),
            arguments_reading(written@.take(i as int)) == Ok::<(bool, Seq<Transport>), (proc_macro2::Span, Seq<char>)>((non_exhaustive, transports@)),
        decreases written@.len() - i,
    {
        let argument = &written[i];
        proof {
            let p = written@.take(i + 1);
            assert(p.drop_last() == written@.take(i as int));
            assert(p.last() == *argument);
            lemma_arguments_reading_stops(written@, i as int + 1);
        }
        let named_transports = match &argument.name {
            Some(name) => str_eq(name.as_str(), "transports"),
            None => false,
        };
        let named_flag = match &argument.name {
            Some(name) => str_eq(name.as_str(), "non_exhaustive"),
            None => false,
        };
        if named_transports {
            match &argument.value {
                WrittenValue::Valued { span, elements, .. } => match elements {
                    Some(listed) => {
                        let read = read_elements(&mut transports, listed);
                        if let Err(refused) = read {
                            return Err(refused);
                        }
                    },
                    None => {
                        return Err(refusal(*span, string_of(written_shape_text())));
                    },
                },
                _ => {
                    return Err(refusal(argument.name_span, string_of(written_shape_text())));
                },
            }
        } else if named_flag {
            match &argument.value {
                WrittenValue::Bare => {
                    non_exhaustive = true;
                },
                _ => {
                    return Err(
                        refusal(
                            argument.name_span,
                            string_of(
                                "service_schema: `non_exhaustive` is a bare flag and takes no value\n       write `non_exhaustive`, and leave it out for the exhaustive generated types",
                            ),
                        ),
                    );
                },
            }
        } else {
            return Err(
                refusal(
                    argument.name_span,
                    string_of(
                        "service_schema: unknown `service_schema` argument\n       the arguments are `transports`, written `transports = [\"amqp_rpc\"]`,\n       and `non_exhaustive`, written bare",
                    ),
                ),
            );
        }
        i = i + 1;
    }
    assert(written@.take(written@.len() as int) == written@);
    Ok(ServiceArguments { non_exhaustive, transports })
}

/// Reads `#[service_schema(...)]`'s own arguments into what the service asked for.
///
/// A bare `#[service_schema]` and an empty `#[service_schema()]` ask for nothing, and so does
/// `transports = []`. Anything else the attribute carries is refused rather than dropped, so a
/// service cannot ask for a transport this version does not have and be handed silence.
/// What is read is what [`read_arguments`] reads of the arguments as they were written.
pub fn parse_arguments(args: proc_macro2::TokenStream) -> (r: Result<ServiceArguments, syn::Error>)
    ensures
        match parsed_meta_list(args) {
            None => r is Err,
            Some(metas) => exists|written: Seq<WrittenArgument>|
                #[trigger] written_arguments_of(written, metas) && match arguments_reading(written) {
                    Ok((non_exhaustive, transports)) => r matches Ok(read) && read.non_exhaustive
                        == non_exhaustive && read.transports@ == transports,
                    Err((span, message)) => r matches Err(error) && error_messages_of(error) == seq![
                        (span, span, message),
                    ],
                },
        },
{
    let written = written_arguments(args)?;
    let r = match read_arguments(&written) {
        Ok(read) => Ok(read),
        Err(refused) => Err(error_at(refused.span, refused.message.as_str())),
    };
    assert(written_arguments_of(written@, parsed_meta_list(args)->Some_0));
    r
}


/// Where the `non_exhaustive` flag and the `transports` list are both written, the order they are
/// written in does not change what is read — unless both are refused, when the first is reported.
pub proof fn lemma_argument_order_does_not_change_what_is_read(
    flag: WrittenArgument,
    list: WrittenArgument,
)
    requires
        flag.name matches Some(name) && name@ == non_exhaustive_argument(),
        list.name matches Some(name) && name@ == transports_argument(),
        argument_reading((false, Seq::empty()), flag) is Ok || argument_reading(
            (false, Seq::empty()),
            list,
        ) is Ok,
    ensures
        arguments_reading(seq![flag, list]) == arguments_reading(seq![list, flag]),
{
    reveal_strlit("transports");
    reveal_strlit("non_exhaustive");
    let none = Seq::<Transport>::empty();
    let flag_name = flag.name->Some_0;
    assert(flag_name@ == non_exhaustive_argument());
    assert(flag_name@ != transports_argument()) by {
        assert(flag_name@.len() != transports_argument().len());
    }
    let flag_alone = argument_reading((false, none), flag);
    let list_alone = argument_reading((false, none), list);
    assert(seq![flag, list].drop_last() =~= seq![flag]);
    assert(seq![list, flag].drop_last() =~= seq![list]);
    assert(seq![flag].drop_last() =~= Seq::<WrittenArgument>::empty());
    assert(seq![list].drop_last() =~= Seq::<WrittenArgument>::empty());
    assert(seq![flag].last() == flag);
    assert(seq![list].last() == list);
    assert(seq![flag, list].last() == list);
    assert(seq![list, flag].last() == flag);
    assert(arguments_reading(Seq::<WrittenArgument>::empty()) == Ok::<
        (bool, Seq<Transport>),
        (proc_macro2::Span, Seq<char>),
    >((false, none)));
    assert(arguments_reading(seq![flag]) == flag_alone);
    assert(arguments_reading(seq![list]) == list_alone);
    assert(argument_reading((true, none), list) == match list_alone {
        Ok(read) => Ok::<(bool, Seq<Transport>), (proc_macro2::Span, Seq<char>)>((true, read.1)),
        Err(refused) => Err(refused),
    });
    match list_alone {
        Ok(read) => {
            assert(argument_reading(read, flag) == match flag_alone {
                Ok(_) => Ok::<(bool, Seq<Transport>), (proc_macro2::Span, Seq<char>)>((true, read.1)),
                Err(refused) => Err(refused),
            });
        },
        Err(_) => {},
    }
}

/// Whether a transport has an emitter that writes a dispatcher for it.
pub open spec fn has_dispatcher(transport: Transport) -> bool {
    transport is AmqpRpc || transport is WsRpc
}

/// The transports among `asked` that have a dispatcher, in the order they were asked for.
pub open spec fn dispatched_seq(asked: Seq<Transport>) -> Seq<Transport>
    decreases asked.len(),
{
    if asked.len() == 0 {
        Seq::empty()
    } else if has_dispatcher(asked.last()) {
        dispatched_seq(asked.drop_last()).push(asked.last())
    } else {
        dispatched_seq(asked.drop_last())
    }
}

/// The transports a service asked for that a dispatcher is written for, in the order it wrote
/// them: `amqp_rpc` and `ws_rpc` have one, `http_rest` has none yet.
pub fn dispatched_transports(asked: &Vec<Transport>) -> (r: Vec<Transport>)
    ensures
        r@ == dispatched_seq(asked@),
{
    let mut r: Vec<Transport> = Vec::new();
    let mut i: usize = 0;
    while i < asked.len()
        invariant
            0 <= i <= asked@.len(),
            r@ == dispatched_seq(asked@.take(i as int)),
        decreases asked@.len() - i,
    {
        assert(asked@.take(i + 1).drop_last() == asked@.take(i as int));
        assert(asked@.take(i + 1).last() == asked@[i as int]);
        let transport = asked[i];
        match transport {
            Transport::AmqpRpc | Transport::WsRpc => r.push(transport),
            Transport::HttpRest => {},
        }
        i = i + 1;
    }
    assert(asked@.take(asked@.len() as int) == asked@);
    r
}

} // verus!
