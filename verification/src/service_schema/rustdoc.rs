//! The documentation written onto the items a service generates, spelled once here.

use vstd::prelude::*;

verus! {

/// The documentation of the inert macro carrying a service's dispatcher for one transport.
pub open spec fn dispatcher_macro_doc_seq(contract: Seq<char>, transport: Seq<char>) -> Seq<char> {
    "The `"@ + contract + "` dispatcher for the `"@ + transport + "` transport, held as tokens rather than compiled here.\n\nIt takes no arguments and emits bare items — `IncomingMessage`, the panic guard and `dispatch` — so the caller supplies the module they land in and two transports in one crate cannot collide. The invoking crate names `serde_json` and `tracing` in its own manifest, because the items below call them."@
}

/// The documentation of the inert macro carrying a service's dispatcher for one transport.
pub fn dispatcher_macro_doc(contract: &str, transport: &str) -> (r: String)
    ensures
        r@ == dispatcher_macro_doc_seq(contract@, transport@),
{
    let mut r = String::from_str("The `");
    r.append(contract);
    r.append("` dispatcher for the `");
    r.append(transport);
    r.append("` transport, held as tokens rather than compiled here.\n\nIt takes no arguments and emits bare items — `IncomingMessage`, the panic guard and `dispatch` — so the caller supplies the module they land in and two transports in one crate cannot collide. The invoking crate names `serde_json` and `tracing` in its own manifest, because the items below call them.");
    r
}

/// The documentation of the generated `dispatch` function.
pub open spec fn dispatch_doc_seq(contract: Seq<char>) -> Seq<char> {
    "Turns one incoming message into a call on a `"@ + contract + "` implementation, and settles it.\n\nIt answers through `reply` rather than returning anything, so nothing has to represent \"no reply\" and an answer cannot reach the wrong message. The operation is matched from [`IncomingMessage::operation`], which the transport read off the wire beside the payload; it is never read out of the payload itself.\n\nGeneric over the implementing type rather than taking `&dyn "@ + contract + "`: a trait whose methods are `async` is not dyn compatible, so there is no such form to offer. The future it hands back carries nothing but `()`, written in the same `-> impl Future + Send` desugaring the trait itself is emitted in, so a consumer loop can spawn it."@
}

/// The documentation of the generated `dispatch` function.
pub fn dispatch_doc(contract: &str) -> (r: String)
    ensures
        r@ == dispatch_doc_seq(contract@),
{
    let mut r = String::from_str("Turns one incoming message into a call on a `");
    r.append(contract);
    r.append("` implementation, and settles it.\n\nIt answers through `reply` rather than returning anything, so nothing has to represent \"no reply\" and an answer cannot reach the wrong message. The operation is matched from [`IncomingMessage::operation`], which the transport read off the wire beside the payload; it is never read out of the payload itself.\n\nGeneric over the implementing type rather than taking `&dyn ");
    r.append(contract);
    r.append("`: a trait whose methods are `async` is not dyn compatible, so there is no such form to offer. The future it hands back carries nothing but `()`, written in the same `-> impl Future + Send` desugaring the trait itself is emitted in, so a consumer loop can spawn it.");
    r
}

/// The documentation of the generated client.
pub open spec fn client_doc_seq(contract: Seq<char>) -> Seq<char> {
    "A `"@ + contract + "` caller, over any transport that can send an operation name beside a payload.\n\nEvery operation on the trait has a method here, taking that operation's arguments and nothing else: the context is the implementation's and never reaches a caller. A request-and-reply operation answers `Result<Success, CallError<Error>>`; a one-way operation answers nothing beyond the send, save for the fault it owes when the message it was handed fails its own validation."@
}

/// The documentation of the generated client.
pub fn client_doc(contract: &str) -> (r: String)
    ensures
        r@ == client_doc_seq(contract@),
{
    let mut r = String::from_str("A `");
    r.append(contract);
    r.append("` caller, over any transport that can send an operation name beside a payload.\n\nEvery operation on the trait has a method here, taking that operation's arguments and nothing else: the context is the implementation's and never reaches a caller. A request-and-reply operation answers `Result<Success, CallError<Error>>`; a one-way operation answers nothing beyond the send, save for the fault it owes when the message it was handed fails its own validation.");
    r
}

/// The documentation of the `Transport` trait a client is bound through.
pub open spec fn transport_doc_seq(contract: Seq<char>) -> Seq<char> {
    "What binds a `"@ + contract + "` client to a bus.\n\nThe operation name travels beside the payload rather than inside it, so no message type has to reserve a key for routing. The payload is handed over as a value rather than as bytes, for the same reason [`Reply::send`] is: a transport merges its own fields — a correlation id, an error flag — into the object before serializing it, and neither is reachable behind an encoded buffer."@
}

/// The documentation of the `Transport` trait a client is bound through.
pub fn transport_doc(contract: &str) -> (r: String)
    ensures
        r@ == transport_doc_seq(contract@),
{
    let mut r = String::from_str("What binds a `");
    r.append(contract);
    r.append("` client to a bus.\n\nThe operation name travels beside the payload rather than inside it, so no message type has to reserve a key for routing. The payload is handed over as a value rather than as bytes, for the same reason [`Reply::send`] is: a transport merges its own fields — a correlation id, an error flag — into the object before serializing it, and neither is reachable behind an encoded buffer.");
    r
}

/// The documentation of the module a service's generated types land in.
pub open spec fn support_module_doc_seq(declared: Seq<char>) -> Seq<char> {
    "What `#[service_schema]` generates for [`"@ + declared + "`] beside the trait itself.\n\nEvery type here belongs to this service alone: the crate that declares `"@ + declared + "` owns them, and nothing is imported from tixschema at runtime."@
}

/// The documentation of the module a service's generated types land in.
pub fn support_module_doc(declared: &str) -> (r: String)
    ensures
        r@ == support_module_doc_seq(declared@),
{
    let mut r = String::from_str("What `#[service_schema]` generates for [`");
    r.append(declared);
    r.append("`] beside the trait itself.\n\nEvery type here belongs to this service alone: the crate that declares `");
    r.append(declared);
    r.append("` owns them, and nothing is imported from tixschema at runtime.");
    r
}

/// The documentation of `CallError`.
pub open spec fn call_error_doc_seq(declared: Seq<char>) -> Seq<char> {
    "What a `"@ + declared + "` client returns in the failure position, a call having three outcomes where `Result` has two arms."@
}

/// The documentation of `CallError`.
pub fn call_error_doc(declared: &str) -> (r: String)
    ensures
        r@ == call_error_doc_seq(declared@),
{
    let mut r = String::from_str("What a `");
    r.append(declared);
    r.append("` client returns in the failure position, a call having three outcomes where `Result` has two arms.");
    r
}

/// The documentation of the fault a service's defects are reported in.
pub open spec fn fault_doc_seq(declared: Seq<char>, fields: Seq<char>) -> Seq<char> {
    "A failure `"@ + declared + "` never declared: a payload that would not deserialize, a message that failed validation, an operation name nothing recognises, a handler that panicked, a call the transport could not carry.\n\nIt is a defect rather than a condition, so it is logged at error level and meant to page a human. No implementation of [`"@ + declared + "`] can produce one — an operation's signature admits only its own error type, and the constructors are private to this module, which only the generated dispatcher and the generated client are written inside.\n\nIn TypeScript this publishes as `"@ + fields + "`, which is the fault's fields and nothing else. What a caller reads there is `"@ + declared + "Fault`: those same fields under a brand the bundle declares and exports nowhere, so an object written by hand is not one. That brand is the TypeScript answer to the private constructors above."@
}

/// The documentation of the fault a service's defects are reported in.
pub fn fault_doc(declared: &str, fields: &str) -> (r: String)
    ensures
        r@ == fault_doc_seq(declared@, fields@),
{
    let mut r = String::from_str("A failure `");
    r.append(declared);
    r.append("` never declared: a payload that would not deserialize, a message that failed validation, an operation name nothing recognises, a handler that panicked, a call the transport could not carry.\n\nIt is a defect rather than a condition, so it is logged at error level and meant to page a human. No implementation of [`");
    r.append(declared);
    r.append("`] can produce one — an operation's signature admits only its own error type, and the constructors are private to this module, which only the generated dispatcher and the generated client are written inside.\n\nIn TypeScript this publishes as `");
    r.append(fields);
    r.append("`, which is the fault's fields and nothing else. What a caller reads there is `");
    r.append(declared);
    r.append("Fault`: those same fields under a brand the bundle declares and exports nowhere, so an object written by hand is not one. That brand is the TypeScript answer to the private constructors above.");
    r
}

/// The documentation of the fault's kind.
pub open spec fn fault_kind_doc_seq(declared: Seq<char>) -> Seq<char> {
    "Which kind of defect a `"@ + declared + "` fault reports."@
}

/// The documentation of the fault's kind.
pub fn fault_kind_doc(declared: &str) -> (r: String)
    ensures
        r@ == fault_kind_doc_seq(declared@),
{
    let mut r = String::from_str("Which kind of defect a `");
    r.append(declared);
    r.append("` fault reports.");
    r
}

/// The documentation of `ServiceFault`, the alias the generated code names the fault by.
pub open spec fn fault_alias_doc_seq(fields: Seq<char>) -> Seq<char> {
    "The fault under the name everything generated inside this module writes. `"@ + fields + "` is the same type, declared under the name its *fields* are published as in TypeScript — this module is the scope TypeScript has no equivalent of."@
}

/// The documentation of `ServiceFault`, the alias the generated code names the fault by.
pub fn fault_alias_doc(fields: &str) -> (r: String)
    ensures
        r@ == fault_alias_doc_seq(fields@),
{
    let mut r = String::from_str("The fault under the name everything generated inside this module writes. `");
    r.append(fields);
    r.append("` is the same type, declared under the name its *fields* are published as in TypeScript — this module is the scope TypeScript has no equivalent of.");
    r
}

/// The documentation of `ServiceFaultKind`, the alias of the fault's kind.
pub open spec fn fault_kind_alias_doc_seq(kind: Seq<char>) -> Seq<char> {
    "Which kind of defect a [`ServiceFault`] reports. The same type as [`"@ + kind + "`]."@
}

/// The documentation of `ServiceFaultKind`, the alias of the fault's kind.
pub fn fault_kind_alias_doc(kind: &str) -> (r: String)
    ensures
        r@ == fault_kind_alias_doc_seq(kind@),
{
    let mut r = String::from_str("Which kind of defect a [`ServiceFault`] reports. The same type as [`");
    r.append(kind);
    r.append("`].");
    r
}

/// The documentation of the `Reply` trait a transport hands the dispatcher.
pub open spec fn reply_doc_seq(declared: Seq<char>) -> Seq<char> {
    "The handle a transport gives the `"@ + declared + "` dispatcher so it can settle *this* message.\n\nA request-and-reply operation answers with [`send`](Reply::send) or [`fault`](Reply::fault). A one-way operation calls neither, and the transport acknowledges the delivery after dispatch returns. Encoding sits behind the trait, which is what keeps the generator out of the wire format."@
}

/// The documentation of the `Reply` trait a transport hands the dispatcher.
pub fn reply_doc(declared: &str) -> (r: String)
    ensures
        r@ == reply_doc_seq(declared@),
{
    let mut r = String::from_str("The handle a transport gives the `");
    r.append(declared);
    r.append("` dispatcher so it can settle *this* message.\n\nA request-and-reply operation answers with [`send`](Reply::send) or [`fault`](Reply::fault). A one-way operation calls neither, and the transport acknowledges the delivery after dispatch returns. Encoding sits behind the trait, which is what keeps the generator out of the wire format.");
    r
}

} // verus!
