//! The names a service's generated support module is published under.

use crate::rename_rule::{field_spelling, variant_spelling, RenameRule};
use crate::service_schema::transport::{transport_name, Transport};
use vstd::prelude::*;

verus! {

/// What the fault's fields publish as in TypeScript: `UsageService` becomes
/// `UsageServiceFaultFields`. It is also the ident the struct is declared under, so the
/// declaration and the sealed alias the TypeScript emitter writes over it read one spelling.
pub fn fault_fields_typescript_name(declared: &str) -> (r: String)
    ensures
        r@ == declared@ + "FaultFields"@,
{
    let mut r = String::from_str(declared);
    r.append("FaultFields");
    r
}

/// The module a service's generated types land in, spelled: the trait's name snake-cased under
/// the `_schema` suffix a `#[model_schema]` type's generated module carries.
pub open spec fn module_name_seq(declared: Seq<char>) -> Seq<char> {
    variant_spelling(RenameRule::SnakeCase, declared) + "_schema"@
}

/// The module a service's generated types land in: `UsageService` becomes
/// `usage_service_schema`. Derived through [`RenameRule`], as the other spellings of an
/// operation's name are.
pub fn module_name(declared: &str) -> (r: String)
    ensures
        r@ == module_name_seq(declared@),
{
    let mut r = RenameRule::SnakeCase.apply_to_variant(declared);
    r.append("_schema");
    r
}

/// The client a service's callers hold: `UsageService` becomes `UsageServiceClient`.
pub fn client_name(contract: &str) -> (r: String)
    ensures
        r@ == contract@ + "Client"@,
{
    let mut r = String::from_str(contract);
    r.append("Client");
    r
}

/// Which kind of defect a service's fault reports: `UsageService` becomes
/// `UsageServiceFaultKind`.
pub fn fault_kind_name(declared: &str) -> (r: String)
    ensures
        r@ == declared@ + "FaultKind"@,
{
    let mut r = String::from_str(declared);
    r.append("FaultKind");
    r
}

/// The alias the dispatcher reaches an operation's message through: `get_available_balance`
/// becomes `GetAvailableBalanceMessage`.
pub fn message_alias_name(operation: &str) -> (r: String)
    ensures
        r@ == field_spelling(RenameRule::PascalCase, operation@) + "Message"@,
{
    let mut r = RenameRule::PascalCase.apply_to_field(operation);
    r.append("Message");
    r
}

/// The validator the dispatcher runs an operation's message through: `get_available_balance`
/// becomes `validate_get_available_balance`.
pub fn message_validator_name(operation: &str) -> (r: String)
    ensures
        r@ == "validate_"@ + operation@,
{
    let mut r = String::from_str("validate_");
    r.append(operation);
    r
}

/// The inert macro carrying a service's dispatcher for one transport: `UsageService` over
/// `amqp_rpc` becomes `usage_service_amqp_rpc_dispatcher`.
pub fn dispatcher_macro_name(service: &str, transport: Transport) -> (r: String)
    ensures
        r@ == variant_spelling(RenameRule::SnakeCase, service@) + "_"@ + transport_name(transport)
            + "_dispatcher"@,
{
    let mut r = RenameRule::SnakeCase.apply_to_variant(service);
    r.append("_");
    r.append(transport.name());
    r.append("_dispatcher");
    r
}

} // verus!
