use syn::ItemTrait;
use tixschema::service_schema::declared::declared_service;
use tixschema::service_schema::parse::{
    OperationInputs, OperationOutcome, Refused, service_of, text_names_word,
};
use tixschema::service_schema::rustdoc::{fault_kind_doc, support_module_doc};
use tixschema::service_schema::support::{
    client_name, dispatcher_macro_name, fault_kind_name, message_alias_name, message_validator_name,
};
use tixschema::service_schema::transport::{Transport, dispatched_transports};
use tixschema::service_schema::{desugared_output, method_emission, read_service};

fn declared(source: &str) -> ItemTrait {
    syn::parse_str::<ItemTrait>(source).unwrap()
}

fn written_messages(source: &str) -> Vec<String> {
    match service_of(&declared_service(&declared(source))) {
        Ok(_) => Vec::new(),
        Err(refusals) => refusals
            .iter()
            .map(|refused| match refused {
                Refused::Written(refusal) => refusal.message.clone(),
                Refused::Parsed(error) => error.to_string(),
            })
            .collect(),
    }
}

#[test]
fn a_trait_without_a_type_parameter_earns_that_refusal_alone() {
    let found = written_messages("pub trait UsageService { async fn sweep(&self); }");
    assert_eq!(
        found,
        vec![
            "service_schema: trait `UsageService` declares no context type parameter\n       \
             give it one, as in `trait UsageService<Ctx>`, and take it in every operation"
                .to_owned()
        ]
    );
}

#[test]
fn every_operation_refusal_comes_back_in_operation_order() {
    let found = written_messages(
        "pub trait UsageService<Ctx> {
            async fn apply_bundle(&self, ctx: &Ctx, req: ApplyBundleRequest);
            async fn sweep(&self, req: SweepRequest) -> Result<SweepReport, UsageError>;
        }",
    );
    assert_eq!(found.len(), 2);
    assert!(found[0].starts_with("service_schema: operation `apply_bundle` has no return type"));
    assert!(found[1].starts_with("service_schema: operation `sweep` does not take the context"));
}

#[test]
fn a_result_arm_carrying_the_context_is_refused_once() {
    let found = written_messages(
        "pub trait UsageService<Ctx> {
            async fn sweep(&self, ctx: &Ctx, req: SweepRequest) -> Result<Ctx, UsageError>;
        }",
    );
    assert_eq!(
        found,
        vec![
            "service_schema: operation `sweep` puts the context type `Ctx` on the wire\n       \
             the context reaches no message and no schema, so it belongs in neither the arguments \
             nor either result arm"
                .to_owned()
        ]
    );
}

#[test]
fn the_inputs_are_read_by_how_many_arguments_follow_the_context() {
    let service = service_of(&declared_service(&declared(
        "pub trait UsageService<Ctx> {
            async fn one(&self, ctx: &Ctx, req: OneRequest) -> Result<One, UsageError>;
            async fn two(&self, ctx: &Ctx, a: A, b: B) -> Result<Two, UsageError>;
            async fn none(&self, ctx: &Ctx) -> Result<NoneReply, UsageError>;
            #[service_schema_op(one_way)]
            async fn fire(&self, ctx: &Ctx);
        }",
    )))
    .ok()
    .unwrap();
    assert!(matches!(service.operations[0].inputs, OperationInputs::Named(_)));
    match &service.operations[1].inputs {
        OperationInputs::Generated(carried) => {
            let names: Vec<String> = carried.iter().map(|(name, _)| name.to_string()).collect();
            assert_eq!(names, vec!["a".to_owned(), "b".to_owned()]);
        }
        _ => panic!("two arguments are carried"),
    }
    assert!(matches!(service.operations[2].inputs, OperationInputs::Empty));
    assert!(matches!(service.operations[3].outcome, OperationOutcome::OneWay));
    assert!(matches!(service.operations[0].outcome, OperationOutcome::Reply { .. }));
    assert_eq!(service.generated_messages.len(), 3);
}

#[test]
fn an_async_method_is_desugared_and_a_directive_dropped() {
    let names = vec![Some("doc".to_owned()), Some("service_schema_op".to_owned()), None];
    let emission = method_emission(&names, true, &Some("Result < A , B >".to_owned()));
    assert_eq!(emission.kept, vec![0, 2]);
    assert_eq!(
        emission.output,
        Some("-> impl ::core::future::Future<Output = Result < A , B >> + Send".to_owned())
    );
    let plain = method_emission(&names, false, &None);
    assert_eq!(plain.output, None);
}

#[test]
fn an_unwritten_return_type_is_desugared_to_unit() {
    assert_eq!(
        desugared_output(&None),
        "-> impl ::core::future::Future<Output = ()> + Send"
    );
}

#[test]
fn only_transports_with_a_dispatcher_are_dispatched_in_written_order() {
    let asked = vec![Transport::WsRpc, Transport::HttpRest, Transport::AmqpRpc, Transport::WsRpc];
    assert_eq!(
        dispatched_transports(&asked),
        vec![Transport::WsRpc, Transport::AmqpRpc, Transport::WsRpc]
    );
}

#[test]
fn the_generated_names_follow_their_conventions() {
    assert_eq!(client_name("UsageService"), "UsageServiceClient");
    assert_eq!(fault_kind_name("UsageService"), "UsageServiceFaultKind");
    assert_eq!(message_alias_name("get_available_balance"), "GetAvailableBalanceMessage");
    assert_eq!(message_validator_name("get_available_balance"), "validate_get_available_balance");
    assert_eq!(
        dispatcher_macro_name("UsageService", Transport::AmqpRpc),
        "usage_service_amqp_rpc_dispatcher"
    );
}

#[test]
fn tokens_that_are_not_a_trait_are_refused_and_a_trait_is_read() {
    assert!(read_service("struct NotATrait;".parse().unwrap()).is_err());
    let (emitted, read) = read_service(
        "pub trait UsageService<Ctx> { async fn sweep(&self, ctx: &Ctx) -> Result<SweepReport, UsageError>; }"
            .parse()
            .unwrap(),
    )
    .ok()
    .unwrap();
    assert_eq!(emitted.ident.to_string(), "UsageService");
    assert_eq!(read.ok().unwrap().operations[0].wire_name, "sweep");
}

#[test]
fn the_context_is_found_as_an_identifier_token_only() {
    assert!(text_names_word("Vec < Ctx >", "Ctx"));
    assert!(text_names_word("Ctx", "Ctx"));
    assert!(!text_names_word("r#Ctx", "Ctx"));
    assert!(!text_names_word("label ! (\"Ctx\")", "Ctx"));
    assert!(!text_names_word("CtxHolder", "Ctx"));
    assert!(text_names_word("label ! (\"a \\\" b\") < Ctx >", "Ctx"));
}

#[test]
fn the_generated_documentation_names_the_service() {
    assert_eq!(fault_kind_doc("UsageService"), "Which kind of defect a `UsageService` fault reports.");
    assert!(support_module_doc("UsageService")
        .starts_with("What `#[service_schema]` generates for [`UsageService`] beside the trait itself."));
}

#[test]
fn a_refused_pattern_carries_the_spelling_s_own_words() {
    let literal: syn::LitStr = syn::parse_str("\"(?=a)\"").unwrap();
    let message = tixschema::utils::portable::portable_spelling("(?=a)").err().unwrap();
    let error = tixschema::utils::portable_pattern(&literal).err().unwrap();
    assert_eq!(error.to_string(), message);
}

#[test]
fn every_refusal_of_a_service_is_one_message_of_its_error_in_order() {
    let declared: ItemTrait = syn::parse_str(
        "pub trait UsageService<Ctx> {
            async fn apply_bundle(&self, ctx: &Ctx, req: ApplyBundleRequest);
            async fn sweep(&self, req: SweepRequest) -> Result<SweepReport, UsageError>;
        }",
    )
    .unwrap();
    let error = tixschema::service_schema::parse::parse_service(&declared).err().unwrap();
    let messages: Vec<String> = error.into_iter().map(|each| each.to_string()).collect();
    assert_eq!(messages, written_messages(
        "pub trait UsageService<Ctx> {
            async fn apply_bundle(&self, ctx: &Ctx, req: ApplyBundleRequest);
            async fn sweep(&self, req: SweepRequest) -> Result<SweepReport, UsageError>;
        }",
    ));
}
