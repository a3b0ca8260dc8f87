use tixschema::service_schema::parse::{
    across_operation_refusals, read_directive_arguments, read_inputs, result_arm_positions,
    InputShape, InputsRefusal, OperationReading, RefusalSite,
};
use tixschema::syntax::written_arguments;

fn typed(plain_name: bool, borrowed: Option<(bool, Option<&str>)>) -> InputShape {
    InputShape::Typed {
        plain_name,
        borrowed: borrowed.map(|(qualified, named)| (qualified, named.map(str::to_owned))),
    }
}

fn context() -> InputShape {
    typed(true, Some((false, Some("Ctx"))))
}

#[test]
fn inputs_are_read_into_the_positions_the_message_carries() {
    let shapes = vec![InputShape::Receiver, context(), typed(true, None), typed(true, None)];
    assert_eq!(read_inputs(&shapes, "Ctx").ok(), Some(vec![2, 3]));
    let shapes = vec![InputShape::Receiver, context()];
    assert_eq!(read_inputs(&shapes, "Ctx").ok(), Some(Vec::new()));
}

#[test]
fn each_way_inputs_can_be_wrong_is_refused_by_name() {
    assert_eq!(
        read_inputs(&vec![context()], "Ctx").err(),
        Some(InputsRefusal::MissingReceiver)
    );
    assert_eq!(
        read_inputs(&vec![InputShape::Receiver], "Ctx").err(),
        Some(InputsRefusal::MissingContext)
    );
    assert_eq!(
        read_inputs(&vec![InputShape::Receiver, typed(true, Some((false, Some("Other"))))], "Ctx").err(),
        Some(InputsRefusal::ContextNotBorrowed)
    );
    assert_eq!(
        read_inputs(&vec![InputShape::Receiver, typed(true, Some((true, Some("Ctx"))))], "Ctx").err(),
        Some(InputsRefusal::ContextNotBorrowed)
    );
    assert_eq!(
        read_inputs(
            &vec![InputShape::Receiver, context(), typed(true, None), typed(false, None)],
            "Ctx"
        )
        .err(),
        Some(InputsRefusal::UnnamedArgument(3))
    );
}

#[test]
fn a_result_names_its_arms_only_with_exactly_two_types() {
    assert_eq!(result_arm_positions("Result", &vec![true, true]), Some((0, 1)));
    assert_eq!(result_arm_positions("Result", &vec![false, true, true]), Some((1, 2)));
    assert_eq!(result_arm_positions("Result", &vec![true]), None);
    assert_eq!(result_arm_positions("Option", &vec![true, true]), None);
}

#[test]
fn directive_arguments_set_the_flag_and_the_override_in_order() {
    let arguments = written_arguments("one_way, message = \"renamed\"".parse().unwrap()).unwrap();
    let read = read_directive_arguments((None, false), &arguments).ok().unwrap();
    assert_eq!(read, (Some("renamed".to_owned()), true));
    let arguments = written_arguments("message = 3".parse().unwrap()).unwrap();
    let refusal = read_directive_arguments((None, false), &arguments).err().unwrap();
    assert_eq!(refusal.message, "expected string literal");
    let arguments = written_arguments("retries = 3".parse().unwrap()).unwrap();
    let refusal = read_directive_arguments((None, false), &arguments).err().unwrap();
    assert!(refusal.message.contains("unknown `service_schema_op` directive"));
}

fn reading(declared: &str, wire: &str, ts: &str, carried: &[&str]) -> OperationReading {
    OperationReading {
        declared: declared.to_owned(),
        wire: wire.to_owned(),
        ts: ts.to_owned(),
        carried: carried.iter().map(|text| (*text).to_owned()).collect(),
    }
}

#[test]
fn the_rules_across_operations_report_in_order_and_point_where_they_should() {
    let readings = vec![
        reading("get_a", "get-a", "getA", &["ARequest"]),
        reading("get__a", "get-a", "getA", &["Vec < Ctx >"]),
        reading("sweep", "sweep", "sweep", &["SweepRequest"]),
    ];
    let messages = vec![("SweepRequest".to_owned(), "sweep".to_owned())];
    let found = across_operation_refusals("Service", "Ctx", &readings, &messages);
    let sites: Vec<RefusalSite> = found.iter().map(|(site, _)| *site).collect();
    assert_eq!(
        sites,
        vec![
            RefusalSite::Operation(1),
            RefusalSite::Operation(1),
            RefusalSite::CarriedType(1, 0),
            RefusalSite::CarriedType(2, 0),
        ]
    );
    assert!(found[0].1.contains("carries the wire name `get-a` on two operations"));
    assert!(found[1].1.contains("spells two operations `getA` in TypeScript"));
    assert!(found[2].1.contains("puts the context type `Ctx` on the wire"));
    assert!(found[3].1.contains("names no message, so `SweepRequest` is declared for it"));
    let alone = vec![reading("get_a", "get-a", "getA", &["ARequest"])];
    assert!(across_operation_refusals("Service", "Ctx", &alone, &Vec::new()).is_empty());
}
