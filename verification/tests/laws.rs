use tixschema::rename_rule::RenameRule;
use tixschema::service_schema::client::method_doc;
use tixschema::service_schema::messages::cost_note;
use tixschema::service_schema::support::{fault_fields_typescript_name, module_name};
use tixschema::service_schema::transport::read_arguments;
use tixschema::utils::docs::{doc_lines, lines_of};
use tixschema::utils::{
    extract_example_from_docs, strip_examples_from_docs, escape_js_regex_literal, lookup_alias_info, register_alias_info, to_snake_case,
    trivial_pattern, AliasKind, AliasRegistry,
};

#[test]
fn escaping_an_escaped_pattern_changes_nothing() {
    for pattern in [
        "/",
        r"\/",
        "a\nb",
        "a\\\nb",
        "\u{2028}/\u{2029}",
        r"^\d+/\w*$",
        "\\",
        "ends with a backslash\\",
    ] {
        let once = escape_js_regex_literal(pattern);
        assert_eq!(escape_js_regex_literal(&once), once, "for {pattern:?}");
        assert!(
            !once.contains(['\n', '\r', '\u{2028}', '\u{2029}']),
            "{once:?} still carries a raw line terminator"
        );
    }
}

#[test]
fn every_supported_mode_reads_back_its_rule() {
    for rule in [
        RenameRule::LowerCase,
        RenameRule::UpperCase,
        RenameRule::PascalCase,
        RenameRule::CamelCase,
        RenameRule::SnakeCase,
        RenameRule::ScreamingSnakeCase,
        RenameRule::KebabCase,
        RenameRule::ScreamingKebabCase,
    ] {
        assert_eq!(RenameRule::from_mode(rule.mode()), Some(rule));
    }
}

#[test]
fn snake_casing_a_snake_cased_name_changes_nothing() {
    for name in ["UserProfile", "HTTPServer", "already_snake", "Base64Payload", ""] {
        let once = to_snake_case(name);
        assert_eq!(to_snake_case(&once), once, "for {name}");
    }
    assert_eq!(to_snake_case("UserProfile"), "user_profile");
}

#[test]
fn a_lookup_reads_back_the_last_registration() {
    let mut registry = AliasRegistry::new();
    assert!(lookup_alias_info(&registry, "Key").is_none());
    register_alias_info(&mut registry, "Key", "KeyType", "key_schema", AliasKind::Unknown);
    register_alias_info(&mut registry, "Other", "Other", "other_schema", AliasKind::StringWire);
    register_alias_info(&mut registry, "Key", "Renamed", "key_schema", AliasKind::EnumMembers);
    let key = lookup_alias_info(&registry, "Key").unwrap();
    assert_eq!(key.export_name, "Renamed");
    assert_eq!(key.kind, AliasKind::EnumMembers);
    let other = lookup_alias_info(&registry, "Other").unwrap();
    assert_eq!(other.export_name, "Other");
    assert_eq!(other.module_name, "other_schema");
    assert_eq!(other.kind, AliasKind::StringWire);
}

#[test]
fn a_text_test_never_admits_every_value() {
    for pattern in ["^$", "^abc$", "abc", "^/", "/$"] {
        assert!(trivial_pattern(pattern).is_some(), "{pattern}");
    }
}

#[test]
fn the_argument_order_does_not_change_what_is_read_for_written_arguments() {
    let forward = tixschema::syntax::written_arguments(
        "non_exhaustive, transports = [\"amqp_rpc\"]".parse().unwrap(),
    )
    .unwrap();
    let backward = tixschema::syntax::written_arguments(
        "transports = [\"amqp_rpc\"], non_exhaustive".parse().unwrap(),
    )
    .unwrap();
    let read_forward = read_arguments(&forward).ok().unwrap();
    let read_backward = read_arguments(&backward).ok().unwrap();
    assert_eq!(read_forward, read_backward);
    assert!(read_forward.non_exhaustive);
}

#[test]
fn the_generated_module_and_fault_names_follow_the_trait() {
    assert_eq!(module_name("UsageService"), "usage_service_schema");
    assert_eq!(module_name("HTTPGateway"), "h_t_t_p_gateway_schema");
    assert_eq!(
        fault_fields_typescript_name("UsageService"),
        "UsageServiceFaultFields"
    );
}

#[test]
fn an_empty_message_notes_how_it_grows() {
    let note = cost_note("sweep", true);
    assert_eq!(note.len(), 5);
    assert_eq!(
        note[0],
        " The message operation `sweep` receives, declared empty because the operation takes nothing after the context."
    );
    assert!(note[1].is_empty() && note[3].is_empty());
    let note = cost_note("expire_credit", false);
    assert_eq!(note.len(), 3);
    assert!(note[0].contains("declared from its argument list"));
    assert!(note[2].contains("renaming a parameter"));
}

#[test]
fn a_method_doc_names_the_wire_and_what_each_failure_means() {
    let reply = method_doc("get_balance", "get-balance", false);
    assert!(reply.starts_with(" Calls `get-balance` and waits for the answer."));
    assert!(reply.contains("is the error `get_balance` declared."));
    assert!(reply.ends_with("a call carries the message and nothing else."));
    let one_way = method_doc("purge", "purge", true);
    assert!(one_way.starts_with(" Sends `purge`, which expects no reply."));
    assert!(!one_way.contains("CallError"));
}

#[test]
fn lines_split_as_str_lines_does() {
    assert_eq!(lines_of("a\r\nb\n"), vec!["a".to_owned(), "b".to_owned()]);
    assert_eq!(lines_of("a\rb"), vec!["a\rb".to_owned()]);
    assert_eq!(lines_of("\n"), vec![String::new()]);
    assert!(lines_of("").is_empty());
    assert_eq!(
        doc_lines(&vec![" one\n  two ".to_owned(), " three".to_owned()]).unwrap(),
        vec!["one".to_owned(), "two".to_owned(), "three".to_owned()]
    );
    assert!(doc_lines(&vec![String::new()]).is_none());
}

#[test]
fn a_description_stripped_of_its_examples_carries_none() {
    let docs: Vec<String> = [
        "Described",
        "```rust example",
        "User { age: 25 }",
        "```",
        "Still described",
        "```rust example",
        "User { age: 30 }",
    ]
    .iter()
    .map(|line| (*line).to_owned())
    .collect();
    let stripped = tixschema::utils::strip_examples_from_docs(&docs);
    assert_eq!(stripped, vec!["Described".to_owned(), "Still described".to_owned()]);
    assert!(tixschema::utils::extract_example_from_docs(&stripped).is_none());
    assert_eq!(tixschema::utils::strip_examples_from_docs(&stripped), stripped);
}

#[test]
fn every_slash_an_escaped_pattern_holds_is_escaped() {
    assert_eq!(escape_js_regex_literal("a/b//c"), r"a\/b\/\/c");
    assert_eq!(escape_js_regex_literal(r"\\/"), r"\\\/");
}

#[test]
fn a_pattern_with_nothing_to_escape_comes_back_unchanged() {
    for pattern in [r"^\d{3}-\w+$", r"a\.b", "", r"\"] {
        assert_eq!(escape_js_regex_literal(pattern), pattern);
    }
}

#[test]
fn pascal_case_capitalises_each_piece_between_underscores() {
    assert_eq!(RenameRule::PascalCase.apply_to_field("a__bc_d"), "ABcD");
    assert_eq!(RenameRule::CamelCase.apply_to_field("_user_id"), "userId");
}

#[test]
fn stripping_takes_out_each_whole_block_and_keeps_the_rest_in_order() {
    let docs: Vec<String> = [
        "Intro.",
        "```rust example",
        "let a = 1;",
        "```",
        "Middle.",
        " * ```rust example",
        "let b = 2;",
    ]
    .iter()
    .map(|line| line.to_string())
    .collect();
    assert_eq!(strip_examples_from_docs(&docs), vec!["Intro.".to_owned(), "Middle.".to_owned()]);
}

#[test]
fn only_the_first_example_block_is_extracted() {
    let docs: Vec<String> = ["```rust example", "1", "```", "```rust example", "2", "```"]
        .iter()
        .map(|line| line.to_string())
        .collect();
    let first = extract_example_from_docs(&docs).unwrap();
    assert!(first.contains('1'));
    assert!(!first.contains('2'));
}
