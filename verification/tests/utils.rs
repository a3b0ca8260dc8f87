use tixschema::utils::{
    compute_alias_export_name, compute_item_export_name, escape_js_regex_literal,
    ident_reexport_ts, ident_reexport_zod, ident_schema_module_name, strip_examples_from_docs,
    to_snake_case, zod_factory_argument,
};

#[test]
fn test_strip_examples_removes_example_blocks() {
    let docs = vec![
        "User profile".to_owned(),
        "Some description".to_owned(),
        "```rust example".to_owned(),
        "User { name: \"John\".to_string() }".to_owned(),
        "```".to_owned(),
        "More description".to_owned(),
    ];

    let result = strip_examples_from_docs(&docs);
    assert_eq!(result.len(), 3);
    assert_eq!(result[0], "User profile");
    assert_eq!(result[1], "Some description");
    assert_eq!(result[2], "More description");
}

#[test]
fn test_strip_examples_multiple_blocks() {
    let docs = vec![
        "Description".to_owned(),
        "```rust example".to_owned(),
        "Example 1".to_owned(),
        "```".to_owned(),
        "Between".to_owned(),
        "```rust example".to_owned(),
        "Example 2".to_owned(),
        "```".to_owned(),
        "End".to_owned(),
    ];

    let result = strip_examples_from_docs(&docs);
    assert_eq!(result.len(), 3);
    assert_eq!(result[0], "Description");
    assert_eq!(result[1], "Between");
    assert_eq!(result[2], "End");
}

#[test]
fn test_strip_examples_no_examples() {
    let docs = vec!["User profile".to_owned(), "Some description".to_owned()];

    let result = strip_examples_from_docs(&docs);
    assert_eq!(result.len(), 2);
    assert_eq!(result, docs);
}

#[test]
fn test_escape_js_regex_literal_escapes_a_bare_delimiter() {
    assert_eq!(escape_js_regex_literal("^/[a-z]+$"), r"^\/[a-z]+$");
    assert_eq!(escape_js_regex_literal("a/b/c"), r"a\/b\/c");
}

#[test]
fn test_escape_js_regex_literal_leaves_a_slashless_pattern_untouched() {
    assert_eq!(
        escape_js_regex_literal(r"^\d{3}\.\d{3}-\d{2}$"),
        r"^\d{3}\.\d{3}-\d{2}$"
    );
}

#[test]
fn test_escape_js_regex_literal_does_not_double_escape() {
    assert_eq!(escape_js_regex_literal(r"^\/[a-z]+$"), r"^\/[a-z]+$");
}

#[test]
fn test_escape_js_regex_literal_consumes_a_backslash_escape_whole() {
    assert_eq!(escape_js_regex_literal(r"^\\/x$"), r"^\\\/x$");
    assert_eq!(escape_js_regex_literal(r"trailing\"), r"trailing\");
}

#[test]
fn test_escape_js_regex_literal_escapes_every_raw_line_terminator() {
    assert_eq!(escape_js_regex_literal("^a\nb$"), r"^a\nb$");
    assert_eq!(escape_js_regex_literal("^a\rb$"), r"^a\rb$");
    assert_eq!(escape_js_regex_literal("^a\u{2028}b$"), r"^a\u2028b$");
    assert_eq!(escape_js_regex_literal("^a\u{2029}b$"), r"^a\u2029b$");
    assert_eq!(escape_js_regex_literal("a\r\nb"), r"a\r\nb");
}

#[test]
fn test_escape_js_regex_literal_leaves_an_authored_line_terminator_escape_alone() {
    assert_eq!(escape_js_regex_literal(r"^a\nb$"), r"^a\nb$");
    assert_eq!(escape_js_regex_literal(r"^a\u2028b$"), r"^a\u2028b$");
}

#[test]
fn test_escape_js_regex_literal_rewrites_an_identity_escaped_line_terminator() {
    assert_eq!(escape_js_regex_literal("^a\\\nb$"), r"^a\nb$");
    assert_eq!(escape_js_regex_literal("^a\\\\\nb$"), r"^a\\\nb$");
}

/// The module name a reference assumes for a name it has not seen and the one an alias goes on to
/// publish are the same call, so nothing the alias is written with can pull them apart: the `Type`
/// suffix an alias exports under and a `name = "…"` override both land on the export name only.
/// The `Json` suffix is still read through, that being what every reference already spells.
#[test]
fn ident_schema_module_name_is_derived_from_the_ident_alone() {
    assert_eq!(ident_schema_module_name("LaterAlias"), "later_alias_schema");
    assert_eq!(
        ident_schema_module_name("LaterAliasJson"),
        "later_alias_schema"
    );
    assert_eq!(
        compute_alias_export_name("LaterAlias", None),
        "LaterAliasType"
    );
    assert_eq!(
        compute_alias_export_name("LaterAlias", Some("Renamed")),
        "Renamed"
    );
}

/// A declared item's module used to be named from its export name, so the move is a move only for
/// an item carrying an override: without one the export name *is* the ident, and both spellings
/// land on the same module. That is what keeps every unrenamed item's published path unchanged.
#[test]
fn an_unrenamed_item_publishes_the_same_module_under_either_derivation() {
    for ident in ["LaterItem", "LaterItemJson", "HTTPHeader", "A"] {
        assert_eq!(
            ident_schema_module_name(ident),
            format!(
                "{}_schema",
                to_snake_case(&compute_item_export_name(ident, None))
            ),
            "for: {ident}"
        );
    }
    assert_ne!(
        ident_schema_module_name("LaterItem"),
        format!(
            "{}_schema",
            to_snake_case(&compute_item_export_name("LaterItem", Some("RenamedLater")))
        ),
    );
}

/// The ident re-export answers at the same spelling the module seam answers at: whatever a
/// reference falls back to when the registry cannot help it, which is the ident with the `Json`
/// suffix read through. An item exported under that spelling already answers there and publishes
/// nothing.
#[test]
fn a_ts_reexport_is_written_only_where_the_export_moved_off_the_ident() {
    assert_eq!(
        ident_reexport_ts("LaterAlias", "LaterAliasType", ""),
        "\n\nexport type LaterAlias = LaterAliasType;"
    );
    assert_eq!(
        ident_reexport_ts("LaterItem", "RenamedLater", ""),
        "\n\nexport type LaterItem = RenamedLater;"
    );
    assert_eq!(
        ident_reexport_ts("Pair", "PairType", "<A, B>"),
        "\n\nexport type Pair<A, B> = PairType<A, B>;"
    );
    for (ident, export) in [("PlainItem", "PlainItem"), ("PlainItemJson", "PlainItem")] {
        assert_eq!(ident_reexport_ts(ident, export, ""), "", "for: {ident}");
    }
}

#[test]
fn a_zod_reexport_is_written_only_where_the_export_moved_off_the_ident() {
    assert_eq!(
        ident_reexport_zod("LaterAlias", "LaterAliasType", "$Schema"),
        "\n\nexport const LaterAlias$Schema = LaterAliasType$Schema;"
    );
    for (ident, export) in [("PlainItem", "PlainItem"), ("PlainItemJson", "PlainItem")] {
        assert_eq!(
            ident_reexport_zod(ident, export, "$Schema"),
            "",
            "for: {ident}"
        );
    }
}

/// A generic type publishes a factory, so both names it is reached by have to name that factory:
/// a re-export written to `$Schema` would bind a name no emitted module declares.
#[test]
fn a_zod_reexport_carries_the_suffix_the_item_published_under() {
    assert_eq!(
        ident_reexport_zod("Holder", "RenamedHolder", "$SchemaFactory"),
        "\n\nexport const Holder$SchemaFactory = RenamedHolder$SchemaFactory;"
    );
}

/// The argument a factory binds for a parameter reads as the parameter it fills while staying a
/// name of its own beside it.
#[test]
fn a_factory_argument_is_the_lower_camel_of_its_parameter() {
    for (parameter, argument) in [
        ("IdType", "idType"),
        ("T", "t"),
        ("DateType", "dateType"),
        ("", ""),
    ] {
        assert_eq!(
            zod_factory_argument(parameter),
            argument,
            "for: {parameter}"
        );
    }
}
