use tixschema::utils::docs::transform_example_code;
use tixschema::utils::{extract_example_tokens, get_item_docs, get_struct_docs};

fn struct_attrs_with_docs(doc_lines: &[&str]) -> Vec<syn::Attribute> {
    let mut doc_block = String::new();
    for line in doc_lines {
        doc_block.push_str(&format!("/// {line}\n"));
    }
    let source = format!("{doc_block}struct Probe;");
    let item: syn::ItemStruct = syn::parse_str(&source).unwrap();
    item.attrs
}

fn top_level_source_texts(tokens: &proc_macro2::TokenStream) -> Vec<Option<String>> {
    tokens
        .clone()
        .into_iter()
        .map(|tree| tree.span().source_text())
        .collect()
}

#[test]
fn test_extract_example_none() {
    let attrs = struct_attrs_with_docs(&["User profile", "No examples here"]);
    assert!(extract_example_tokens(&attrs).is_none());
}

#[test]
fn test_extract_example_empty_docs() {
    let attrs = struct_attrs_with_docs(&[]);
    assert!(extract_example_tokens(&attrs).is_none());
}

#[test]
fn test_extract_example_regular_code_fence_ignored() {
    let attrs = struct_attrs_with_docs(&[
        "Example with regular fence",
        "```rust",
        "User { age: 25 }",
        "```",
    ]);
    assert!(extract_example_tokens(&attrs).is_none());
}

#[test]
fn extract_example_tokens_respans_each_line_onto_itself() {
    let attrs = struct_attrs_with_docs(&[
        "```rust example",
        "let ok = 1;",
        "Counted { count: ok }",
        "```",
    ]);
    let tokens = extract_example_tokens(&attrs).unwrap();
    let texts = top_level_source_texts(&tokens);

    assert_eq!(texts.first().unwrap().as_deref(), Some("/// let ok = 1;"));
    assert_eq!(
        texts.last().unwrap().as_deref(),
        Some("/// Counted { count: ok }")
    );
}

#[test]
fn extract_example_tokens_spans_a_multiline_value_on_its_first_line() {
    let attrs = struct_attrs_with_docs(&["```rust example", "Counted {", "count: 1,", "}", "```"]);
    let tokens = extract_example_tokens(&attrs).unwrap();
    let texts = top_level_source_texts(&tokens);

    assert!(
        texts
            .iter()
            .all(|text| text.as_deref() == Some("/// Counted {")),
        "{texts:?}"
    );
}

#[test]
fn extract_example_tokens_still_unwraps_the_doctest_println_pattern() {
    let attrs = struct_attrs_with_docs(&[
        "```rust example",
        "let data_type = 1;",
        "println!(\"{:?}\", data_type);",
        "```",
    ]);
    let tokens = extract_example_tokens(&attrs).unwrap();
    assert_eq!(tokens.to_string(), "let data_type = 1 ; data_type");
}

#[test]
fn extract_example_tokens_skips_a_use_line_when_spanning() {
    let attrs = struct_attrs_with_docs(&[
        "```rust example",
        "use crate::Counted;",
        "Counted { count: 2 }",
        "```",
    ]);
    let tokens = extract_example_tokens(&attrs).unwrap();
    assert_eq!(tokens.to_string(), "Counted { count : 2 }");
    let texts = top_level_source_texts(&tokens);
    assert!(
        texts
            .iter()
            .all(|text| text.as_deref() == Some("/// Counted { count: 2 }")),
        "{texts:?}"
    );
}

#[test]
fn doc_lines_are_split_and_trimmed_per_line() {
    let item: syn::ItemStruct =
        syn::parse_str("/** First line\n   second line */\n/// third\nstruct Probe;").unwrap();
    assert_eq!(
        get_struct_docs(&item).unwrap(),
        vec!["First line".to_owned(), "second line".to_owned(), "third".to_owned()]
    );
}

#[test]
fn attributes_without_doc_comments_carry_no_docs() {
    let item: syn::ItemStruct = syn::parse_str("#[derive(Debug)]\nstruct Probe;").unwrap();
    assert!(get_item_docs(&item.attrs).is_none());
}

#[test]
fn test_extract_example_simple() {
    let attrs = struct_attrs_with_docs(&[
        "User profile",
        "```rust example",
        "User { name: \"John\".to_string(), age: 25 }",
        "```",
    ]);
    let tokens = extract_example_tokens(&attrs);
    assert!(tokens.is_some());
    let expected: proc_macro2::TokenStream = "User { name: \"John\".to_string(), age: 25 }"
        .parse()
        .unwrap();
    assert_eq!(tokens.unwrap().to_string(), expected.to_string());
}

#[test]
fn test_extract_example_multiline() {
    let attrs = struct_attrs_with_docs(&[
        "Complex example",
        "```rust example",
        "let x = 5;",
        "let y = 10;",
        "User { age: x + y }",
        "```",
    ]);
    let tokens = extract_example_tokens(&attrs);
    assert!(tokens.is_some());
    let expected: proc_macro2::TokenStream = "let x = 5; let y = 10; User { age: x + y }"
        .parse()
        .unwrap();
    assert_eq!(tokens.unwrap().to_string(), expected.to_string());
}

#[test]
fn test_extract_example_first_only() {
    let attrs = struct_attrs_with_docs(&[
        "Multiple examples",
        "```rust example",
        "User { age: 25 }",
        "```",
        "Another description",
        "```rust example",
        "User { age: 30 }",
        "```",
    ]);
    let tokens = extract_example_tokens(&attrs);
    assert!(tokens.is_some());
    let expected: proc_macro2::TokenStream = "User { age: 25 }".parse().unwrap();
    assert_eq!(tokens.unwrap().to_string(), expected.to_string());
}

#[test]
fn test_transform_println_pattern() {
    let code = "let data_type = DataType::Integer;\nprintln!(\"data_type: {:?}\", data_type);";
    let result = transform_example_code(code);
    assert_eq!(result, "let data_type = DataType::Integer;\ndata_type");
}

#[test]
fn test_transform_let_underscore_pattern() {
    let code = "let _: DataType = DataType::Integer;";
    let result = transform_example_code(code);
    assert_eq!(result, "DataType::Integer");
}

#[test]
fn test_transform_let_underscore_no_type() {
    let code = "let _ = DataType::Integer;";
    let result = transform_example_code(code);
    assert_eq!(result, "DataType::Integer");
}

#[test]
fn test_transform_no_pattern_match() {
    let code = "DataType::Integer";
    let result = transform_example_code(code);
    assert_eq!(result, "DataType::Integer");
}

#[test]
fn test_transform_strips_use_statements() {
    let code = "use crate::definition::DataType;\n\nlet data_type = DataType::Integer;\nprintln!(\"data_type: {:?}\", data_type);";
    let result = transform_example_code(code);
    assert_eq!(result, "let data_type = DataType::Integer;\ndata_type");
}

#[test]
fn test_transform_strips_multiple_use_statements() {
    let code = "use crate::definition::DataType;\nuse std::collections::HashMap;\n\nlet data_type = DataType::Integer;\nprintln!(\"data_type: {:?}\", data_type);";
    let result = transform_example_code(code);
    assert_eq!(result, "let data_type = DataType::Integer;\ndata_type");
}
