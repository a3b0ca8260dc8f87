//! The naming, documentation and pattern rules every schema surface shares.

pub mod alias;
pub mod constraint;
pub mod docs;
pub mod escape;
pub mod example;
pub mod naming;
pub mod pattern;
pub mod portable;

pub use alias::{lookup_alias_info, register_alias_info, AliasInfo, AliasKind, AliasRegistry};

pub use docs::{
    extract_example_from_docs, format_docs_for_ts, get_enum_docs, get_field_docs, get_item_docs,
    get_struct_docs, get_variant_docs, strip_examples_from_docs,
};
pub use example::extract_example_tokens;
pub use naming::{
    compute_alias_export_name, compute_item_export_name, ident_reexport_ts, ident_reexport_zod,
    ident_schema_module_name, safe_type_name, to_snake_case, zod_factory_argument,
};
pub use escape::{escape_js_regex_literal, js_line_terminator_escape};
pub use constraint::{constraining_pattern, trivial_pattern, TrivialPattern};
pub use portable::{portable_pattern, JS_ENGINE_BASELINE};
