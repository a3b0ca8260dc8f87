use vstd::prelude::*;

pub mod syntax;
pub mod text;
pub mod rename_rule;
pub mod service_schema;
pub mod utils;

verus! {
}
