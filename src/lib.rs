//! Media-query parsing and border-radius declaration merging over a CSS token tree.

pub mod tokens;
pub mod media_query;
pub mod vendor_prefix;
pub mod border_radius;
pub mod merge_laws;
