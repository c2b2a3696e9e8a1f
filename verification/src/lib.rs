//! Typed columnar value substrate: logical data types, tagged scalar values,
//! immutable vectors and the type-erased mutable vector builder, together with
//! the small storage-side utilities (prefix-end keys, protocol version gate,
//! log namespaces).

pub mod action;
pub mod builder;
pub mod data_type;
pub mod error;
pub mod list;
pub mod namespace;
pub mod text;
pub mod udf;
pub mod util;
pub mod value;
pub mod vector;
