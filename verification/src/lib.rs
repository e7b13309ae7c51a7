//! Translates the type aliases of a parsed module into GraphQL schema text,
//! under a manifest that says which alias is an object type, an input type or
//! an enum.

pub mod ast;
pub mod codegen;
pub mod encoder;
pub mod error;
pub mod invariants;
pub mod laws;
pub mod manifest;
pub mod naming;
pub mod parsed;
pub mod resolve;

pub use crate::codegen::generate_schema;
pub use crate::error::{Error, ErrorKind};
pub use crate::manifest::{GraphQLKind, Manifest};
pub use crate::naming::{compute_new_name, upper_camel_case, ComputeNameKind};
pub use crate::parsed::{FieldKind, KeyedGraphQLKind, ParsedField};
pub use crate::resolve::Position;
