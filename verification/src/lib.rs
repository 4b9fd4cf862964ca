//! Typed configuration records resolved from environment variables.
//!
//! A record declaration lists named string fields; each field may carry a
//! `var` directive naming the environment variable to read and a `default`
//! directive giving a fallback value. A declaration is resolved into a
//! schema, and a schema is either rendered as Rust source or used directly
//! to build an instance from a snapshot of the environment.
pub mod declaration;
pub mod emit;
pub mod environment;
pub mod instance;
pub mod laws;
pub mod literal;
pub mod resolver;
pub mod schema;

pub use declaration::{DeclKind, Declaration, Directive, FieldDecl};
pub use emit::env_config_derive;
pub use environment::Environment;
pub use instance::{ConfigurationInstance, MissingVariable};
pub use resolver::get_attr_value;
pub use schema::{FieldSpec, RecordSpec, UnsupportedShape};
