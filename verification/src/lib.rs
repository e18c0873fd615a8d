//! A typed, read-only view over lossless syntax trees of workflow documents,
//! with a traversal engine and a diagnostic model for lint rules.

pub mod ast;
pub mod diagnostic;
pub mod document;
pub mod kind;
pub mod lint;
pub mod syntax;
pub mod tree;
pub mod v1;
pub mod visitor;
