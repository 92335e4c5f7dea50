//! Classifies a commit by its subject line: Conventional Commits, releases,
//! merged pull requests, subtree operations, fixups and a few lexical cases.
//!
//! Every classification is stated over the view of [`Subject`]: the rule
//! cascade is the spec function `classified`, and `Subject::from` is proved
//! to return exactly that.

pub mod classify;
pub mod outside;
pub mod subject;
pub mod text;

pub use classify::{category_of_text, classified, classify};
pub use subject::{Subject, SubjectV, SubtreeOperation, SubtreeOperationV, Type};
