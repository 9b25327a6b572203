//! Builds a language-neutral tree of program constructs and renders it as
//! source text for one of several target languages.
pub mod block;
pub mod condition;
mod emit;
pub mod expression;
pub mod function;
mod import;
pub mod language;
pub mod laws;
pub mod node;
pub mod operation;
pub mod print;
pub mod render;
mod scope;
pub mod statement;
pub mod syntax;
pub mod text;
pub mod types;
mod utils;

pub use function::{Function, FunctionBuilder, Parameter, Visibility};
pub use import::Import;
pub use language::{IndentType, Language, RenderError};
pub use node::{Node, Operator, Primitive, ToCode, Value};
pub use scope::Scope;
pub use statement::Comment;
pub use utils::{RunScope, WithSemi};
