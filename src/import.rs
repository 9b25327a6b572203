//! Inclusion of another module.
use vstd::prelude::*;

use crate::emit::import_emit;
use crate::language::{Language, RenderError};
use crate::node::{Node, ToCode};
use crate::syntax::{import_code, Code};

verus! {

/// An import of a whole module, or of named members of it.
#[derive(Debug)]
pub enum Import {
    /// A file path.
    Module(String),
    Members(String, Vec<String>),
}

impl ToCode for Import {
    open spec fn code(&self, language: Language) -> Code {
        import_code(*self, language)
    }

    fn to_code(&self, language: Language) -> (r: Result<String, RenderError>) {
        import_emit(self, language)
    }

    fn into_node(self) -> (r: Node) {
        Node::Import(self)
    }
}

} // verus!
