//! Wrappers: a statement terminator, and running a body as a program.
use vstd::prelude::*;

use crate::emit::{entry_emit, semi_emit};
use crate::language::{Language, RenderError};
use crate::node::{Node, ToCode};
use crate::render::{emit_scope, render, render_scope};
use crate::scope::Scope;
use crate::syntax::{entry_code, semi_code, Code};

verus! {

/// A node followed by `;`.
#[derive(Debug)]
pub struct WithSemi<T: ToCode>(pub T);

impl<T: ToCode> ToCode for WithSemi<T> {
    open spec fn code(&self, language: Language) -> Code {
        semi_code(self.0.code(language))
    }

    fn to_code(&self, language: Language) -> (r: Result<String, RenderError>) {
        semi_emit(self.0.to_code(language))
    }

    fn into_node(self) -> (r: Node) {
        let ghost me = self;
        let a = self.0.into_node();
        let r = Node::WithSemi(Box::new(a));
        assert forall|l: Language| #[trigger] render(r, l) == me.code(l) by {
            assert(render(a, l) == me.0.code(l));
        }
        r
    }
}

/// A body wrapped in whatever the target needs to run it as a program: an
/// entry function, or nothing.
#[derive(Debug)]
pub struct RunScope(pub Scope);

impl ToCode for RunScope {
    open spec fn code(&self, language: Language) -> Code {
        entry_code(language, render_scope(self.0, language))
    }

    fn to_code(&self, language: Language) -> (r: Result<String, RenderError>) {
        entry_emit(language, emit_scope(&self.0, language))
    }

    fn into_node(self) -> (r: Node) {
        Node::RunScope(self.0)
    }
}

} // verus!
