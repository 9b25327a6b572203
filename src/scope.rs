//! An ordered body of nodes.
use vstd::prelude::*;

use crate::language::{Language, RenderError};
use crate::node::{Node, ToCode};
use crate::render::{emit_scope, render, render_scope};
use crate::syntax::Code;

verus! {

/// The statements of one body, in the order they are written out. The depth
/// a body is indented at is not stored here: it travels down in the target
/// that a render is given, so one scope can be rendered at any depth.
#[derive(Debug)]
pub struct Scope {
    pub children: Vec<Node>,
}

impl Default for Scope {
    fn default() -> (r: Self)
        ensures
            r.children@ == Seq::<Node>::empty(),
    {
        Scope { children: Vec::new() }
    }
}

impl Scope {
    /// Appends a statement after those already there.
    pub fn with<T: ToCode>(self, child: T) -> (r: Self)
        ensures
            r.children@.len() == self.children@.len() + 1,
            r.children@.drop_last() == self.children@,
            forall|l: Language| #[trigger] render(r.children@.last(), l) == child.code(l),
    {
        let ghost before = self.children@;
        let mut children = self.children;
        children.push(child.into_node());
        assert(children@.drop_last() =~= before);
        Scope { children }
    }
}

impl ToCode for Scope {
    open spec fn code(&self, language: Language) -> Code {
        render_scope(*self, language)
    }

    fn to_code(&self, language: Language) -> (r: Result<String, RenderError>) {
        emit_scope(self, language)
    }

    fn into_node(self) -> (r: Node) {
        Node::Scope(self)
    }
}

} // verus!
