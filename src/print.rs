//! Printing a value on standard output.
use vstd::prelude::*;

use crate::emit::print_emit;
use crate::language::{Language, RenderError};
use crate::node::{Node, ToCode};
use crate::render::render;
use crate::syntax::{print_code, Code};

verus! {

/// Prints a value followed by a line break.
///
/// The text it renders to needs the target's output facility: the `std`
/// namespace and `iostream` in the systems target.
#[derive(Debug)]
pub struct Println<T: ToCode>(pub T);

impl<T: ToCode> ToCode for Println<T> {
    open spec fn code(&self, language: Language) -> Code {
        print_code(language, self.0.code(language))
    }

    fn to_code(&self, language: Language) -> (r: Result<String, RenderError>) {
        print_emit(language, self.0.to_code(language))
    }

    fn into_node(self) -> (r: Node) {
        let ghost me = self;
        let a = self.0.into_node();
        let r = Node::Println(Box::new(a));
        assert forall|l: Language| #[trigger] render(r, l) == me.code(l) by {
            assert(render(a, l) == me.0.code(l));
        }
        r
    }
}

} // verus!
