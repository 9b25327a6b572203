//! Calls and conditional expressions.
use vstd::prelude::*;

use crate::emit::{call_emit, ternary_emit};
use crate::language::{Language, RenderError};
use crate::node::{Node, ToCode};
use crate::render::{emit_all, render, render_all};
use crate::syntax::{call_code, ternary_code, Code};

verus! {

/// A call: `callee(arg,arg,...)` in every target.
#[derive(Debug)]
pub struct FunctionCall<T: ToCode>(pub T, pub Vec<Node>);

impl<T: ToCode> ToCode for FunctionCall<T> {
    open spec fn code(&self, language: Language) -> Code {
        call_code(self.0.code(language), render_all(self.1@, language))
    }

    fn to_code(&self, language: Language) -> (r: Result<String, RenderError>) {
        call_emit(self.0.to_code(language), emit_all(&self.1, language))
    }

    fn into_node(self) -> (r: Node) {
        let ghost me = self;
        let a = self.0.into_node();
        let r = Node::Call(Box::new(a), self.1);
        assert forall|l: Language| #[trigger] render(r, l) == me.code(l) by {
            assert(render(a, l) == me.0.code(l));
        }
        r
    }
}

/// A conditional expression: condition, value when it holds, value when it
/// does not.
#[derive(Debug)]
pub struct Ternary<T: ToCode, F: ToCode, E: ToCode>(pub T, pub F, pub E);

impl<T: ToCode, F: ToCode, E: ToCode> ToCode for Ternary<T, F, E> {
    open spec fn code(&self, language: Language) -> Code {
        ternary_code(language, self.0.code(language), self.1.code(language), self.2.code(language))
    }

    fn to_code(&self, language: Language) -> (r: Result<String, RenderError>) {
        ternary_emit(
            language,
            self.0.to_code(language),
            self.1.to_code(language),
            self.2.to_code(language),
        )
    }

    fn into_node(self) -> (r: Node) {
        let ghost me = self;
        let a = self.0.into_node();
        let b = self.1.into_node();
        let c = self.2.into_node();
        let r = Node::Ternary(Box::new(a), Box::new(b), Box::new(c));
        assert forall|l: Language| #[trigger] render(r, l) == me.code(l) by {
            assert(render(a, l) == me.0.code(l));
            assert(render(b, l) == me.1.code(l));
            assert(render(c, l) == me.2.code(l));
        }
        r
    }
}

} // verus!
