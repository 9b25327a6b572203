//! Arithmetic operators. Each is written bare, with no parentheses added.
use vstd::prelude::*;

use crate::emit::binary_emit;
use crate::language::{Language, RenderError};
use crate::node::{Node, Operator, ToCode};
use crate::render::render;
use crate::syntax::{binary_code, Code};

verus! {

/// `left + right`.
#[derive(Debug)]
pub struct Add<T: ToCode, F: ToCode>(pub T, pub F);

impl<T: ToCode, F: ToCode> ToCode for Add<T, F> {
    open spec fn code(&self, language: Language) -> Code {
        binary_code(Operator::Add, language, self.0.code(language), self.1.code(language))
    }

    fn to_code(&self, language: Language) -> (r: Result<String, RenderError>) {
        binary_emit(Operator::Add, language, self.0.to_code(language), self.1.to_code(language))
    }

    fn into_node(self) -> (r: Node) {
        let ghost me = self;
        let a = self.0.into_node();
        let b = self.1.into_node();
        let r = Node::Binary(Operator::Add, Box::new(a), Box::new(b));
        assert forall|l: Language| #[trigger] render(r, l) == me.code(l) by {
            assert(render(a, l) == me.0.code(l));
            assert(render(b, l) == me.1.code(l));
        }
        r
    }
}

/// `left - right`.
#[derive(Debug)]
pub struct Subtract<T: ToCode, F: ToCode>(pub T, pub F);

impl<T: ToCode, F: ToCode> ToCode for Subtract<T, F> {
    open spec fn code(&self, language: Language) -> Code {
        binary_code(Operator::Subtract, language, self.0.code(language), self.1.code(language))
    }

    fn to_code(&self, language: Language) -> (r: Result<String, RenderError>) {
        binary_emit(Operator::Subtract, language, self.0.to_code(language), self.1.to_code(language))
    }

    fn into_node(self) -> (r: Node) {
        let ghost me = self;
        let a = self.0.into_node();
        let b = self.1.into_node();
        let r = Node::Binary(Operator::Subtract, Box::new(a), Box::new(b));
        assert forall|l: Language| #[trigger] render(r, l) == me.code(l) by {
            assert(render(a, l) == me.0.code(l));
            assert(render(b, l) == me.1.code(l));
        }
        r
    }
}

/// `left * right`.
#[derive(Debug)]
pub struct Multiply<T: ToCode, F: ToCode>(pub T, pub F);

impl<T: ToCode, F: ToCode> ToCode for Multiply<T, F> {
    open spec fn code(&self, language: Language) -> Code {
        binary_code(Operator::Multiply, language, self.0.code(language), self.1.code(language))
    }

    fn to_code(&self, language: Language) -> (r: Result<String, RenderError>) {
        binary_emit(Operator::Multiply, language, self.0.to_code(language), self.1.to_code(language))
    }

    fn into_node(self) -> (r: Node) {
        let ghost me = self;
        let a = self.0.into_node();
        let b = self.1.into_node();
        let r = Node::Binary(Operator::Multiply, Box::new(a), Box::new(b));
        assert forall|l: Language| #[trigger] render(r, l) == me.code(l) by {
            assert(render(a, l) == me.0.code(l));
            assert(render(b, l) == me.1.code(l));
        }
        r
    }
}

/// `left / right`.
#[derive(Debug)]
pub struct Divide<T: ToCode, F: ToCode>(pub T, pub F);

impl<T: ToCode, F: ToCode> ToCode for Divide<T, F> {
    open spec fn code(&self, language: Language) -> Code {
        binary_code(Operator::Divide, language, self.0.code(language), self.1.code(language))
    }

    fn to_code(&self, language: Language) -> (r: Result<String, RenderError>) {
        binary_emit(Operator::Divide, language, self.0.to_code(language), self.1.to_code(language))
    }

    fn into_node(self) -> (r: Node) {
        let ghost me = self;
        let a = self.0.into_node();
        let b = self.1.into_node();
        let r = Node::Binary(Operator::Divide, Box::new(a), Box::new(b));
        assert forall|l: Language| #[trigger] render(r, l) == me.code(l) by {
            assert(render(a, l) == me.0.code(l));
            assert(render(b, l) == me.1.code(l));
        }
        r
    }
}

/// `left % right`.
#[derive(Debug)]
pub struct Modulus<T: ToCode, F: ToCode>(pub T, pub F);

impl<T: ToCode, F: ToCode> ToCode for Modulus<T, F> {
    open spec fn code(&self, language: Language) -> Code {
        binary_code(Operator::Modulus, language, self.0.code(language), self.1.code(language))
    }

    fn to_code(&self, language: Language) -> (r: Result<String, RenderError>) {
        binary_emit(Operator::Modulus, language, self.0.to_code(language), self.1.to_code(language))
    }

    fn into_node(self) -> (r: Node) {
        let ghost me = self;
        let a = self.0.into_node();
        let b = self.1.into_node();
        let r = Node::Binary(Operator::Modulus, Box::new(a), Box::new(b));
        assert forall|l: Language| #[trigger] render(r, l) == me.code(l) by {
            assert(render(a, l) == me.0.code(l));
            assert(render(b, l) == me.1.code(l));
        }
        r
    }
}

} // verus!
