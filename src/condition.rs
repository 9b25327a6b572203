//! Comparisons and boolean combinators. Each is written inside one pair of
//! parentheses, whatever its operands are.
use vstd::prelude::*;

use crate::emit::binary_emit;
use crate::language::{Language, RenderError};
use crate::node::{Node, Operator, ToCode};
use crate::render::render;
use crate::syntax::{binary_code, Code};

verus! {

/// Equality: strict equality in the scripting and systems targets.
#[derive(Debug)]
pub struct Equal<T: ToCode, F: ToCode>(pub T, pub F);

impl<T: ToCode, F: ToCode> ToCode for Equal<T, F> {
    open spec fn code(&self, language: Language) -> Code {
        binary_code(Operator::Equal, language, self.0.code(language), self.1.code(language))
    }

    fn to_code(&self, language: Language) -> (r: Result<String, RenderError>) {
        binary_emit(Operator::Equal, language, self.0.to_code(language), self.1.to_code(language))
    }

    fn into_node(self) -> (r: Node) {
        let ghost me = self;
        let a = self.0.into_node();
        let b = self.1.into_node();
        let r = Node::Binary(Operator::Equal, Box::new(a), Box::new(b));
        assert forall|l: Language| #[trigger] render(r, l) == me.code(l) by {
            assert(render(a, l) == me.0.code(l));
            assert(render(b, l) == me.1.code(l));
        }
        r
    }
}

/// `left > right`.
#[derive(Debug)]
pub struct GreaterThan<T: ToCode, F: ToCode>(pub T, pub F);

impl<T: ToCode, F: ToCode> ToCode for GreaterThan<T, F> {
    open spec fn code(&self, language: Language) -> Code {
        binary_code(Operator::GreaterThan, language, self.0.code(language), self.1.code(language))
    }

    fn to_code(&self, language: Language) -> (r: Result<String, RenderError>) {
        binary_emit(Operator::GreaterThan, language, self.0.to_code(language), self.1.to_code(language))
    }

    fn into_node(self) -> (r: Node) {
        let ghost me = self;
        let a = self.0.into_node();
        let b = self.1.into_node();
        let r = Node::Binary(Operator::GreaterThan, Box::new(a), Box::new(b));
        assert forall|l: Language| #[trigger] render(r, l) == me.code(l) by {
            assert(render(a, l) == me.0.code(l));
            assert(render(b, l) == me.1.code(l));
        }
        r
    }
}

/// `left < right`.
#[derive(Debug)]
pub struct LessThan<T: ToCode, F: ToCode>(pub T, pub F);

impl<T: ToCode, F: ToCode> ToCode for LessThan<T, F> {
    open spec fn code(&self, language: Language) -> Code {
        binary_code(Operator::LessThan, language, self.0.code(language), self.1.code(language))
    }

    fn to_code(&self, language: Language) -> (r: Result<String, RenderError>) {
        binary_emit(Operator::LessThan, language, self.0.to_code(language), self.1.to_code(language))
    }

    fn into_node(self) -> (r: Node) {
        let ghost me = self;
        let a = self.0.into_node();
        let b = self.1.into_node();
        let r = Node::Binary(Operator::LessThan, Box::new(a), Box::new(b));
        assert forall|l: Language| #[trigger] render(r, l) == me.code(l) by {
            assert(render(a, l) == me.0.code(l));
            assert(render(b, l) == me.1.code(l));
        }
        r
    }
}

/// `left <= right`.
#[derive(Debug)]
pub struct LessThanOrEq<T: ToCode, F: ToCode>(pub T, pub F);

impl<T: ToCode, F: ToCode> ToCode for LessThanOrEq<T, F> {
    open spec fn code(&self, language: Language) -> Code {
        binary_code(Operator::LessThanOrEq, language, self.0.code(language), self.1.code(language))
    }

    fn to_code(&self, language: Language) -> (r: Result<String, RenderError>) {
        binary_emit(Operator::LessThanOrEq, language, self.0.to_code(language), self.1.to_code(language))
    }

    fn into_node(self) -> (r: Node) {
        let ghost me = self;
        let a = self.0.into_node();
        let b = self.1.into_node();
        let r = Node::Binary(Operator::LessThanOrEq, Box::new(a), Box::new(b));
        assert forall|l: Language| #[trigger] render(r, l) == me.code(l) by {
            assert(render(a, l) == me.0.code(l));
            assert(render(b, l) == me.1.code(l));
        }
        r
    }
}

/// `left >= right`.
#[derive(Debug)]
pub struct GreaterThanOrEq<T: ToCode, F: ToCode>(pub T, pub F);

impl<T: ToCode, F: ToCode> ToCode for GreaterThanOrEq<T, F> {
    open spec fn code(&self, language: Language) -> Code {
        binary_code(Operator::GreaterThanOrEq, language, self.0.code(language), self.1.code(language))
    }

    fn to_code(&self, language: Language) -> (r: Result<String, RenderError>) {
        binary_emit(Operator::GreaterThanOrEq, language, self.0.to_code(language), self.1.to_code(language))
    }

    fn into_node(self) -> (r: Node) {
        let ghost me = self;
        let a = self.0.into_node();
        let b = self.1.into_node();
        let r = Node::Binary(Operator::GreaterThanOrEq, Box::new(a), Box::new(b));
        assert forall|l: Language| #[trigger] render(r, l) == me.code(l) by {
            assert(render(a, l) == me.0.code(l));
            assert(render(b, l) == me.1.code(l));
        }
        r
    }
}

/// Both operands hold: a symbol in the brace targets, a word in the indentation-sensitive one.
#[derive(Debug)]
pub struct And<T: ToCode, F: ToCode>(pub T, pub F);

impl<T: ToCode, F: ToCode> ToCode for And<T, F> {
    open spec fn code(&self, language: Language) -> Code {
        binary_code(Operator::And, language, self.0.code(language), self.1.code(language))
    }

    fn to_code(&self, language: Language) -> (r: Result<String, RenderError>) {
        binary_emit(Operator::And, language, self.0.to_code(language), self.1.to_code(language))
    }

    fn into_node(self) -> (r: Node) {
        let ghost me = self;
        let a = self.0.into_node();
        let b = self.1.into_node();
        let r = Node::Binary(Operator::And, Box::new(a), Box::new(b));
        assert forall|l: Language| #[trigger] render(r, l) == me.code(l) by {
            assert(render(a, l) == me.0.code(l));
            assert(render(b, l) == me.1.code(l));
        }
        r
    }
}

/// Either operand holds: a symbol in the brace targets, a word in the indentation-sensitive one.
#[derive(Debug)]
pub struct Or<T: ToCode, F: ToCode>(pub T, pub F);

impl<T: ToCode, F: ToCode> ToCode for Or<T, F> {
    open spec fn code(&self, language: Language) -> Code {
        binary_code(Operator::Or, language, self.0.code(language), self.1.code(language))
    }

    fn to_code(&self, language: Language) -> (r: Result<String, RenderError>) {
        binary_emit(Operator::Or, language, self.0.to_code(language), self.1.to_code(language))
    }

    fn into_node(self) -> (r: Node) {
        let ghost me = self;
        let a = self.0.into_node();
        let b = self.1.into_node();
        let r = Node::Binary(Operator::Or, Box::new(a), Box::new(b));
        assert forall|l: Language| #[trigger] render(r, l) == me.code(l) by {
            assert(render(a, l) == me.0.code(l));
            assert(render(b, l) == me.1.code(l));
        }
        r
    }
}

} // verus!
