//! Type nodes: the primitive catalog and composed types.
use vstd::prelude::*;

use crate::emit::{future_emit, generic_emit, primitive_emit};
use crate::language::{Language, RenderError};
use crate::node::{Node, Primitive, ToCode};
use crate::render::{emit_all, render};
use crate::syntax::{future_code, primitive_text, Code};

verus! {

/// A number of the target's general numeric type.
#[derive(Debug, Clone, Copy)]
pub struct Number;

impl ToCode for Number {
    open spec fn code(&self, language: Language) -> Code {
        Ok(primitive_text(Primitive::Number, language))
    }

    fn to_code(&self, language: Language) -> (r: Result<String, RenderError>) {
        Ok(primitive_emit(Primitive::Number, language))
    }

    fn into_node(self) -> (r: Node) {
        Node::Primitive(Primitive::Number)
    }
}

/// An integer of the target's standard integer type.
#[derive(Debug, Clone, Copy)]
pub struct Integer;

impl ToCode for Integer {
    open spec fn code(&self, language: Language) -> Code {
        Ok(primitive_text(Primitive::Integer, language))
    }

    fn to_code(&self, language: Language) -> (r: Result<String, RenderError>) {
        Ok(primitive_emit(Primitive::Integer, language))
    }

    fn into_node(self) -> (r: Node) {
        Node::Primitive(Primitive::Integer)
    }
}

/// A floating-point number.
#[derive(Debug, Clone, Copy)]
pub struct Float;

impl ToCode for Float {
    open spec fn code(&self, language: Language) -> Code {
        Ok(primitive_text(Primitive::Float, language))
    }

    fn to_code(&self, language: Language) -> (r: Result<String, RenderError>) {
        Ok(primitive_emit(Primitive::Float, language))
    }

    fn into_node(self) -> (r: Node) {
        Node::Primitive(Primitive::Float)
    }
}

/// A truth value.
#[derive(Debug, Clone, Copy)]
pub struct Boolean;

impl ToCode for Boolean {
    open spec fn code(&self, language: Language) -> Code {
        Ok(primitive_text(Primitive::Boolean, language))
    }

    fn to_code(&self, language: Language) -> (r: Result<String, RenderError>) {
        Ok(primitive_emit(Primitive::Boolean, language))
    }

    fn into_node(self) -> (r: Node) {
        Node::Primitive(Primitive::Boolean)
    }
}

/// A type applied to type arguments: `name<args>`, or `name[args]` in the
/// indentation-sensitive target.
#[derive(Debug)]
pub struct Generic(pub String, pub Vec<Node>);

impl ToCode for Generic {
    open spec fn code(&self, language: Language) -> Code {
        render(Node::Generic(*self), language)
    }

    fn to_code(&self, language: Language) -> (r: Result<String, RenderError>) {
        generic_emit(language, self.0.as_str(), emit_all(&self.1, language))
    }

    fn into_node(self) -> (r: Node) {
        Node::Generic(self)
    }
}

/// The type of an asynchronous result. Only the native and the gradually
/// typed targets have one.
#[derive(Debug)]
pub struct Future<T: ToCode>(pub T);

impl<T: ToCode> ToCode for Future<T> {
    open spec fn code(&self, language: Language) -> Code {
        future_code(language, self.0.code(language))
    }

    fn to_code(&self, language: Language) -> (r: Result<String, RenderError>) {
        future_emit(language, self.0.to_code(language))
    }

    fn into_node(self) -> (r: Node) {
        let ghost me = self;
        let a = self.0.into_node();
        let r = Node::Future(Box::new(a));
        assert forall|l: Language| #[trigger] render(r, l) == me.code(l) by {
            assert(render(a, l) == me.0.code(l));
        }
        r
    }
}

} // verus!
