//! Statements: declarations with an initializer, assignments, returns and
//! comments.
use vstd::prelude::*;

use crate::emit::{assign_emit, comment_emit, return_emit};
use crate::language::{Language, RenderError};
use crate::node::{Node, ToCode};
use crate::render::{emit_init, render, render_opt};
use crate::syntax::{assign_code, comment_text, return_code, Code, OptCode};

verus! {

/// A variable declared with an initial value.
#[derive(Debug)]
pub struct VariableInit {
    pub name: Box<Node>,
    pub mutable: Option<bool>,
    pub typ: Option<Box<Node>>,
    pub value: Box<Node>,
}

impl Default for VariableInit {
    fn default() -> (r: Self)
        ensures
            forall|l: Language| #[trigger] render(*r.name, l) == Code::Ok("foo"@),
            forall|l: Language| #[trigger] render(*r.value, l) == Code::Ok("bar"@),
            r.mutable is None,
            r.typ is None,
    {
        VariableInit {
            name: Box::new("foo".into_node()),
            mutable: None,
            typ: None,
            value: Box::new("bar".into_node()),
        }
    }
}

impl VariableInit {
    pub fn with_name<T: ToCode>(self, name: T) -> (r: Self)
        ensures
            forall|l: Language| #[trigger] render(*r.name, l) == name.code(l),
            r.mutable == self.mutable,
            r.typ == self.typ,
            r.value == self.value,
    {
        VariableInit {
            name: Box::new(name.into_node()),
            mutable: self.mutable,
            typ: self.typ,
            value: self.value,
        }
    }

    pub fn with_mutable(self, is_mutable: bool) -> (r: Self)
        ensures
            r.mutable == Some(is_mutable),
            r.name == self.name,
            r.typ == self.typ,
            r.value == self.value,
    {
        VariableInit { name: self.name, mutable: Some(is_mutable), typ: self.typ, value: self.value }
    }

    pub fn with_type<T: ToCode>(self, typ: T) -> (r: Self)
        ensures
            r.typ is Some,
            forall|l: Language| #[trigger] render(*r.typ->0, l) == typ.code(l),
            r.name == self.name,
            r.mutable == self.mutable,
            r.value == self.value,
    {
        VariableInit {
            name: self.name,
            mutable: self.mutable,
            typ: Some(Box::new(typ.into_node())),
            value: self.value,
        }
    }

    pub fn with_value<T: ToCode>(self, value: T) -> (r: Self)
        ensures
            forall|l: Language| #[trigger] render(*r.value, l) == value.code(l),
            r.name == self.name,
            r.mutable == self.mutable,
            r.typ == self.typ,
    {
        VariableInit {
            name: self.name,
            mutable: self.mutable,
            typ: self.typ,
            value: Box::new(value.into_node()),
        }
    }
}

impl ToCode for VariableInit {
    open spec fn code(&self, language: Language) -> Code {
        render(Node::VariableInit(*self), language)
    }

    fn to_code(&self, language: Language) -> (r: Result<String, RenderError>) {
        emit_init(self, language)
    }

    fn into_node(self) -> (r: Node) {
        Node::VariableInit(self)
    }
}

/// An assignment: target, then value.
#[derive(Debug)]
pub struct AssignVariable<T: ToCode, F: ToCode>(pub T, pub F);

impl<T: ToCode, F: ToCode> ToCode for AssignVariable<T, F> {
    open spec fn code(&self, language: Language) -> Code {
        assign_code(language, self.0.code(language), self.1.code(language))
    }

    fn to_code(&self, language: Language) -> (r: Result<String, RenderError>) {
        assign_emit(language, self.0.to_code(language), self.1.to_code(language))
    }

    fn into_node(self) -> (r: Node) {
        let ghost me = self;
        let a = self.0.into_node();
        let b = self.1.into_node();
        let r = Node::Assign(Box::new(a), Box::new(b));
        assert forall|l: Language| #[trigger] render(r, l) == me.code(l) by {
            assert(render(a, l) == me.0.code(l));
            assert(render(b, l) == me.1.code(l));
        }
        r
    }
}

/// A return, with or without a value.
#[derive(Debug)]
pub struct Return<T: ToCode>(pub Option<T>);

impl<T: ToCode> Return<T> {
    /// The returned value's text, if there is one.
    pub open spec fn value_code(&self, language: Language) -> OptCode {
        match self.0 {
            Some(x) => match x.code(language) {
                Ok(t) => Ok(Some(t)),
                Err(e) => Err(e),
            },
            None => Ok(None),
        }
    }
}

impl<T: ToCode> ToCode for Return<T> {
    open spec fn code(&self, language: Language) -> Code {
        return_code(language, self.value_code(language))
    }

    fn to_code(&self, language: Language) -> (r: Result<String, RenderError>) {
        let e = match &self.0 {
            Some(x) => match x.to_code(language) {
                Ok(t) => Ok(Some(t)),
                Err(err) => Err(err),
            },
            None => Ok(None),
        };
        return_emit(language, e)
    }

    fn into_node(self) -> (r: Node) {
        let ghost me = self;
        let v = match self.0 {
            Some(x) => Some(Box::new(x.into_node())),
            None => None,
        };
        let r = Node::Return(v);
        assert forall|l: Language| #[trigger] render(r, l) == me.code(l) by {
            if v is Some {
                assert(render(*v->0, l) == me.0->0.code(l));
            }
            assert(render_opt(v, l) == me.value_code(l));
        }
        r
    }
}

/// A comment. A regular comment spans the rest of its line where the target
/// has that form, so a line break follows it there.
#[derive(Debug)]
pub enum Comment {
    Regular(String),
    MultiLine(String),
    Doc(String),
}

impl ToCode for Comment {
    open spec fn code(&self, language: Language) -> Code {
        Ok(comment_text(*self, language))
    }

    fn to_code(&self, language: Language) -> (r: Result<String, RenderError>) {
        Ok(comment_emit(self, language))
    }

    fn into_node(self) -> (r: Node) {
        Node::Comment(self)
    }
}

} // verus!
