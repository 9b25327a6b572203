//! Function declarations and their parameters.
use vstd::prelude::*;

use crate::emit::visibility_emit;
use crate::language::{Language, RenderError};
use crate::node::{Node, ToCode};
use crate::render::{emit_function, emit_param, render, render_param};
use crate::scope::Scope;
use crate::syntax::{visibility_code, Code};

verus! {

#[derive(Debug, Clone, Copy, PartialEq, Eq, Structural)]
pub enum Visibility {
    Public,
    Private,
}

/// The visibility keyword; only the native and the gradually typed targets
/// have one.
impl ToCode for Visibility {
    open spec fn code(&self, language: Language) -> Code {
        visibility_code(*self, language)
    }

    fn to_code(&self, language: Language) -> (r: Result<String, RenderError>) {
        visibility_emit(*self, language)
    }

    fn into_node(self) -> (r: Node) {
        Node::Visibility(self)
    }
}

/// A parameter: its name and, where given, its type.
#[derive(Debug)]
pub struct Parameter(pub Box<Node>, pub Option<Box<Node>>);

impl ToCode for Parameter {
    open spec fn code(&self, language: Language) -> Code {
        render_param(*self, language)
    }

    fn to_code(&self, language: Language) -> (r: Result<String, RenderError>) {
        emit_param(self, language)
    }

    fn into_node(self) -> (r: Node) {
        Node::Parameter(self)
    }
}

/// A function declaration.
#[derive(Debug)]
pub struct Function {
    pub name: String,
    pub return_type: Option<Box<Node>>,
    pub visibility: Visibility,
    pub params: Vec<Parameter>,
    pub scope: Scope,
}

impl ToCode for Function {
    open spec fn code(&self, language: Language) -> Code {
        render(Node::Function(*self), language)
    }

    fn to_code(&self, language: Language) -> (r: Result<String, RenderError>) {
        emit_function(self, language)
    }

    fn into_node(self) -> (r: Node) {
        Node::Function(self)
    }
}

/// Collects the parts of a function; `build` yields it once it has a name
/// and a body.
#[derive(Debug)]
pub struct FunctionBuilder {
    pub name: Option<String>,
    pub return_type: Option<Box<Node>>,
    pub visibility: Option<Visibility>,
    pub params: Vec<Parameter>,
    pub scope: Option<Scope>,
}

impl FunctionBuilder {
    pub fn new() -> (r: Self)
        ensures
            r.name is None,
            r.return_type is None,
            r.visibility is None,
            r.params@.len() == 0,
            r.scope is None,
    {
        FunctionBuilder {
            name: None,
            return_type: None,
            visibility: None,
            params: Vec::new(),
            scope: None,
        }
    }

    pub fn name(self, name: &str) -> (r: Self)
        ensures
            r.name is Some,
            r.name->0@ == name@,
            r.return_type == self.return_type,
            r.visibility == self.visibility,
            r.params == self.params,
            r.scope == self.scope,
    {
        FunctionBuilder {
            name: Some(name.to_owned()),
            return_type: self.return_type,
            visibility: self.visibility,
            params: self.params,
            scope: self.scope,
        }
    }

    pub fn with_return_type<T: ToCode>(self, return_type: T) -> (r: Self)
        ensures
            r.return_type is Some,
            forall|l: Language| #[trigger] render(*r.return_type->0, l) == return_type.code(l),
            r.name == self.name,
            r.visibility == self.visibility,
            r.params == self.params,
            r.scope == self.scope,
    {
        FunctionBuilder {
            name: self.name,
            return_type: Some(Box::new(return_type.into_node())),
            visibility: self.visibility,
            params: self.params,
            scope: self.scope,
        }
    }

    pub fn with_visibility(self, visibility: Visibility) -> (r: Self)
        ensures
            r.visibility == Some(visibility),
            r.name == self.name,
            r.return_type == self.return_type,
            r.params == self.params,
            r.scope == self.scope,
    {
        FunctionBuilder {
            name: self.name,
            return_type: self.return_type,
            visibility: Some(visibility),
            params: self.params,
            scope: self.scope,
        }
    }

    /// Adds a parameter after those already there.
    pub fn with_param(self, param: Parameter) -> (r: Self)
        ensures
            r.params@ == self.params@.push(param),
            r.name == self.name,
            r.return_type == self.return_type,
            r.visibility == self.visibility,
            r.scope == self.scope,
    {
        let mut params = self.params;
        params.push(param);
        FunctionBuilder {
            name: self.name,
            return_type: self.return_type,
            visibility: self.visibility,
            params,
            scope: self.scope,
        }
    }

    pub fn with_scope(self, scope: Scope) -> (r: Self)
        ensures
            r.scope == Some(scope),
            r.name == self.name,
            r.return_type == self.return_type,
            r.visibility == self.visibility,
            r.params == self.params,
    {
        FunctionBuilder {
            name: self.name,
            return_type: self.return_type,
            visibility: self.visibility,
            params: self.params,
            scope: Some(scope),
        }
    }

    /// The function, once it has a name and a body; private where no
    /// visibility was given.
    pub fn build(self) -> (r: Option<Function>)
        ensures
            r is Some <==> (self.name is Some && self.scope is Some),
            r is Some ==> ({
                let f = r->0;
                &&& f.name == self.name->0
                &&& f.visibility == match self.visibility {
                    Some(v) => v,
                    None => Visibility::Private,
                }
                &&& f.return_type == self.return_type
                &&& f.params == self.params
                &&& f.scope == self.scope->0
            }),
    {
        match (self.name, self.scope) {
            (Some(name), Some(scope)) => Some(
                Function {
                    name,
                    visibility: match self.visibility {
                        Some(v) => v,
                        None => Visibility::Private,
                    },
                    return_type: self.return_type,
                    params: self.params,
                    scope,
                },
            ),
            _ => None,
        }
    }
}

} // verus!
