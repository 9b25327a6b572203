//! The if / else-if / else chain.
use vstd::prelude::*;

use crate::language::{Language, RenderError};
use crate::node::{Node, ToCode};
use crate::render::{emit_conditional, emit_else, emit_if, render, render_else, render_if};
use crate::scope::Scope;
use crate::syntax::Code;

verus! {

/// A conditional chain: a first branch, any number of else-if branches in
/// the order they were added, and an optional final else.
#[derive(Debug)]
pub struct ConditionalBuilder {
    pub first: If,
    pub middle: Vec<If>,
    pub last: Option<Else>,
}

impl Default for ConditionalBuilder {
    /// A chain whose only branch is the default one: always taken, empty.
    fn default() -> (r: Self)
        ensures
            forall|l: Language| #[trigger] render(*r.first.condition, l) == Code::Ok("1"@),
            r.first.scope.children@.len() == 0,
            r.middle@.len() == 0,
            r.last is None,
    {
        ConditionalBuilder { first: If::default(), middle: Vec::new(), last: None }
    }
}

impl ConditionalBuilder {
    /// Replaces the first branch.
    pub fn with_if(self, block: If) -> (r: Self)
        ensures
            r.first == block,
            r.middle == self.middle,
            r.last == self.last,
    {
        ConditionalBuilder { first: block, middle: self.middle, last: self.last }
    }

    /// Adds an else-if branch after those already there.
    pub fn with_else_if(self, block: If) -> (r: Self)
        ensures
            r.first == self.first,
            r.middle@ == self.middle@.push(block),
            r.last == self.last,
    {
        let mut middle = self.middle;
        middle.push(block);
        ConditionalBuilder { first: self.first, middle, last: self.last }
    }

    /// Sets the final else branch, replacing any set before.
    pub fn with_else(self, block: Else) -> (r: Self)
        ensures
            r.first == self.first,
            r.middle == self.middle,
            r.last == Some(block),
    {
        ConditionalBuilder { first: self.first, middle: self.middle, last: Some(block) }
    }
}

impl ToCode for ConditionalBuilder {
    open spec fn code(&self, language: Language) -> Code {
        render(Node::Conditional(*self), language)
    }

    fn to_code(&self, language: Language) -> (r: Result<String, RenderError>) {
        emit_conditional(self, language)
    }

    fn into_node(self) -> (r: Node) {
        Node::Conditional(self)
    }
}

/// A branch guarded by a condition.
#[derive(Debug)]
pub struct If {
    pub condition: Box<Node>,
    pub scope: Scope,
}

impl Default for If {
    /// A branch that is always taken, with an empty body.
    fn default() -> (r: Self)
        ensures
            forall|l: Language| #[trigger] render(*r.condition, l) == Code::Ok("1"@),
            r.scope.children@.len() == 0,
    {
        If { condition: Box::new("1".into_node()), scope: Scope::default() }
    }
}

impl If {
    pub fn with_condition<T: ToCode>(self, condition: T) -> (r: Self)
        ensures
            forall|l: Language| #[trigger] render(*r.condition, l) == condition.code(l),
            r.scope == self.scope,
    {
        If { condition: Box::new(condition.into_node()), scope: self.scope }
    }

    pub fn with_scope(self, scope: Scope) -> (r: Self)
        ensures
            r.condition == self.condition,
            r.scope == scope,
    {
        If { condition: self.condition, scope }
    }
}

/// A branch on its own is written as the first branch of a chain.
impl ToCode for If {
    open spec fn code(&self, language: Language) -> Code {
        render_if(*self, language)
    }

    fn to_code(&self, language: Language) -> (r: Result<String, RenderError>) {
        emit_if(self, language)
    }

    fn into_node(self) -> (r: Node) {
        Node::If(self)
    }
}

/// The branch taken when no condition holds.
#[derive(Debug)]
pub struct Else {
    pub scope: Scope,
}

impl Default for Else {
    fn default() -> (r: Self)
        ensures
            r.scope.children@.len() == 0,
    {
        Else { scope: Scope::default() }
    }
}

impl Else {
    pub fn with_scope(self, scope: Scope) -> (r: Self)
        ensures
            r.scope == scope,
    {
        Else { scope }
    }
}

impl ToCode for Else {
    open spec fn code(&self, language: Language) -> Code {
        render_else(*self, language)
    }

    fn to_code(&self, language: Language) -> (r: Result<String, RenderError>) {
        emit_else(self, language)
    }

    fn into_node(self) -> (r: Node) {
        Node::Else(self)
    }
}

} // verus!
