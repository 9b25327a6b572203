//! The closed family of nodes that a program tree is made of.
use vstd::prelude::*;

use crate::block::{ConditionalBuilder, Else, If};
use crate::function::{Function, Parameter, Visibility};
use crate::import::Import;
use crate::scope::Scope;
use crate::statement::{Comment, VariableInit};
use crate::types::Generic;
use crate::emit::value_emit;
use crate::language::{Language, RenderError};
use crate::render::{emit_all, emit_node, render};
use crate::text::join_texts;
use crate::syntax::{text_of, value_text, Code};
use crate::text::{decimal, decimal_text};

verus! {

/// A boolean literal.
#[derive(Debug, Clone, Copy, PartialEq, Eq, Structural)]
pub enum Value {
    False,
    True,
}

/// A type of the primitive catalog.
#[derive(Debug, Clone, Copy, PartialEq, Eq, Structural)]
pub enum Primitive {
    Number,
    Integer,
    Float,
    Boolean,
}

/// A binary operator: five arithmetic ones, then the comparisons and the
/// boolean combinators.
#[derive(Debug, Clone, Copy, PartialEq, Eq, Structural)]
pub enum Operator {
    Add,
    Subtract,
    Multiply,
    Divide,
    Modulus,
    Equal,
    GreaterThan,
    LessThan,
    LessThanOrEq,
    GreaterThanOrEq,
    And,
    Or,
}

impl Operator {
    /// Arithmetic operators write their result bare; the others group it.
    pub open spec fn is_arithmetic(self) -> bool {
        match self {
            Operator::Add | Operator::Subtract | Operator::Multiply | Operator::Divide
            | Operator::Modulus => true,
            _ => false,
        }
    }

    pub fn arithmetic(&self) -> (r: bool)
        ensures
            r == self.is_arithmetic(),
    {
        match self {
            Operator::Add | Operator::Subtract | Operator::Multiply | Operator::Divide
            | Operator::Modulus => true,
            _ => false,
        }
    }
}

/// One node of a program tree. A node owns its children; nothing is shared.
#[derive(Debug)]
pub enum Node {
    /// Text written as it is: a name, an expression already written out.
    Text(String),
    /// An integer literal, in decimal.
    Int(i128),
    Value(Value),
    Primitive(Primitive),
    Generic(Generic),
    /// The type of an asynchronous result.
    Future(Box<Node>),
    Binary(Operator, Box<Node>, Box<Node>),
    /// A call: the callee and the arguments.
    Call(Box<Node>, Vec<Node>),
    /// A conditional expression: condition, then value, else value.
    Ternary(Box<Node>, Box<Node>, Box<Node>),
    VariableInit(VariableInit),
    /// An assignment: target, then value.
    Assign(Box<Node>, Box<Node>),
    Return(Option<Box<Node>>),
    Comment(Comment),
    Conditional(ConditionalBuilder),
    /// One branch on its own, written as the first branch of a chain.
    If(If),
    /// An else branch on its own.
    Else(Else),
    Function(Function),
    Parameter(Parameter),
    Visibility(Visibility),
    Import(Import),
    Println(Box<Node>),
    /// A node followed by a statement terminator.
    WithSemi(Box<Node>),
    /// A body wrapped in whatever the target needs to run it as a program.
    RunScope(Scope),
    Scope(Scope),
    /// Nodes written one after another, with nothing between them.
    Sequence(Vec<Node>),
}

/// The rendering contract: a value that can be written out as source text
/// for a target, and that can take its place in a tree as a node.
pub trait ToCode {
    /// The text for `language`, or the error that stops the render.
    spec fn code(&self, language: Language) -> Code;

    /// Writes the value out for `language`. The result is a function of the
    /// value and the target alone.
    fn to_code(&self, language: Language) -> (r: Result<String, RenderError>)
        ensures
            text_of(r) == self.code(language),
    ;

    /// The node that stands for this value in a tree: it renders exactly as
    /// the value does, in every target.
    fn into_node(self) -> (r: Node)
        ensures
            forall|l: Language| #[trigger] render(r, l) == self.code(l),
    ;
}

impl ToCode for Node {
    open spec fn code(&self, language: Language) -> Code {
        render(*self, language)
    }

    fn to_code(&self, language: Language) -> (r: Result<String, RenderError>) {
        emit_node(self, language)
    }

    fn into_node(self) -> (r: Node) {
        self
    }
}

impl<'a> ToCode for &'a str {
    open spec fn code(&self, language: Language) -> Code {
        Ok((*self)@)
    }

    fn to_code(&self, language: Language) -> (r: Result<String, RenderError>) {
        Ok(String::from_str(*self))
    }

    fn into_node(self) -> (r: Node) {
        Node::Text(String::from_str(self))
    }
}

impl ToCode for String {
    open spec fn code(&self, language: Language) -> Code {
        Ok(self@)
    }

    fn to_code(&self, language: Language) -> (r: Result<String, RenderError>) {
        Ok(self.clone())
    }

    fn into_node(self) -> (r: Node) {
        Node::Text(self)
    }
}

impl ToCode for i32 {
    open spec fn code(&self, language: Language) -> Code {
        Ok(decimal(*self as int))
    }

    fn to_code(&self, language: Language) -> (r: Result<String, RenderError>) {
        Ok(decimal_text(*self as i128))
    }

    fn into_node(self) -> (r: Node) {
        Node::Int(self as i128)
    }
}

impl ToCode for isize {
    open spec fn code(&self, language: Language) -> Code {
        Ok(decimal(*self as int))
    }

    fn to_code(&self, language: Language) -> (r: Result<String, RenderError>) {
        Ok(decimal_text(*self as i128))
    }

    fn into_node(self) -> (r: Node) {
        Node::Int(self as i128)
    }
}

impl ToCode for usize {
    open spec fn code(&self, language: Language) -> Code {
        Ok(decimal(*self as int))
    }

    fn to_code(&self, language: Language) -> (r: Result<String, RenderError>) {
        Ok(decimal_text(*self as i128))
    }

    fn into_node(self) -> (r: Node) {
        Node::Int(self as i128)
    }
}

impl ToCode for u32 {
    open spec fn code(&self, language: Language) -> Code {
        Ok(decimal(*self as int))
    }

    fn to_code(&self, language: Language) -> (r: Result<String, RenderError>) {
        Ok(decimal_text(*self as i128))
    }

    fn into_node(self) -> (r: Node) {
        Node::Int(self as i128)
    }
}

impl ToCode for Value {
    open spec fn code(&self, language: Language) -> Code {
        Ok(value_text(*self, language))
    }

    fn to_code(&self, language: Language) -> (r: Result<String, RenderError>) {
        Ok(value_emit(*self, language))
    }

    fn into_node(self) -> (r: Node) {
        Node::Value(self)
    }
}

impl ToCode for Vec<Node> {
    open spec fn code(&self, language: Language) -> Code {
        render(Node::Sequence(*self), language)
    }

    fn to_code(&self, language: Language) -> (r: Result<String, RenderError>) {
        match emit_all(self, language) {
            Ok(parts) => Ok(join_texts(&parts, "")),
            Err(e) => Err(e),
        }
    }

    fn into_node(self) -> (r: Node) {
        Node::Sequence(self)
    }
}

} // verus!
