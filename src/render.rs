//! Rendering a tree: what each node's text is (the `render_*` spec
//! functions) and the code that writes it (the `emit_*` functions). A
//! render is a function of the tree and the target alone; the depth of
//! indentation travels down in the target, and nothing is stored on a node.
use vstd::prelude::*;

use crate::block::{ConditionalBuilder, Else, If};
use crate::emit::{
    assign_emit, binary_emit, call_emit, comment_emit, conditional_emit, else_emit, entry_emit,
    function_emit, future_emit, generic_emit, if_emit, import_emit, init_emit, param_emit,
    primitive_emit, print_emit, return_emit, scope_emit, semi_emit, ternary_emit, value_emit,
    visibility_emit,
};
use crate::function::{Function, Parameter};
use crate::language::{Language, RenderError};
use crate::node::Node;
use crate::scope::Scope;
use crate::statement::VariableInit;
use crate::syntax::{
    assign_code, binary_code, call_code, comment_text, conditional_code, else_code, entry_code,
    function_code, future_code, generic_code, if_code, import_code, init_code, param_code,
    opts_of, primitive_text, print_code, return_code, scope_text, semi_code, ternary_code, text_of,
    texts_of, value_text, visibility_code, Code, Codes, OptCode,
};
use crate::text::{decimal, decimal_text, join, join_texts, views};

verus! {

pub open spec fn render(n: Node, l: Language) -> Code
    decreases n,
{
    match n {
        Node::Text(s) => Ok(s@),
        Node::Int(i) => Ok(decimal(i as int)),
        Node::Value(v) => Ok(value_text(v, l)),
        Node::Primitive(p) => Ok(primitive_text(p, l)),
        Node::Generic(g) => generic_code(l, g.0@, render_all(g.1@, l)),
        Node::Future(v) => future_code(l, render(*v, l)),
        Node::Binary(op, a, b) => binary_code(op, l, render(*a, l), render(*b, l)),
        Node::Call(f, args) => call_code(render(*f, l), render_all(args@, l)),
        Node::Ternary(c, t, e) => ternary_code(l, render(*c, l), render(*t, l), render(*e, l)),
        Node::VariableInit(v) => init_code(
            l,
            v.mutable,
            render(*v.name, l),
            if l.shows_types() {
                render_opt(v.typ, l)
            } else {
                Ok(None)
            },
            render(*v.value, l),
        ),
        Node::Assign(a, b) => assign_code(l, render(*a, l), render(*b, l)),
        Node::Return(e) => return_code(l, render_opt(e, l)),
        Node::Comment(c) => Ok(comment_text(c, l)),
        Node::Conditional(c) => conditional_code(
            l,
            render_if(c.first, l),
            render_ifs(c.middle@, l),
            render_else_opt(c.last, l),
        ),
        Node::If(i) => render_if(i, l),
        Node::Else(e) => render_else(e, l),
        Node::Parameter(p) => render_param(p, l),
        Node::Visibility(v) => visibility_code(v, l),
        Node::Sequence(ns) => match render_all(ns@, l) {
            Ok(ps) => Ok(join(ps, ""@)),
            Err(e) => Err(e),
        },
        Node::Function(f) => function_code(
            l,
            f.visibility,
            f.name@,
            render_params(f.params@, l),
            if l.shows_types() {
                render_opt(f.return_type, l)
            } else {
                Ok(None)
            },
            match l.deeper() {
                Ok(dl) => render_scope(f.scope, dl),
                Err(e) => Err(e),
            },
        ),
        Node::Import(i) => import_code(i, l),
        Node::Println(v) => print_code(l, render(*v, l)),
        Node::WithSemi(v) => semi_code(render(*v, l)),
        Node::RunScope(s) => entry_code(l, render_scope(s, l)),
        Node::Scope(s) => render_scope(s, l),
    }
}

/// Each node of the list rendered, or the first error in list order.
pub open spec fn render_all(ns: Seq<Node>, l: Language) -> Codes
    decreases ns,
{
    if ns.len() == 0 {
        Ok(Seq::empty())
    } else {
        match render_all(ns.subrange(0, ns.len() - 1), l) {
            Err(e) => Err(e),
            Ok(ps) => match render(ns[ns.len() - 1], l) {
                Ok(p) => Ok(ps.push(p)),
                Err(e) => Err(e),
            },
        }
    }
}

pub open spec fn render_opt(o: Option<Box<Node>>, l: Language) -> OptCode
    decreases o,
{
    match o {
        Some(n) => match render(*n, l) {
            Ok(t) => Ok(Some(t)),
            Err(e) => Err(e),
        },
        None => Ok(None),
    }
}

pub open spec fn render_scope(s: Scope, l: Language) -> Code
    decreases s,
{
    match render_all(s.children@, l) {
        Ok(ps) => Ok(scope_text(l, ps)),
        Err(e) => Err(e),
    }
}

pub open spec fn render_if(i: If, l: Language) -> Code
    decreases i,
{
    if_code(
        l,
        render(*i.condition, l),
        match l.deeper() {
            Ok(dl) => render_scope(i.scope, dl),
            Err(e) => Err(e),
        },
    )
}

pub open spec fn render_ifs(is: Seq<If>, l: Language) -> Codes
    decreases is,
{
    if is.len() == 0 {
        Ok(Seq::empty())
    } else {
        match render_ifs(is.subrange(0, is.len() - 1), l) {
            Err(e) => Err(e),
            Ok(ps) => match render_if(is[is.len() - 1], l) {
                Ok(p) => Ok(ps.push(p)),
                Err(e) => Err(e),
            },
        }
    }
}

pub open spec fn render_else(e: Else, l: Language) -> Code
    decreases e,
{
    else_code(
        l,
        match l.deeper() {
            Ok(dl) => render_scope(e.scope, dl),
            Err(err) => Err(err),
        },
    )
}

pub open spec fn render_else_opt(o: Option<Else>, l: Language) -> OptCode
    decreases o,
{
    match o {
        Some(e) => match render_else(e, l) {
            Ok(t) => Ok(Some(t)),
            Err(err) => Err(err),
        },
        None => Ok(None),
    }
}

pub open spec fn render_param(p: Parameter, l: Language) -> Code
    decreases p,
{
    param_code(
        l,
        render(*p.0, l),
        if l.shows_types() {
            render_opt(p.1, l)
        } else {
            Ok(None)
        },
    )
}

pub open spec fn render_params(ps: Seq<Parameter>, l: Language) -> Codes
    decreases ps,
{
    if ps.len() == 0 {
        Ok(Seq::empty())
    } else {
        match render_params(ps.subrange(0, ps.len() - 1), l) {
            Err(e) => Err(e),
            Ok(ts) => match render_param(ps[ps.len() - 1], l) {
                Ok(t) => Ok(ts.push(t)),
                Err(e) => Err(e),
            },
        }
    }
}

/// Once a prefix of the list fails, the whole list fails with its error.
proof fn lemma_all_err(ns: Seq<Node>, k: int, l: Language)
    requires
        0 <= k <= ns.len(),
        render_all(ns.subrange(0, k), l) is Err,
    ensures
        render_all(ns, l) == render_all(ns.subrange(0, k), l),
    decreases ns.len(),
{
    if k == ns.len() {
        assert(ns.subrange(0, k) =~= ns);
    } else {
        let p = ns.subrange(0, ns.len() - 1);
        assert(p.subrange(0, k) =~= ns.subrange(0, k));
        lemma_all_err(p, k, l);
    }
}

proof fn lemma_ifs_err(is: Seq<If>, k: int, l: Language)
    requires
        0 <= k <= is.len(),
        render_ifs(is.subrange(0, k), l) is Err,
    ensures
        render_ifs(is, l) == render_ifs(is.subrange(0, k), l),
    decreases is.len(),
{
    if k == is.len() {
        assert(is.subrange(0, k) =~= is);
    } else {
        let p = is.subrange(0, is.len() - 1);
        assert(p.subrange(0, k) =~= is.subrange(0, k));
        lemma_ifs_err(p, k, l);
    }
}

proof fn lemma_params_err(ps: Seq<Parameter>, k: int, l: Language)
    requires
        0 <= k <= ps.len(),
        render_params(ps.subrange(0, k), l) is Err,
    ensures
        render_params(ps, l) == render_params(ps.subrange(0, k), l),
    decreases ps.len(),
{
    if k == ps.len() {
        assert(ps.subrange(0, k) =~= ps);
    } else {
        let p = ps.subrange(0, ps.len() - 1);
        assert(p.subrange(0, k) =~= ps.subrange(0, k));
        lemma_params_err(p, k, l);
    }
}

pub fn emit_node(n: &Node, l: Language) -> (r: Result<String, RenderError>)
    ensures
        text_of(r) == render(*n, l),
    decreases n,
{
    match n {
        Node::Text(s) => Ok(s.clone()),
        Node::Int(i) => Ok(decimal_text(*i)),
        Node::Value(v) => Ok(value_emit(*v, l)),
        Node::Primitive(p) => Ok(primitive_emit(*p, l)),
        Node::Generic(g) => generic_emit(l, g.0.as_str(), emit_all(&g.1, l)),
        Node::Future(v) => future_emit(l, emit_node(v, l)),
        Node::Binary(op, a, b) => binary_emit(*op, l, emit_node(a, l), emit_node(b, l)),
        Node::Call(f, args) => call_emit(emit_node(f, l), emit_all(args, l)),
        Node::Ternary(c, t, e) => ternary_emit(
            l,
            emit_node(c, l),
            emit_node(t, l),
            emit_node(e, l),
        ),
        Node::VariableInit(v) => emit_init(v, l),
        Node::Assign(a, b) => assign_emit(l, emit_node(a, l), emit_node(b, l)),
        Node::Return(e) => return_emit(l, emit_opt(e, l)),
        Node::Comment(c) => Ok(comment_emit(c, l)),
        Node::Conditional(c) => emit_conditional(c, l),
        Node::If(i) => emit_if(i, l),
        Node::Else(e) => emit_else(e, l),
        Node::Parameter(p) => emit_param(p, l),
        Node::Visibility(v) => visibility_emit(*v, l),
        Node::Sequence(ns) => match emit_all(ns, l) {
            Ok(parts) => Ok(join_texts(&parts, "")),
            Err(e) => Err(e),
        },
        Node::Function(f) => emit_function(f, l),
        Node::Import(i) => import_emit(i, l),
        Node::Println(v) => print_emit(l, emit_node(v, l)),
        Node::WithSemi(v) => semi_emit(emit_node(v, l)),
        Node::RunScope(s) => entry_emit(l, emit_scope(s, l)),
        Node::Scope(s) => emit_scope(s, l),
    }
}

pub fn emit_all(ns: &Vec<Node>, l: Language) -> (r: Result<Vec<String>, RenderError>)
    ensures
        texts_of(r) == render_all(ns@, l),
    decreases ns,
{
    let mut out: Vec<String> = Vec::new();
    let mut i: usize = 0;
    assert(views(out@) =~= Seq::<Seq<char>>::empty());
    assert(ns@.subrange(0, 0) =~= Seq::<Node>::empty());
    while i < ns.len()
        invariant
            i <= ns.len(),
            render_all(ns@.subrange(0, i as int), l) == Codes::Ok(views(out@)),
        decreases ns.len() - i,
    {
        let x = emit_node(&ns[i], l);
        proof {
            assert(ns@.subrange(0, i + 1).subrange(0, i as int) =~= ns@.subrange(0, i as int));
            assert(ns@.subrange(0, i + 1)[i as int] == ns@[i as int]);
        }
        match x {
            Err(e) => {
                proof {
                    lemma_all_err(ns@, i + 1, l);
                }
                return Err(e);
            },
            Ok(t) => {
                let ghost before = out@;
                out.push(t);
                assert(views(out@) =~= views(before).push(t@));
            },
        }
        i = i + 1;
    }
    assert(ns@.subrange(0, ns@.len() as int) =~= ns@);
    Ok(out)
}

pub fn emit_opt(o: &Option<Box<Node>>, l: Language) -> (r: Result<Option<String>, RenderError>)
    ensures
        opts_of(r) == render_opt(*o, l),
    decreases o,
{
    match o {
        Some(n) => match emit_node(n, l) {
            Ok(t) => Ok(Some(t)),
            Err(e) => Err(e),
        },
        None => Ok(None),
    }
}

pub fn emit_scope(s: &Scope, l: Language) -> (r: Result<String, RenderError>)
    ensures
        text_of(r) == render_scope(*s, l),
    decreases s,
{
    match emit_all(&s.children, l) {
        Ok(parts) => Ok(scope_emit(l, &parts)),
        Err(e) => Err(e),
    }
}

pub fn emit_if(i: &If, l: Language) -> (r: Result<String, RenderError>)
    ensures
        text_of(r) == render_if(*i, l),
    decreases i,
{
    let c = emit_node(&i.condition, l);
    let body = match l.deeper_exec() {
        Ok(dl) => emit_scope(&i.scope, dl),
        Err(e) => Err(e),
    };
    if_emit(l, c, body)
}

pub fn emit_ifs(is: &Vec<If>, l: Language) -> (r: Result<Vec<String>, RenderError>)
    ensures
        texts_of(r) == render_ifs(is@, l),
    decreases is,
{
    let mut out: Vec<String> = Vec::new();
    let mut i: usize = 0;
    assert(views(out@) =~= Seq::<Seq<char>>::empty());
    assert(is@.subrange(0, 0) =~= Seq::<If>::empty());
    while i < is.len()
        invariant
            i <= is.len(),
            render_ifs(is@.subrange(0, i as int), l) == Codes::Ok(views(out@)),
        decreases is.len() - i,
    {
        let x = emit_if(&is[i], l);
        proof {
            assert(is@.subrange(0, i + 1).subrange(0, i as int) =~= is@.subrange(0, i as int));
            assert(is@.subrange(0, i + 1)[i as int] == is@[i as int]);
        }
        match x {
            Err(e) => {
                proof {
                    lemma_ifs_err(is@, i + 1, l);
                }
                return Err(e);
            },
            Ok(t) => {
                let ghost before = out@;
                out.push(t);
                assert(views(out@) =~= views(before).push(t@));
            },
        }
        i = i + 1;
    }
    assert(is@.subrange(0, is@.len() as int) =~= is@);
    Ok(out)
}

pub fn emit_else(e: &Else, l: Language) -> (r: Result<String, RenderError>)
    ensures
        text_of(r) == render_else(*e, l),
    decreases e,
{
    let body = match l.deeper_exec() {
        Ok(dl) => emit_scope(&e.scope, dl),
        Err(err) => Err(err),
    };
    else_emit(l, body)
}

pub fn emit_else_opt(o: &Option<Else>, l: Language) -> (r: Result<Option<String>, RenderError>)
    ensures
        opts_of(r) == render_else_opt(*o, l),
    decreases o,
{
    match o {
        Some(e) => match emit_else(e, l) {
            Ok(t) => Ok(Some(t)),
            Err(err) => Err(err),
        },
        None => Ok(None),
    }
}

pub fn emit_param(p: &Parameter, l: Language) -> (r: Result<String, RenderError>)
    ensures
        text_of(r) == render_param(*p, l),
    decreases p,
{
    let name = emit_node(&p.0, l);
    let typ = if l.shows_types_exec() {
        emit_opt(&p.1, l)
    } else {
        Ok(None)
    };
    param_emit(l, name, typ)
}

pub fn emit_params(ps: &Vec<Parameter>, l: Language) -> (r: Result<Vec<String>, RenderError>)
    ensures
        texts_of(r) == render_params(ps@, l),
    decreases ps,
{
    let mut out: Vec<String> = Vec::new();
    let mut i: usize = 0;
    assert(views(out@) =~= Seq::<Seq<char>>::empty());
    assert(ps@.subrange(0, 0) =~= Seq::<Parameter>::empty());
    while i < ps.len()
        invariant
            i <= ps.len(),
            render_params(ps@.subrange(0, i as int), l) == Codes::Ok(views(out@)),
        decreases ps.len() - i,
    {
        let x = emit_param(&ps[i], l);
        proof {
            assert(ps@.subrange(0, i + 1).subrange(0, i as int) =~= ps@.subrange(0, i as int));
            assert(ps@.subrange(0, i + 1)[i as int] == ps@[i as int]);
        }
        match x {
            Err(e) => {
                proof {
                    lemma_params_err(ps@, i + 1, l);
                }
                return Err(e);
            },
            Ok(t) => {
                let ghost before = out@;
                out.push(t);
                assert(views(out@) =~= views(before).push(t@));
            },
        }
        i = i + 1;
    }
    assert(ps@.subrange(0, ps@.len() as int) =~= ps@);
    Ok(out)
}

pub fn emit_function(f: &Function, l: Language) -> (r: Result<String, RenderError>)
    ensures
        text_of(r) == render(Node::Function(*f), l),
    decreases f,
{
    let params = emit_params(&f.params, l);
    let ret = if l.shows_types_exec() {
        emit_opt(&f.return_type, l)
    } else {
        Ok(None)
    };
    let body = match l.deeper_exec() {
        Ok(dl) => emit_scope(&f.scope, dl),
        Err(e) => Err(e),
    };
    function_emit(l, f.visibility, f.name.as_str(), params, ret, body)
}

pub fn emit_init(v: &VariableInit, l: Language) -> (r: Result<String, RenderError>)
    ensures
        text_of(r) == render(Node::VariableInit(*v), l),
    decreases v,
{
    let name = emit_node(&v.name, l);
    let typ = if l.shows_types_exec() {
        emit_opt(&v.typ, l)
    } else {
        Ok(None)
    };
    let value = emit_node(&v.value, l);
    init_emit(l, v.mutable, name, typ, value)
}

pub fn emit_conditional(c: &ConditionalBuilder, l: Language) -> (r: Result<String, RenderError>)
    ensures
        text_of(r) == render(Node::Conditional(*c), l),
    decreases c,
{
    let first = emit_if(&c.first, l);
    let middle = emit_ifs(&c.middle, l);
    let last = emit_else_opt(&c.last, l);
    conditional_emit(l, first, middle, last)
}

} // verus!
