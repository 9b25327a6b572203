//! Properties of rendering that hold of every tree and every target.
use vstd::prelude::*;

use crate::block::{Else, If};
use crate::function::{Function, Parameter};
use crate::language::{Language, RenderError};
use crate::node::{Node, Operator};
use crate::render::{
    render, render_all, render_else, render_if, render_opt, render_param, render_params,
    render_scope,
};
use crate::scope::Scope;
use crate::syntax::{else_code, function_code, if_code, op_token, prefixed, Code, Codes};
use crate::text::{join, repeat};

verus! {

/// A render is a function of the tree and the target alone: equal trees
/// rendered for equal targets give the same text, or the same error, each
/// time.
pub proof fn render_is_deterministic(a: Node, b: Node, l: Language, m: Language)
    requires
        a == b,
        l == m,
    ensures
        render(a, l) == render(b, m),
{
}

/// Arithmetic operators add no parentheses around their result; comparisons
/// and boolean combinators wrap theirs in exactly one pair, whatever the
/// operands are.
pub proof fn grouping_policy(op: Operator, a: Node, b: Node, l: Language)
    requires
        render(a, l) is Ok,
        render(b, l) is Ok,
    ensures
        ({
            let x = render(a, l)->Ok_0;
            let y = render(b, l)->Ok_0;
            let r = render(Node::Binary(op, Box::new(a), Box::new(b)), l);
            &&& op.is_arithmetic() ==> r == Code::Ok(x + op_token(op, l) + y)
            &&& !op.is_arithmetic() ==> r == Code::Ok(
                seq!['('] + x + op_token(op, l) + y + seq![')'],
            )
        }),
{
    reveal_strlit("(");
    reveal_strlit(")");
    assert("("@ =~= seq!['(']);
    assert(")"@ =~= seq![')']);
}

/// Where every node of a list renders, the list's texts are those renders,
/// one for each node, in order.
pub proof fn lemma_render_all_ok(ns: Seq<Node>, l: Language)
    requires
        render_all(ns, l) is Ok,
    ensures
        render_all(ns, l)->Ok_0.len() == ns.len(),
        forall|i: int|
            0 <= i < ns.len() ==> #[trigger] render(ns[i], l) == Code::Ok(
                render_all(ns, l)->Ok_0[i],
            ),
    decreases ns.len(),
{
    if ns.len() > 0 {
        let p = ns.subrange(0, ns.len() - 1);
        lemma_render_all_ok(p, l);
        assert forall|i: int| 0 <= i < ns.len() implies #[trigger] render(ns[i], l) == Code::Ok(
            render_all(ns, l)->Ok_0[i],
        ) by {
            if i < ns.len() - 1 {
                assert(p[i] == ns[i]);
            }
        }
    }
}

/// In the indentation-sensitive target every statement of a body starts a
/// line of its own, indented by the unit once per level of the depth the
/// body is rendered at: statements side by side share that depth.
pub proof fn siblings_share_depth(s: Scope, l: Language)
    requires
        l is Python,
        render_all(s.children@, l) is Ok,
    ensures
        ({
            let parts = render_all(s.children@, l)->Ok_0;
            &&& parts.len() == s.children@.len()
            &&& forall|i: int|
                0 <= i < parts.len() ==> #[trigger] render(s.children@[i], l) == Code::Ok(parts[i])
            &&& render_scope(s, l) == Code::Ok(join(prefixed(l.line_start(), parts), ""@))
            &&& l.line_start() == "\n"@ + repeat(l.unit(), l.depth())
        }),
{
    lemma_render_all_ok(s.children@, l);
}

/// A body held by a function, a branch or an else is rendered one level
/// deeper than the construct that holds it: each of its lines carries
/// exactly one more indentation unit.
pub proof fn nested_body_one_level_deeper(l: Language, f: Function, i: If, e: Else)
    requires
        l is Python,
        l.depth() < u32::MAX,
    ensures
        l.deeper() is Ok,
        ({
            let inner = l.deeper()->Ok_0;
            &&& inner is Python
            &&& inner.depth() == l.depth() + 1
            &&& inner.unit() == l.unit()
            &&& inner.line_start() == l.line_start() + l.unit()
            &&& render_if(i, l) == if_code(l, render(*i.condition, l), render_scope(i.scope, inner))
            &&& render_else(e, l) == else_code(l, render_scope(e.scope, inner))
            &&& render(Node::Function(f), l) == function_code(
                l,
                f.visibility,
                f.name@,
                render_params(f.params@, l),
                if l.shows_types() {
                    render_opt(f.return_type, l)
                } else {
                    Ok(None)
                },
                render_scope(f.scope, inner),
            )
        }),
{
    let inner = l.deeper()->Ok_0;
    assert(repeat(l.unit(), l.depth() + 1) == repeat(l.unit(), l.depth()) + l.unit());
    assert(inner.line_start() =~= l.line_start() + l.unit());
}

/// A parameter without a type has no form in the systems target, nor in
/// the native one: its render fails with `MissingRequiredAnnotation`, and no
/// type is put in its place.
pub proof fn untyped_parameter_is_rejected(p: Parameter, l: Language)
    requires
        l is CPP || l is Rust,
        p.1 is None,
        render(*p.0, l) is Ok,
    ensures
        render_param(p, l) == Code::Err(RenderError::MissingRequiredAnnotation),
{
}

/// Where every parameter renders or lacks only a demanded type, the list
/// renders or fails with `MissingRequiredAnnotation`; it fails so as soon as
/// one parameter lacks its type.
pub proof fn lemma_params_missing(ps: Seq<Parameter>, l: Language)
    requires
        forall|i: int|
            0 <= i < ps.len() ==> (#[trigger] render_param(ps[i], l) is Ok || render_param(ps[i], l)
                == Code::Err(RenderError::MissingRequiredAnnotation)),
    ensures
        render_params(ps, l) is Ok || render_params(ps, l) == Codes::Err(
            RenderError::MissingRequiredAnnotation,
        ),
        (exists|j: int|
            0 <= j < ps.len() && #[trigger] render_param(ps[j], l) == Code::Err(
                RenderError::MissingRequiredAnnotation,
            )) ==> render_params(ps, l) == Codes::Err(RenderError::MissingRequiredAnnotation),
    decreases ps.len(),
{
    if ps.len() > 0 {
        let p = ps.subrange(0, ps.len() - 1);
        assert forall|i: int| 0 <= i < p.len() implies (#[trigger] render_param(p[i], l) is Ok
            || render_param(p[i], l) == Code::Err(RenderError::MissingRequiredAnnotation)) by {
            assert(p[i] == ps[i]);
        }
        lemma_params_missing(p, l);
        assert(render_param(ps[ps.len() - 1], l) is Ok || render_param(ps[ps.len() - 1], l)
            == Code::Err(RenderError::MissingRequiredAnnotation));
        if exists|j: int|
            0 <= j < ps.len() && #[trigger] render_param(ps[j], l) == Code::Err(
                RenderError::MissingRequiredAnnotation,
            ) {
            let j = choose|j: int|
                0 <= j < ps.len() && #[trigger] render_param(ps[j], l) == Code::Err(
                    RenderError::MissingRequiredAnnotation,
                );
            if j < ps.len() - 1 {
                assert(p[j] == ps[j]);
                assert(render_param(p[j], l) == Code::Err(RenderError::MissingRequiredAnnotation));
            }
        }
    }
}

/// A function with a parameter that has no type has no form in the systems
/// target, nor in the native one: where every parameter's name and given type
/// render, the function's render fails with `MissingRequiredAnnotation`, and
/// no type is put in the missing one's place.
pub proof fn function_with_untyped_parameter_is_rejected(f: Function, l: Language)
    requires
        l is CPP || l is Rust,
        forall|i: int|
            0 <= i < f.params@.len() ==> #[trigger] render(*f.params@[i].0, l) is Ok,
        forall|i: int|
            0 <= i < f.params@.len() && f.params@[i].1 is Some ==> #[trigger] render_opt(
                f.params@[i].1,
                l,
            ) is Ok,
        exists|j: int| 0 <= j < f.params@.len() && #[trigger] f.params@[j].1 is None,
    ensures
        render(Node::Function(f), l) == Code::Err(RenderError::MissingRequiredAnnotation),
{
    let ps = f.params@;
    assert forall|i: int| 0 <= i < ps.len() implies (#[trigger] render_param(ps[i], l) is Ok
        || render_param(ps[i], l) == Code::Err(RenderError::MissingRequiredAnnotation)) by {
        assert(render(*ps[i].0, l) is Ok);
        if ps[i].1 is Some {
            assert(render_opt(ps[i].1, l) is Ok);
        }
    }
    let j = choose|j: int| 0 <= j < ps.len() && #[trigger] ps[j].1 is None;
    assert(render(*ps[j].0, l) is Ok);
    assert(render_param(ps[j], l) == Code::Err(RenderError::MissingRequiredAnnotation));
    lemma_params_missing(ps, l);
}

} // verus!
