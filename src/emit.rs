//! Executable twins of the syntax functions: each takes pieces that are
//! already written out (or the error that stopped one) and returns exactly
//! what its spec function describes.
use vstd::prelude::*;

use crate::function::Visibility;
use crate::import::Import;
use crate::language::{Language, RenderError};
use crate::node::{Operator, Primitive, Value};
use crate::statement::Comment;
use crate::syntax::{
    assign_code, binary_code, call_code, comment_text, conditional_code, else_code, entry_code,
    function_code, future_code, generic_code, if_code, import_code, init_code, op_token, opt_text,
    opt_view, opts_of, param_code, prefixed, primitive_text, print_code, return_code, return_text,
    scope_text, semi_code, ternary_code, text_of, texts_of, value_text, visibility_code,
    visibility_word, only_if,
};
use crate::text::{decimal_text, join, join_texts, views};

verus! {

type Emitted = Result<String, RenderError>;

type EmittedAll = Result<Vec<String>, RenderError>;

type EmittedOpt = Result<Option<String>, RenderError>;

fn only_if_emit(b: bool, s: &str) -> (r: String)
    ensures
        r@ == only_if(b, s@),
{
    if b {
        String::from_str(s)
    } else {
        String::new()
    }
}

fn opt_emit(prefix: &str, o: &Option<String>) -> (r: String)
    ensures
        r@ == opt_text(prefix@, opt_view(*o)),
{
    match o {
        Some(t) => {
            let mut r = String::from_str(prefix);
            r.append(t.as_str());
            r
        },
        None => String::new(),
    }
}

fn or_empty_emit(o: &Option<String>) -> (r: String)
    ensures
        r@ == opt_text(Seq::empty(), opt_view(*o)),
{
    match o {
        Some(t) => {
            let r = t.clone();
            assert(Seq::<char>::empty() + t@ =~= t@);
            r
        },
        None => String::new(),
    }
}

/// Each piece with `p` in front of it.
fn prefixed_emit(p: &str, parts: &Vec<String>) -> (r: Vec<String>)
    ensures
        views(r@) == prefixed(p@, views(parts@)),
{
    let mut out: Vec<String> = Vec::new();
    let mut i: usize = 0;
    while i < parts.len()
        invariant
            i <= parts.len(),
            out@.len() == i,
            forall|j: int| 0 <= j < i ==> #[trigger] out@[j]@ == p@ + parts@[j]@,
        decreases parts.len() - i,
    {
        let mut s = String::from_str(p);
        s.append(parts[i].as_str());
        out.push(s);
        i = i + 1;
    }
    assert(views(out@) =~= prefixed(p@, views(parts@)));
    out
}

pub fn value_emit(v: Value, l: Language) -> (r: String)
    ensures
        r@ == value_text(v, l),
{
    let py = match l {
        Language::Python { .. } => true,
        _ => false,
    };
    match v {
        Value::True => String::from_str(if py { "True" } else { "true" }),
        Value::False => String::from_str(if py { "False" } else { "false" }),
    }
}

pub fn primitive_emit(p: Primitive, l: Language) -> (r: String)
    ensures
        r@ == primitive_text(p, l),
{
    let t = match p {
        Primitive::Number | Primitive::Float => match l {
            Language::Rust => "f32",
            Language::TypeScript => "number",
            Language::CPP => "double",
            Language::Python { .. } => "float",
        },
        Primitive::Integer => match l {
            Language::Rust => "i32",
            Language::TypeScript => "number",
            Language::CPP => "int",
            Language::Python { .. } => "int",
        },
        Primitive::Boolean => match l {
            Language::TypeScript => "boolean",
            _ => "bool",
        },
    };
    String::from_str(t)
}

fn op_token_str(op: Operator, l: Language) -> (r: &'static str)
    ensures
        r@ == op_token(op, l),
{
    let py = match l {
        Language::Python { .. } => true,
        _ => false,
    };
    match op {
        Operator::Add => "+",
        Operator::Subtract => "-",
        Operator::Multiply => "*",
        Operator::Divide => "/",
        Operator::Modulus => "%",
        Operator::Equal => match l {
            Language::TypeScript | Language::CPP => "===",
            _ => "==",
        },
        Operator::GreaterThan => ">",
        Operator::LessThan => "<",
        Operator::LessThanOrEq => "<=",
        Operator::GreaterThanOrEq => ">=",
        Operator::And => if py {
            " and "
        } else {
            "&&"
        },
        Operator::Or => if py {
            " or "
        } else {
            "||"
        },
    }
}

pub fn binary_emit(op: Operator, l: Language, a: Emitted, b: Emitted) -> (r: Emitted)
    ensures
        text_of(r) == binary_code(op, l, text_of(a), text_of(b)),
{
    match a {
        Err(e) => Err(e),
        Ok(x) => match b {
            Err(e) => Err(e),
            Ok(y) => {
                let t = op_token_str(op, l);
                if op.arithmetic() {
                    let mut s = x;
                    s.append(t);
                    s.append(y.as_str());
                    Ok(s)
                } else {
                    let mut s = String::from_str("(");
                    s.append(x.as_str());
                    s.append(t);
                    s.append(y.as_str());
                    s.append(")");
                    Ok(s)
                }
            },
        },
    }
}

fn generic_text_emit(l: Language, name: &str, args: &str) -> (r: String)
    ensures
        r@ == crate::syntax::generic_text(l, name@, args@),
{
    let mut s = String::from_str(name);
    match l {
        Language::Python { .. } => {
            s.append("[");
            s.append(args);
            s.append("]");
        },
        _ => {
            s.append("<");
            s.append(args);
            s.append(">");
        },
    }
    s
}

pub fn generic_emit(l: Language, name: &str, args: EmittedAll) -> (r: Emitted)
    ensures
        text_of(r) == generic_code(l, name@, texts_of(args)),
{
    match args {
        Ok(ps) => {
            let joined = join_texts(&ps, ",");
            Ok(generic_text_emit(l, name, joined.as_str()))
        },
        Err(e) => Err(e),
    }
}

pub fn future_emit(l: Language, v: Emitted) -> (r: Emitted)
    ensures
        text_of(r) == future_code(l, text_of(v)),
{
    match v {
        Err(e) => Err(e),
        Ok(t) => match l {
            Language::Rust => Ok(generic_text_emit(l, "Future", t.as_str())),
            Language::TypeScript => Ok(generic_text_emit(l, "Promise", t.as_str())),
            _ => Err(RenderError::UnsupportedConstruct),
        },
    }
}

pub fn call_emit(f: Emitted, args: EmittedAll) -> (r: Emitted)
    ensures
        text_of(r) == call_code(text_of(f), texts_of(args)),
{
    match f {
        Err(e) => Err(e),
        Ok(x) => match args {
            Err(e) => Err(e),
            Ok(ps) => {
                let mut s = x;
                s.append("(");
                let joined = join_texts(&ps, ",");
                s.append(joined.as_str());
                s.append(")");
                Ok(s)
            },
        },
    }
}

pub fn ternary_emit(l: Language, c: Emitted, t: Emitted, e: Emitted) -> (r: Emitted)
    ensures
        text_of(r) == ternary_code(l, text_of(c), text_of(t), text_of(e)),
{
    match (c, t, e) {
        (Ok(x), Ok(y), Ok(z)) => {
            let s = match l {
                Language::Rust => {
                    let mut s = String::from_str("if ");
                    s.append(x.as_str());
                    s.append("{");
                    s.append(y.as_str());
                    s.append("}else{");
                    s.append(z.as_str());
                    s.append("}");
                    s
                },
                Language::TypeScript | Language::CPP => {
                    let mut s = x;
                    s.append("?");
                    s.append(y.as_str());
                    s.append(":");
                    s.append(z.as_str());
                    s
                },
                Language::Python { .. } => {
                    let mut s = y;
                    s.append(" if ");
                    s.append(x.as_str());
                    s.append(" else ");
                    s.append(z.as_str());
                    s
                },
            };
            Ok(s)
        },
        (Err(err), _, _) => Err(err),
        (_, Err(err), _) => Err(err),
        (_, _, Err(err)) => Err(err),
    }
}

pub fn init_emit(
    l: Language,
    mutable: Option<bool>,
    name: Emitted,
    typ: EmittedOpt,
    value: Emitted,
) -> (r: Emitted)
    ensures
        text_of(r) == init_code(l, mutable, text_of(name), opts_of(typ), text_of(value)),
{
    match (name, typ, value) {
        (Ok(x), Ok(t), Ok(v)) => {
            let is_mut = match mutable {
                Some(b) => b,
                None => false,
            };
            assert(is_mut == (mutable == Some(true)));
            match l {
                Language::Rust => {
                    let mut s = String::from_str("let ");
                    s.append(only_if_emit(is_mut, "mut ").as_str());
                    s.append(x.as_str());
                    s.append(opt_emit(":", &t).as_str());
                    s.append("=");
                    s.append(v.as_str());
                    s.append(";");
                    Ok(s)
                },
                Language::TypeScript => {
                    let mut s = String::from_str(
                        if is_mut {
                            "let"
                        } else {
                            "const"
                        },
                    );
                    s.append(" ");
                    s.append(x.as_str());
                    s.append(opt_emit(":", &t).as_str());
                    s.append("=");
                    s.append(v.as_str());
                    s.append(";");
                    Ok(s)
                },
                Language::CPP => {
                    if t.is_none() {
                        Err(RenderError::MissingRequiredAnnotation)
                    } else {
                        let mut s = or_empty_emit(&t);
                        s.append(" ");
                        s.append(x.as_str());
                        s.append("=");
                        s.append(v.as_str());
                        s.append(";");
                        Ok(s)
                    }
                },
                Language::Python { .. } => {
                    let mut s = x;
                    s.append(opt_emit(":", &t).as_str());
                    s.append("=");
                    s.append(v.as_str());
                    Ok(s)
                },
            }
        },
        (Err(e), _, _) => Err(e),
        (_, Err(e), _) => Err(e),
        (_, _, Err(e)) => Err(e),
    }
}

fn is_python(l: Language) -> (r: bool)
    ensures
        r == l is Python,
{
    match l {
        Language::Python { .. } => true,
        _ => false,
    }
}

pub fn assign_emit(l: Language, a: Emitted, b: Emitted) -> (r: Emitted)
    ensures
        text_of(r) == assign_code(l, text_of(a), text_of(b)),
{
    match (a, b) {
        (Ok(x), Ok(y)) => {
            let mut s = x;
            s.append("=");
            s.append(y.as_str());
            s.append(only_if_emit(!is_python(l), ";").as_str());
            Ok(s)
        },
        (Err(e), _) => Err(e),
        (_, Err(e)) => Err(e),
    }
}

fn return_text_emit(l: Language, e: &Option<String>) -> (r: String)
    ensures
        r@ == return_text(l, opt_view(*e)),
{
    let mut s = match e {
        Some(x) => {
            let mut s = String::from_str("return ");
            s.append(x.as_str());
            s
        },
        None => String::from_str("return"),
    };
    s.append(only_if_emit(!is_python(l), ";").as_str());
    s
}

pub fn return_emit(l: Language, e: EmittedOpt) -> (r: Emitted)
    ensures
        text_of(r) == return_code(l, opts_of(e)),
{
    match e {
        Ok(o) => Ok(return_text_emit(l, &o)),
        Err(err) => Err(err),
    }
}

pub fn comment_emit(c: &Comment, l: Language) -> (r: String)
    ensures
        r@ == comment_text(*c, l),
{
    let py = is_python(l);
    match c {
        Comment::Regular(s) => if py {
            let mut r = String::from_str("#");
            r.append(s.as_str());
            r
        } else {
            let mut r = String::from_str("//");
            r.append(s.as_str());
            r.append("\n");
            r
        },
        Comment::MultiLine(s) => if py {
            let mut r = String::from_str("\"\"\"");
            r.append(s.as_str());
            r.append("\"\"\"");
            r
        } else {
            let mut r = String::from_str("/*");
            r.append(s.as_str());
            r.append("*/");
            r
        },
        Comment::Doc(s) => match l {
            Language::Rust => {
                let mut r = String::from_str("///");
                r.append(s.as_str());
                r.append("\n");
                r
            },
            Language::TypeScript => {
                let mut r = String::from_str("/**");
                r.append(s.as_str());
                r.append("*/");
                r
            },
            Language::CPP => {
                let mut r = String::from_str("//");
                r.append(s.as_str());
                r.append("\n");
                r
            },
            Language::Python { .. } => {
                let mut r = String::from_str("\"\"\"");
                r.append(s.as_str());
                r.append("\"\"\"");
                r
            },
        },
    }
}

pub fn if_emit(l: Language, c: Emitted, b: Emitted) -> (r: Emitted)
    ensures
        text_of(r) == if_code(l, text_of(c), text_of(b)),
{
    match (c, b) {
        (Ok(x), Ok(y)) => {
            let s = match l {
                Language::Rust | Language::TypeScript | Language::CPP => {
                    let mut s = String::from_str("if(");
                    s.append(x.as_str());
                    s.append("){");
                    s.append(y.as_str());
                    s.append("}");
                    s
                },
                Language::Python { .. } => {
                    let mut s = String::from_str("if ");
                    s.append(x.as_str());
                    s.append(":");
                    s.append(y.as_str());
                    s
                },
            };
            Ok(s)
        },
        (Err(e), _) => Err(e),
        (_, Err(e)) => Err(e),
    }
}

pub fn else_emit(l: Language, b: Emitted) -> (r: Emitted)
    ensures
        text_of(r) == else_code(l, text_of(b)),
{
    match b {
        Ok(y) => if is_python(l) {
            let mut s = String::from_str("else:");
            s.append(y.as_str());
            Ok(s)
        } else {
            let mut s = String::from_str("else{");
            s.append(y.as_str());
            s.append("}");
            Ok(s)
        },
        Err(e) => Err(e),
    }
}

pub fn conditional_emit(
    l: Language,
    first: Emitted,
    middle: EmittedAll,
    last: EmittedOpt,
) -> (r: Emitted)
    ensures
        text_of(r) == conditional_code(l, text_of(first), texts_of(middle), opts_of(last)),
{
    match (first, middle, last) {
        (Ok(x), Ok(ms), Ok(e)) => {
            if is_python(l) {
                let mut p = l.line_start_exec();
                p.append("el");
                let branches = join_texts(&prefixed_emit(p.as_str(), &ms), "");
                let start = l.line_start_exec();
                let mut s = l.line_start_exec();
                s.append(x.as_str());
                s.append(branches.as_str());
                s.append(opt_emit(start.as_str(), &e).as_str());
                Ok(s)
            } else {
                let branches = join_texts(&prefixed_emit("else ", &ms), "");
                let mut s = x;
                s.append(branches.as_str());
                s.append(or_empty_emit(&e).as_str());
                let rust = match l {
                    Language::Rust => true,
                    _ => false,
                };
                s.append(only_if_emit(rust, ";").as_str());
                Ok(s)
            }
        },
        (Err(err), _, _) => Err(err),
        (_, Err(err), _) => Err(err),
        (_, _, Err(err)) => Err(err),
    }
}

fn visibility_word_emit(v: Visibility, l: Language) -> (r: String)
    ensures
        r@ == visibility_word(v, l),
{
    match (v, l) {
        (Visibility::Public, Language::Rust) => String::from_str("pub"),
        (Visibility::Public, Language::TypeScript) => String::from_str("export"),
        _ => String::new(),
    }
}

pub fn visibility_emit(v: Visibility, l: Language) -> (r: Emitted)
    ensures
        text_of(r) == visibility_code(v, l),
{
    match l {
        Language::Rust | Language::TypeScript => Ok(visibility_word_emit(v, l)),
        _ => Err(RenderError::UnsupportedConstruct),
    }
}

pub fn param_emit(l: Language, name: Emitted, typ: EmittedOpt) -> (r: Emitted)
    ensures
        text_of(r) == param_code(l, text_of(name), opts_of(typ)),
{
    match (name, typ) {
        (Ok(x), Ok(t)) => match l {
            Language::Rust => if t.is_none() {
                Err(RenderError::MissingRequiredAnnotation)
            } else {
                let mut s = x;
                s.append(opt_emit(":", &t).as_str());
                Ok(s)
            },
            Language::TypeScript => {
                let mut s = x;
                s.append(":");
                match t {
                    Some(ty) => s.append(ty.as_str()),
                    None => s.append("any"),
                }
                Ok(s)
            },
            Language::CPP => if t.is_none() {
                Err(RenderError::MissingRequiredAnnotation)
            } else {
                let mut s = or_empty_emit(&t);
                s.append(" ");
                s.append(x.as_str());
                Ok(s)
            },
            Language::Python { .. } => {
                let mut s = x;
                s.append(opt_emit(":", &t).as_str());
                Ok(s)
            },
        },
        (Err(e), _) => Err(e),
        (_, Err(e)) => Err(e),
    }
}

pub fn function_emit(
    l: Language,
    v: Visibility,
    name: &str,
    params: EmittedAll,
    ret: EmittedOpt,
    body: Emitted,
) -> (r: Emitted)
    ensures
        text_of(r) == function_code(l, v, name@, texts_of(params), opts_of(ret), text_of(body)),
{
    match (params, ret, body) {
        (Ok(ps), Ok(rt), Ok(b)) => {
            let joined = join_texts(&ps, ",");
            let public = match v {
                Visibility::Public => true,
                Visibility::Private => false,
            };
            let s = match l {
                Language::Rust => {
                    let mut s = visibility_word_emit(v, l);
                    s.append(only_if_emit(public, " ").as_str());
                    s.append("fn ");
                    s.append(name);
                    s.append("(");
                    s.append(joined.as_str());
                    s.append(")");
                    s.append(opt_emit("->", &rt).as_str());
                    s.append("{");
                    s.append(b.as_str());
                    s.append("}");
                    s
                },
                Language::TypeScript => {
                    let mut s = visibility_word_emit(v, l);
                    s.append(only_if_emit(public, " ").as_str());
                    s.append("function ");
                    s.append(name);
                    s.append("(");
                    s.append(joined.as_str());
                    s.append(")");
                    let annotation = match rt {
                        Some(t) => {
                            let mut a = String::from_str(":");
                            a.append(t.as_str());
                            a
                        },
                        None => String::from_str(":void"),
                    };
                    s.append(annotation.as_str());
                    s.append("{");
                    s.append(b.as_str());
                    s.append("}");
                    s
                },
                Language::CPP => {
                    let mut s = match rt {
                        Some(t) => t,
                        None => String::from_str("void"),
                    };
                    s.append(" ");
                    s.append(name);
                    s.append("(");
                    s.append(joined.as_str());
                    s.append("){");
                    s.append(b.as_str());
                    s.append("}");
                    s
                },
                Language::Python { .. } => {
                    let mut s = String::from_str("def ");
                    s.append(name);
                    s.append("(");
                    s.append(joined.as_str());
                    s.append(")");
                    s.append(opt_emit("->", &rt).as_str());
                    s.append(":");
                    s.append(b.as_str());
                    s
                },
            };
            Ok(s)
        },
        (Err(e), _, _) => Err(e),
        (_, Err(e), _) => Err(e),
        (_, _, Err(e)) => Err(e),
    }
}

pub fn import_emit(i: &Import, l: Language) -> (r: Emitted)
    ensures
        text_of(r) == import_code(*i, l),
{
    match i {
        Import::Module(loc) => {
            let s = match l {
                Language::TypeScript => {
                    let mut s = String::from_str("import \"");
                    s.append(loc.as_str());
                    s.append("\";");
                    s
                },
                Language::Rust => {
                    let mut s = String::from_str("mod ");
                    s.append(loc.as_str());
                    s.append(";");
                    s
                },
                Language::CPP => {
                    let mut s = String::from_str("#include \"");
                    s.append(loc.as_str());
                    s.append("\"\n");
                    s
                },
                Language::Python { .. } => {
                    let mut s = String::from_str("import ");
                    s.append(loc.as_str());
                    s.append("\n");
                    s
                },
            };
            Ok(s)
        },
        Import::Members(loc, ms) => match l {
            Language::TypeScript => {
                let mut s = String::from_str("import {");
                s.append(join_texts(ms, ",").as_str());
                s.append("} from \"");
                s.append(loc.as_str());
                s.append("\";");
                Ok(s)
            },
            Language::Rust => {
                let mut s = String::from_str("use ");
                s.append(loc.as_str());
                s.append("::{");
                s.append(join_texts(ms, ",").as_str());
                s.append("};");
                Ok(s)
            },
            Language::Python { .. } => {
                let mut s = String::from_str("from ");
                s.append(loc.as_str());
                s.append(" import ");
                s.append(join_texts(ms, ",").as_str());
                s.append("\n");
                Ok(s)
            },
            Language::CPP => Err(RenderError::UnsupportedConstruct),
        },
    }
}

pub fn print_emit(l: Language, v: Emitted) -> (r: Emitted)
    ensures
        text_of(r) == print_code(l, text_of(v)),
{
    match v {
        Ok(x) => {
            let s = match l {
                Language::Python { .. } => {
                    let mut s = String::from_str("print(");
                    s.append(x.as_str());
                    s.append(")");
                    s
                },
                Language::TypeScript => {
                    let mut s = String::from_str("console.log(");
                    s.append(x.as_str());
                    s.append(");");
                    s
                },
                Language::Rust => {
                    let mut s = String::from_str("println!(\"{:?}\",");
                    s.append(x.as_str());
                    s.append(");");
                    s
                },
                Language::CPP => {
                    let mut s = String::from_str("cout << ");
                    s.append(x.as_str());
                    s.append(";");
                    s
                },
            };
            Ok(s)
        },
        Err(e) => Err(e),
    }
}

pub fn semi_emit(v: Emitted) -> (r: Emitted)
    ensures
        text_of(r) == semi_code(text_of(v)),
{
    match v {
        Ok(x) => {
            let mut s = x;
            s.append(";");
            Ok(s)
        },
        Err(e) => Err(e),
    }
}

pub fn scope_emit(l: Language, parts: &Vec<String>) -> (r: String)
    ensures
        r@ == scope_text(l, views(parts@)),
{
    if is_python(l) {
        let start = l.line_start_exec();
        join_texts(&prefixed_emit(start.as_str(), parts), "")
    } else {
        join_texts(parts, "")
    }
}

pub fn entry_emit(l: Language, body: Emitted) -> (r: Emitted)
    ensures
        text_of(r) == entry_code(l, text_of(body)),
{
    match body {
        Err(e) => Err(e),
        Ok(b) => match l {
            Language::CPP => {
                let done = return_text_emit(l, &Some(decimal_text(1)));
                let ghost b_view = b@;
                let mut parts: Vec<String> = Vec::new();
                parts.push(b);
                parts.push(done);
                assert(views(parts@) =~= seq![b_view, return_text(l, Some(crate::text::decimal(1)))]);
                let inner = scope_emit(l, &parts);
                let r = function_emit(
                    l,
                    Visibility::Private,
                    "main",
                    Ok(Vec::new()),
                    Ok(Some(primitive_emit(Primitive::Integer, l))),
                    Ok(inner),
                );
                r
            },
            Language::Rust => {
                let ghost b_view = b@;
                let mut parts: Vec<String> = Vec::new();
                parts.push(b);
                assert(views(parts@) =~= seq![b_view]);
                let inner = scope_emit(l, &parts);
                let r = function_emit(l, Visibility::Private, "main", Ok(Vec::new()), Ok(None), Ok(inner));
                r
            },
            _ => Ok(b),
        },
    }
}

} // verus!
