//! Each target's syntax, applied to pieces that are already written out.
//! Nodes supply the pieces; these functions supply brackets, keywords,
//! terminators and indentation. The `*_text` functions build text; the
//! `*_code` functions also pass on the first error among the pieces.
use vstd::prelude::*;

use crate::function::Visibility;
use crate::import::Import;
use crate::language::{Language, RenderError};
use crate::node::{Operator, Primitive, Value};
use crate::statement::Comment;
use crate::text::{decimal, join, views};

verus! {

/// Rendered text, or the error that stopped the render.
pub type Code = Result<Seq<char>, RenderError>;

/// Rendered texts of a list, or the first error among them.
pub type Codes = Result<Seq<Seq<char>>, RenderError>;

/// Rendered text of an optional part, or the error that stopped it.
pub type OptCode = Result<Option<Seq<char>>, RenderError>;

pub open spec fn text_of(r: Result<String, RenderError>) -> Code {
    match r {
        Ok(s) => Ok(s@),
        Err(e) => Err(e),
    }
}

pub open spec fn texts_of(r: Result<Vec<String>, RenderError>) -> Codes {
    match r {
        Ok(v) => Ok(views(v@)),
        Err(e) => Err(e),
    }
}

pub open spec fn opt_view(o: Option<String>) -> Option<Seq<char>> {
    match o {
        Some(s) => Some(s@),
        None => None,
    }
}

pub open spec fn opts_of(r: Result<Option<String>, RenderError>) -> OptCode {
    match r {
        Ok(o) => Ok(opt_view(o)),
        Err(e) => Err(e),
    }
}

/// `s` where `b` holds, else nothing.
pub open spec fn only_if(b: bool, s: Seq<char>) -> Seq<char> {
    if b {
        s
    } else {
        Seq::empty()
    }
}

/// `prefix` and the part where it is present, else nothing.
pub open spec fn opt_text(prefix: Seq<char>, o: Option<Seq<char>>) -> Seq<char> {
    match o {
        Some(t) => prefix + t,
        None => Seq::empty(),
    }
}

/// Each piece with `p` in front of it.
pub open spec fn prefixed(p: Seq<char>, parts: Seq<Seq<char>>) -> Seq<Seq<char>> {
    parts.map_values(|x: Seq<char>| p + x)
}

pub open spec fn value_text(v: Value, l: Language) -> Seq<char> {
    match v {
        Value::True => if l is Python {
            "True"@
        } else {
            "true"@
        },
        Value::False => if l is Python {
            "False"@
        } else {
            "false"@
        },
    }
}

pub open spec fn primitive_text(p: Primitive, l: Language) -> Seq<char> {
    match p {
        Primitive::Number | Primitive::Float => match l {
            Language::Rust => "f32"@,
            Language::TypeScript => "number"@,
            Language::CPP => "double"@,
            Language::Python { .. } => "float"@,
        },
        Primitive::Integer => match l {
            Language::Rust => "i32"@,
            Language::TypeScript => "number"@,
            Language::CPP => "int"@,
            Language::Python { .. } => "int"@,
        },
        Primitive::Boolean => match l {
            Language::TypeScript => "boolean"@,
            _ => "bool"@,
        },
    }
}

pub open spec fn op_token(op: Operator, l: Language) -> Seq<char> {
    match op {
        Operator::Add => "+"@,
        Operator::Subtract => "-"@,
        Operator::Multiply => "*"@,
        Operator::Divide => "/"@,
        Operator::Modulus => "%"@,
        Operator::Equal => match l {
            Language::TypeScript | Language::CPP => "==="@,
            _ => "=="@,
        },
        Operator::GreaterThan => ">"@,
        Operator::LessThan => "<"@,
        Operator::LessThanOrEq => "<="@,
        Operator::GreaterThanOrEq => ">="@,
        Operator::And => if l is Python {
            " and "@
        } else {
            "&&"@
        },
        Operator::Or => if l is Python {
            " or "@
        } else {
            "||"@
        },
    }
}

/// Arithmetic is written bare; comparisons and combinators are grouped in
/// one pair of parentheses.
pub open spec fn binary_text(op: Operator, l: Language, a: Seq<char>, b: Seq<char>) -> Seq<char> {
    if op.is_arithmetic() {
        a + op_token(op, l) + b
    } else {
        "("@ + a + op_token(op, l) + b + ")"@
    }
}

pub open spec fn binary_code(op: Operator, l: Language, a: Code, b: Code) -> Code {
    match (a, b) {
        (Ok(x), Ok(y)) => Ok(binary_text(op, l, x, y)),
        (Err(e), _) => Err(e),
        (_, Err(e)) => Err(e),
    }
}

/// A type applied to arguments: angle brackets, or square ones in the
/// indentation-sensitive target.
pub open spec fn generic_text(l: Language, name: Seq<char>, args: Seq<char>) -> Seq<char> {
    if l is Python {
        name + "["@ + args + "]"@
    } else {
        name + "<"@ + args + ">"@
    }
}

pub open spec fn generic_code(l: Language, name: Seq<char>, args: Codes) -> Code {
    match args {
        Ok(ps) => Ok(generic_text(l, name, join(ps, ","@))),
        Err(e) => Err(e),
    }
}

/// The asynchronous-result type exists in two targets only.
pub open spec fn future_code(l: Language, v: Code) -> Code {
    match v {
        Err(e) => Err(e),
        Ok(t) => match l {
            Language::Rust => Ok(generic_text(l, "Future"@, t)),
            Language::TypeScript => Ok(generic_text(l, "Promise"@, t)),
            _ => Err(RenderError::UnsupportedConstruct),
        },
    }
}

pub open spec fn call_code(f: Code, args: Codes) -> Code {
    match (f, args) {
        (Ok(x), Ok(ps)) => Ok(x + "("@ + join(ps, ","@) + ")"@),
        (Err(e), _) => Err(e),
        (_, Err(e)) => Err(e),
    }
}

pub open spec fn ternary_text(l: Language, c: Seq<char>, t: Seq<char>, e: Seq<char>) -> Seq<char> {
    match l {
        Language::Rust => "if "@ + c + "{"@ + t + "}else{"@ + e + "}"@,
        Language::TypeScript | Language::CPP => c + "?"@ + t + ":"@ + e,
        Language::Python { .. } => t + " if "@ + c + " else "@ + e,
    }
}

pub open spec fn ternary_code(l: Language, c: Code, t: Code, e: Code) -> Code {
    match (c, t, e) {
        (Ok(x), Ok(y), Ok(z)) => Ok(ternary_text(l, x, y, z)),
        (Err(err), _, _) => Err(err),
        (_, Err(err), _) => Err(err),
        (_, _, Err(err)) => Err(err),
    }
}

pub open spec fn init_text(
    l: Language,
    mutable: Option<bool>,
    name: Seq<char>,
    typ: Option<Seq<char>>,
    value: Seq<char>,
) -> Seq<char> {
    match l {
        Language::Rust => "let "@ + only_if(mutable == Some(true), "mut "@) + name + opt_text(":"@, typ)
            + "="@ + value + ";"@,
        Language::TypeScript => (if mutable == Some(true) {
            "let"@
        } else {
            "const"@
        }) + " "@ + name + opt_text(":"@, typ) + "="@ + value + ";"@,
        Language::CPP => opt_text(Seq::empty(), typ) + " "@ + name + "="@ + value + ";"@,
        Language::Python { .. } => name + opt_text(":"@, typ) + "="@ + value,
    }
}

/// A declaration with an initializer; the systems target demands its type.
pub open spec fn init_code(
    l: Language,
    mutable: Option<bool>,
    name: Code,
    typ: OptCode,
    value: Code,
) -> Code {
    match (name, typ, value) {
        (Ok(x), Ok(t), Ok(v)) => if l is CPP && t is None {
            Err(RenderError::MissingRequiredAnnotation)
        } else {
            Ok(init_text(l, mutable, x, t, v))
        },
        (Err(e), _, _) => Err(e),
        (_, Err(e), _) => Err(e),
        (_, _, Err(e)) => Err(e),
    }
}

pub open spec fn assign_code(l: Language, a: Code, b: Code) -> Code {
    match (a, b) {
        (Ok(x), Ok(y)) => Ok(x + "="@ + y + only_if(!(l is Python), ";"@)),
        (Err(e), _) => Err(e),
        (_, Err(e)) => Err(e),
    }
}

pub open spec fn return_text(l: Language, e: Option<Seq<char>>) -> Seq<char> {
    match e {
        Some(x) => "return "@ + x + only_if(!(l is Python), ";"@),
        None => "return"@ + only_if(!(l is Python), ";"@),
    }
}

pub open spec fn return_code(l: Language, e: OptCode) -> Code {
    match e {
        Ok(o) => Ok(return_text(l, o)),
        Err(err) => Err(err),
    }
}

pub open spec fn comment_text(c: Comment, l: Language) -> Seq<char> {
    match c {
        Comment::Regular(s) => if l is Python {
            "#"@ + s@
        } else {
            "//"@ + s@ + "\n"@
        },
        Comment::MultiLine(s) => if l is Python {
            "\"\"\""@ + s@ + "\"\"\""@
        } else {
            "/*"@ + s@ + "*/"@
        },
        Comment::Doc(s) => match l {
            Language::Rust => "///"@ + s@ + "\n"@,
            Language::TypeScript => "/**"@ + s@ + "*/"@,
            Language::CPP => "//"@ + s@ + "\n"@,
            Language::Python { .. } => "\"\"\""@ + s@ + "\"\"\""@,
        },
    }
}

pub open spec fn if_text(l: Language, c: Seq<char>, b: Seq<char>) -> Seq<char> {
    match l {
        Language::Rust | Language::TypeScript | Language::CPP => "if("@ + c + "){"@ + b + "}"@,
        Language::Python { .. } => "if "@ + c + ":"@ + b,
    }
}

pub open spec fn if_code(l: Language, c: Code, b: Code) -> Code {
    match (c, b) {
        (Ok(x), Ok(y)) => Ok(if_text(l, x, y)),
        (Err(e), _) => Err(e),
        (_, Err(e)) => Err(e),
    }
}

pub open spec fn else_code(l: Language, b: Code) -> Code {
    match b {
        Ok(y) => Ok(
            if l is Python {
                "else:"@ + y
            } else {
                "else{"@ + y + "}"@
            },
        ),
        Err(e) => Err(e),
    }
}

/// The whole chain. In the indentation-sensitive target every branch, the
/// first included, starts a line at the current depth, and an else-if is
/// fused into `elif`.
pub open spec fn conditional_text(
    l: Language,
    first: Seq<char>,
    middle: Seq<Seq<char>>,
    last: Option<Seq<char>>,
) -> Seq<char> {
    if l is Python {
        l.line_start() + first + join(prefixed(l.line_start() + "el"@, middle), ""@) + opt_text(
            l.line_start(),
            last,
        )
    } else {
        first + join(prefixed("else "@, middle), ""@) + opt_text(Seq::empty(), last) + only_if(
            l is Rust,
            ";"@,
        )
    }
}

pub open spec fn conditional_code(l: Language, first: Code, middle: Codes, last: OptCode) -> Code {
    match (first, middle, last) {
        (Ok(x), Ok(ms), Ok(e)) => Ok(conditional_text(l, x, ms, e)),
        (Err(err), _, _) => Err(err),
        (_, Err(err), _) => Err(err),
        (_, _, Err(err)) => Err(err),
    }
}

/// The visibility keyword of the targets that have one.
pub open spec fn visibility_word(v: Visibility, l: Language) -> Seq<char> {
    match (v, l) {
        (Visibility::Public, Language::Rust) => "pub"@,
        (Visibility::Public, Language::TypeScript) => "export"@,
        _ => Seq::empty(),
    }
}

pub open spec fn visibility_code(v: Visibility, l: Language) -> Code {
    match l {
        Language::Rust | Language::TypeScript => Ok(visibility_word(v, l)),
        _ => Err(RenderError::UnsupportedConstruct),
    }
}

pub open spec fn param_text(l: Language, name: Seq<char>, typ: Option<Seq<char>>) -> Seq<char> {
    match l {
        Language::Rust => name + opt_text(":"@, typ),
        Language::TypeScript => name + ":"@ + (match typ {
            Some(t) => t,
            None => "any"@,
        }),
        Language::CPP => opt_text(Seq::empty(), typ) + " "@ + name,
        Language::Python { .. } => name + opt_text(":"@, typ),
    }
}

/// A parameter; the native and systems targets demand its type.
pub open spec fn param_code(l: Language, name: Code, typ: OptCode) -> Code {
    match (name, typ) {
        (Ok(x), Ok(t)) => if (l is Rust || l is CPP) && t is None {
            Err(RenderError::MissingRequiredAnnotation)
        } else {
            Ok(param_text(l, x, t))
        },
        (Err(e), _) => Err(e),
        (_, Err(e)) => Err(e),
    }
}

pub open spec fn function_text(
    l: Language,
    v: Visibility,
    name: Seq<char>,
    params: Seq<char>,
    ret: Option<Seq<char>>,
    body: Seq<char>,
) -> Seq<char> {
    match l {
        Language::Rust => visibility_word(v, l) + only_if(v is Public, " "@) + "fn "@ + name + "("@
            + params + ")"@ + opt_text("->"@, ret) + "{"@ + body + "}"@,
        Language::TypeScript => visibility_word(v, l) + only_if(v is Public, " "@) + "function "@ + name
            + "("@ + params + ")"@ + (match ret {
            Some(r) => ":"@ + r,
            None => ":void"@,
        }) + "{"@ + body + "}"@,
        Language::CPP => (match ret {
            Some(r) => r,
            None => "void"@,
        }) + " "@ + name + "("@ + params + "){"@ + body + "}"@,
        Language::Python { .. } => "def "@ + name + "("@ + params + ")"@ + opt_text("->"@, ret)
            + ":"@ + body,
    }
}

pub open spec fn function_code(
    l: Language,
    v: Visibility,
    name: Seq<char>,
    params: Codes,
    ret: OptCode,
    body: Code,
) -> Code {
    match (params, ret, body) {
        (Ok(ps), Ok(r), Ok(b)) => Ok(function_text(l, v, name, join(ps, ","@), r, b)),
        (Err(e), _, _) => Err(e),
        (_, Err(e), _) => Err(e),
        (_, _, Err(e)) => Err(e),
    }
}

/// Imports; the systems target has no form that names members.
pub open spec fn import_code(i: Import, l: Language) -> Code {
    match i {
        Import::Module(loc) => Ok(
            match l {
                Language::TypeScript => "import \""@ + loc@ + "\";"@,
                Language::Rust => "mod "@ + loc@ + ";"@,
                Language::CPP => "#include \""@ + loc@ + "\"\n"@,
                Language::Python { .. } => "import "@ + loc@ + "\n"@,
            },
        ),
        Import::Members(loc, ms) => match l {
            Language::TypeScript => Ok(
                "import {"@ + join(views(ms@), ","@) + "} from \""@ + loc@ + "\";"@,
            ),
            Language::Rust => Ok("use "@ + loc@ + "::{"@ + join(views(ms@), ","@) + "};"@),
            Language::Python { .. } => Ok(
                "from "@ + loc@ + " import "@ + join(views(ms@), ","@) + "\n"@,
            ),
            Language::CPP => Err(RenderError::UnsupportedConstruct),
        },
    }
}

pub open spec fn print_code(l: Language, v: Code) -> Code {
    match v {
        Ok(x) => Ok(
            match l {
                Language::Python { .. } => "print("@ + x + ")"@,
                Language::TypeScript => "console.log("@ + x + ");"@,
                Language::Rust => "println!(\"{:?}\","@ + x + ");"@,
                Language::CPP => "cout << "@ + x + ";"@,
            },
        ),
        Err(e) => Err(e),
    }
}

pub open spec fn semi_code(v: Code) -> Code {
    match v {
        Ok(x) => Ok(x + ";"@),
        Err(e) => Err(e),
    }
}

/// A body: its statements one after another, each on a line of its own at
/// the current depth in the indentation-sensitive target.
pub open spec fn scope_text(l: Language, parts: Seq<Seq<char>>) -> Seq<char> {
    if l is Python {
        join(prefixed(l.line_start(), parts), ""@)
    } else {
        join(parts, ""@)
    }
}

/// What a target needs to run a body as a program: the systems target an
/// entry function returning the integer type that ends with a return of 1,
/// the native target an entry function with no declared return, the others
/// nothing around the body.
pub open spec fn entry_code(l: Language, body: Code) -> Code {
    match body {
        Err(e) => Err(e),
        Ok(b) => Ok(
            match l {
                Language::CPP => function_text(
                    l,
                    Visibility::Private,
                    "main"@,
                    Seq::empty(),
                    Some(primitive_text(Primitive::Integer, l)),
                    scope_text(l, seq![b, return_text(l, Some(decimal(1)))]),
                ),
                Language::Rust => function_text(
                    l,
                    Visibility::Private,
                    "main"@,
                    Seq::empty(),
                    None,
                    scope_text(l, seq![b]),
                ),
                _ => b,
            },
        ),
    }
}

} // verus!
