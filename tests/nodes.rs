use unilang::block::{Else, If};
use unilang::expression::{FunctionCall, Ternary};
use unilang::print::Println;
use unilang::statement::{AssignVariable, Return, VariableInit};
use unilang::types::{Boolean, Float, Future, Generic, Integer, Number};
use unilang::{
    Comment, FunctionBuilder, Import, IndentType, Language, RenderError, Scope, ToCode, Value,
    Visibility, WithSemi,
};

fn py() -> Language {
    Language::Python {
        include_types: true,
        indent_level: None,
        indent_type: IndentType::Tab,
    }
}

fn py_untyped() -> Language {
    Language::Python {
        include_types: false,
        indent_level: None,
        indent_type: IndentType::Tab,
    }
}

#[test]
fn primitive_catalog() {
    assert_eq!(Integer.to_code(Language::Rust).unwrap(), "i32");
    assert_eq!(Integer.to_code(Language::TypeScript).unwrap(), "number");
    assert_eq!(Integer.to_code(Language::CPP).unwrap(), "int");
    assert_eq!(Integer.to_code(py()).unwrap(), "int");
    assert_eq!(Number.to_code(Language::Rust).unwrap(), "f32");
    assert_eq!(Number.to_code(Language::CPP).unwrap(), "double");
    assert_eq!(Float.to_code(py()).unwrap(), "float");
    assert_eq!(Boolean.to_code(Language::TypeScript).unwrap(), "boolean");
    assert_eq!(Boolean.to_code(Language::CPP).unwrap(), "bool");
}

#[test]
fn boolean_literals() {
    assert_eq!(Value::True.to_code(Language::Rust).unwrap(), "true");
    assert_eq!(Value::False.to_code(py()).unwrap(), "False");
}

#[test]
fn integer_literals_in_decimal() {
    assert_eq!(0.to_code(Language::Rust).unwrap(), "0");
    assert_eq!((-42i32).to_code(Language::Rust).unwrap(), "-42");
    assert_eq!(i32::MIN.to_code(Language::CPP).unwrap(), "-2147483648");
    assert_eq!(usize::MAX.to_code(Language::CPP).unwrap(), usize::MAX.to_string());
    assert_eq!(1907u32.into_node().to_code(Language::TypeScript).unwrap(), "1907");
}

#[test]
fn generic_types() {
    let g = || Generic(String::from("Map"), vec![Integer.into_node(), Boolean.into_node()]);
    assert_eq!(g().to_code(Language::Rust).unwrap(), "Map<i32,bool>");
    assert_eq!(g().to_code(py()).unwrap(), "Map[int,bool]");
}

#[test]
fn future_type_where_it_exists() {
    assert_eq!(Future(Integer).to_code(Language::Rust).unwrap(), "Future<i32>");
    assert_eq!(Future(Integer).to_code(Language::TypeScript).unwrap(), "Promise<number>");
    assert_eq!(
        Future(Integer).to_code(Language::CPP),
        Err(RenderError::UnsupportedConstruct)
    );
    assert_eq!(Future(Integer).to_code(py()), Err(RenderError::UnsupportedConstruct));
}

#[test]
fn call_joins_arguments() {
    let call = || FunctionCall("f", vec![1.into_node(), "x".into_node(), 3.into_node()]);
    assert_eq!(call().to_code(Language::CPP).unwrap(), "f(1,x,3)");
    assert_eq!(call().to_code(py()).unwrap(), "f(1,x,3)");
    assert_eq!(FunctionCall("g", vec![]).to_code(Language::Rust).unwrap(), "g()");
}

#[test]
fn ternary_forms() {
    let t = || Ternary("c", "a", "b");
    assert_eq!(t().to_code(Language::Rust).unwrap(), "if c{a}else{b}");
    assert_eq!(t().to_code(Language::TypeScript).unwrap(), "c?a:b");
    assert_eq!(t().to_code(Language::CPP).unwrap(), "c?a:b");
    assert_eq!(t().to_code(py()).unwrap(), "a if c else b");
}

#[test]
fn variable_declarations() {
    let v = || {
        VariableInit::default()
            .with_name("n")
            .with_type(Integer)
            .with_value(5)
    };
    assert_eq!(v().to_code(Language::Rust).unwrap(), "let n:i32=5;");
    assert_eq!(v().with_mutable(true).to_code(Language::Rust).unwrap(), "let mut n:i32=5;");
    assert_eq!(v().to_code(Language::TypeScript).unwrap(), "const n:number=5;");
    assert_eq!(v().with_mutable(true).to_code(Language::TypeScript).unwrap(), "let n:number=5;");
    assert_eq!(v().to_code(Language::CPP).unwrap(), "int n=5;");
    assert_eq!(v().to_code(py()).unwrap(), "n:int=5");
    assert_eq!(v().to_code(py_untyped()).unwrap(), "n=5");
    assert_eq!(VariableInit::default().to_code(Language::Rust).unwrap(), "let foo=bar;");
    assert_eq!(
        VariableInit::default().to_code(Language::CPP),
        Err(RenderError::MissingRequiredAnnotation)
    );
}

#[test]
fn assignments_and_returns() {
    assert_eq!(AssignVariable("x", 1).to_code(Language::CPP).unwrap(), "x=1;");
    assert_eq!(AssignVariable("x", 1).to_code(py()).unwrap(), "x=1");
    assert_eq!(Return(Some("x")).to_code(Language::Rust).unwrap(), "return x;");
    assert_eq!(Return(None::<i32>).to_code(Language::TypeScript).unwrap(), "return;");
    assert_eq!(Return(Some("x")).to_code(py()).unwrap(), "return x");
    assert_eq!(Return(None::<i32>).to_code(py()).unwrap(), "return");
}

#[test]
fn comments() {
    let text = || String::from(" hi");
    assert_eq!(Comment::Regular(text()).to_code(Language::Rust).unwrap(), "// hi\n");
    assert_eq!(Comment::Regular(text()).to_code(py()).unwrap(), "# hi");
    assert_eq!(Comment::MultiLine(text()).to_code(Language::CPP).unwrap(), "/* hi*/");
    assert_eq!(Comment::MultiLine(text()).to_code(py()).unwrap(), "\"\"\" hi\"\"\"");
    assert_eq!(Comment::Doc(text()).to_code(Language::Rust).unwrap(), "/// hi\n");
    assert_eq!(Comment::Doc(text()).to_code(Language::TypeScript).unwrap(), "/** hi*/");
    assert_eq!(Comment::Doc(text()).to_code(Language::CPP).unwrap(), "// hi\n");
    assert_eq!(Comment::Doc(text()).to_code(py()).unwrap(), "\"\"\" hi\"\"\"");
}

#[test]
fn imports() {
    let module = || Import::Module(String::from("util"));
    assert_eq!(module().to_code(Language::TypeScript).unwrap(), "import \"util\";");
    assert_eq!(module().to_code(Language::Rust).unwrap(), "mod util;");
    assert_eq!(module().to_code(Language::CPP).unwrap(), "#include \"util\"\n");
    assert_eq!(module().to_code(py()).unwrap(), "import util\n");
    let members = || {
        Import::Members(String::from("util"), vec![String::from("a"), String::from("b")])
    };
    assert_eq!(
        members().to_code(Language::TypeScript).unwrap(),
        "import {a,b} from \"util\";"
    );
    assert_eq!(members().to_code(Language::Rust).unwrap(), "use util::{a,b};");
    assert_eq!(members().to_code(py()).unwrap(), "from util import a,b\n");
    assert_eq!(members().to_code(Language::CPP), Err(RenderError::UnsupportedConstruct));
}

#[test]
fn printing() {
    assert_eq!(Println("x").to_code(Language::Rust).unwrap(), "println!(\"{:?}\",x);");
    assert_eq!(Println("x").to_code(Language::TypeScript).unwrap(), "console.log(x);");
    assert_eq!(Println("x").to_code(Language::CPP).unwrap(), "cout << x;");
    assert_eq!(Println("x").to_code(py()).unwrap(), "print(x)");
}

#[test]
fn terminator_wrapper() {
    assert_eq!(WithSemi(FunctionCall("f", vec![])).to_code(py()).unwrap(), "f();");
}

#[test]
fn visibility_keywords() {
    assert_eq!(Visibility::Public.to_code(Language::Rust).unwrap(), "pub");
    assert_eq!(Visibility::Public.to_code(Language::TypeScript).unwrap(), "export");
    assert_eq!(Visibility::Private.to_code(Language::Rust).unwrap(), "");
    assert_eq!(
        Visibility::Public.to_code(Language::CPP),
        Err(RenderError::UnsupportedConstruct)
    );
}

#[test]
fn functions_without_return_type() {
    let f = || {
        FunctionBuilder::new()
            .name("run")
            .with_scope(Scope::default())
            .build()
            .unwrap()
    };
    assert_eq!(f().to_code(Language::Rust).unwrap(), "fn run(){}");
    assert_eq!(f().to_code(Language::TypeScript).unwrap(), "function run():void{}");
    assert_eq!(f().to_code(Language::CPP).unwrap(), "void run(){}");
    assert_eq!(f().to_code(py()).unwrap(), "def run():");
}

#[test]
fn python_return_type_needs_annotations() {
    let f = FunctionBuilder::new()
        .name("one")
        .with_return_type(Integer)
        .with_scope(Scope::default().with(Return(Some(1))))
        .build()
        .unwrap();
    assert_eq!(f.to_code(py()).unwrap(), "def one()->int:\n\treturn 1");
    assert_eq!(f.to_code(py_untyped()).unwrap(), "def one():\n\treturn 1");
}

#[test]
fn builder_needs_name_and_body() {
    assert!(FunctionBuilder::new().build().is_none());
    assert!(FunctionBuilder::new().name("f").build().is_none());
    assert!(FunctionBuilder::new().with_scope(Scope::default()).build().is_none());
}

#[test]
fn depth_without_room_is_malformed() {
    let l = Language::Python {
        include_types: false,
        indent_level: Some(u32::MAX),
        indent_type: IndentType::Tab,
    };
    assert_eq!(
        Else::default().to_code(l),
        Err(RenderError::MalformedConfiguration)
    );
    assert_eq!(
        If::default().to_code(l),
        Err(RenderError::MalformedConfiguration)
    );
    assert_eq!(AssignVariable("x", 1).to_code(l).unwrap(), "x=1");
}

#[test]
fn spaces_as_indentation_unit() {
    let l = Language::Python {
        include_types: false,
        indent_level: None,
        indent_type: IndentType::Space(3),
    };
    let s = Scope::default().with(If::default());
    assert_eq!(s.to_code(l).unwrap(), "\nif 1:");
    let branch = If::default().with_scope(Scope::default().with("pass"));
    assert_eq!(branch.to_code(l).unwrap(), "if 1:\n   pass");
}

#[test]
fn branches_and_parameters_as_children() {
    let l = Language::TypeScript;
    let s = Scope::default()
        .with(If::default().with_condition("a"))
        .with(Else::default())
        .with(Visibility::Public);
    assert_eq!(s.to_code(l).unwrap(), "if(a){}else{}export");
    let p = unilang::Parameter(Box::new("n".into_node()), Some(Box::new(Integer.into_node())));
    assert_eq!(Scope::default().with(p).to_code(Language::CPP).unwrap(), "int n");
}

#[test]
fn node_lists_render_side_by_side() {
    let v = vec!["a".into_node(), 1.into_node(), Value::True.into_node()];
    assert_eq!(v.to_code(py()).unwrap(), "a1True");
    let v = vec!["a".into_node(), Future(Integer).into_node()];
    assert_eq!(v.to_code(Language::CPP), Err(RenderError::UnsupportedConstruct));
    let empty: Vec<unilang::Node> = Vec::new();
    assert_eq!(empty.to_code(Language::Rust).unwrap(), "");
}
