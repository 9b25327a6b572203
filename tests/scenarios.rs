use unilang::block::{ConditionalBuilder, Else, If};
use unilang::expression::FunctionCall;
use unilang::operation::Add;
use unilang::print::Println;
use unilang::statement::{AssignVariable, Return, VariableInit};
use unilang::types::Integer;
use unilang::{
    FunctionBuilder, IndentType, Language, Parameter, RenderError, RunScope, Scope, ToCode,
    Visibility,
};

fn python(depth: Option<u32>) -> Language {
    Language::Python {
        include_types: true,
        indent_level: depth,
        indent_type: IndentType::Tab,
    }
}

fn typed(name: &str) -> Parameter {
    Parameter(Box::new(name.into_node()), Some(Box::new(Integer.into_node())))
}

fn add_with_local() -> Scope {
    Scope::default().with(
        FunctionBuilder::new()
            .with_visibility(Visibility::Public)
            .name("add")
            .with_return_type(Integer)
            .with_param(typed("a"))
            .with_param(typed("b"))
            .with_scope(
                Scope::default()
                    .with(VariableInit::default().with_name("sum").with_value(Add("a", "b")))
                    .with(Return(Some("sum"))),
            )
            .build()
            .unwrap(),
    )
}

fn chain() -> ConditionalBuilder {
    ConditionalBuilder::default()
        .with_if(
            If::default()
                .with_condition("c1")
                .with_scope(Scope::default().with(AssignVariable("x", 1))),
        )
        .with_else_if(
            If::default()
                .with_condition("c2")
                .with_scope(Scope::default().with(AssignVariable("x", 2))),
        )
        .with_else(Else::default().with_scope(Scope::default().with(AssignVariable("x", 3))))
}

#[test]
fn add_with_local_native() {
    assert_eq!(
        add_with_local().to_code(Language::Rust).unwrap(),
        "pub fn add(a:i32,b:i32)->i32{let sum=a+b;return sum;}"
    );
}

#[test]
fn add_with_local_gradually_typed() {
    assert_eq!(
        add_with_local().to_code(Language::TypeScript).unwrap(),
        "export function add(a:number,b:number):number{const sum=a+b;return sum;}"
    );
}

#[test]
fn add_with_local_untyped_local_in_systems_target() {
    assert_eq!(
        add_with_local().to_code(Language::CPP),
        Err(RenderError::MissingRequiredAnnotation)
    );
}

#[test]
fn chain_curly() {
    assert_eq!(
        chain().to_code(Language::TypeScript).unwrap(),
        "if(c1){x=1;}else if(c2){x=2;}else{x=3;}"
    );
    assert_eq!(
        chain().to_code(Language::CPP).unwrap(),
        "if(c1){x=1;}else if(c2){x=2;}else{x=3;}"
    );
}

#[test]
fn chain_native_has_terminator() {
    assert_eq!(
        chain().to_code(Language::Rust).unwrap(),
        "if(c1){x=1;}else if(c2){x=2;}else{x=3;};"
    );
}

#[test]
fn chain_indentation_sensitive_uses_elif() {
    assert_eq!(
        chain().to_code(python(None)).unwrap(),
        "\nif c1:\n\tx=1\nelif c2:\n\tx=2\nelse:\n\tx=3"
    );
    assert_eq!(
        Scope::default().with(chain()).to_code(python(None)).unwrap(),
        "\n\nif c1:\n\tx=1\nelif c2:\n\tx=2\nelse:\n\tx=3"
    );
}

#[test]
fn chain_indentation_sensitive_plain_bodies() {
    let c = ConditionalBuilder::default()
        .with_if(If::default().with_condition("c1").with_scope(Scope::default().with("x")))
        .with_else_if(If::default().with_condition("c2").with_scope(Scope::default().with("y")))
        .with_else(Else::default().with_scope(Scope::default().with("z")));
    let l = Language::Python {
        include_types: false,
        indent_level: None,
        indent_type: IndentType::Tab,
    };
    assert_eq!(c.to_code(l).unwrap(), "\nif c1:\n\tx\nelif c2:\n\ty\nelse:\n\tz");
}

#[test]
fn chain_indentation_sensitive_keeps_depth_for_every_branch() {
    assert_eq!(
        chain().to_code(python(Some(1))).unwrap(),
        "\n\tif c1:\n\t\tx=1\n\telif c2:\n\t\tx=2\n\telse:\n\t\tx=3"
    );
}

#[test]
fn chain_keeps_else_if_order_and_last_else() {
    let c = chain()
        .with_else_if(If::default().with_condition("c3"))
        .with_else(Else::default());
    assert_eq!(
        c.to_code(Language::TypeScript).unwrap(),
        "if(c1){x=1;}else if(c2){x=2;}else if(c3){}else{}"
    );
}

#[test]
fn default_chain_is_always_taken() {
    assert_eq!(
        ConditionalBuilder::default().to_code(Language::CPP).unwrap(),
        "if(1){}"
    );
}

#[test]
fn entry_point_systems_target() {
    let program = RunScope(
        Scope::default().with(Println(FunctionCall("fibonacci", vec![5.into_node()]))),
    );
    assert_eq!(
        program.to_code(Language::CPP).unwrap(),
        "int main(){cout << fibonacci(5);return 1;}"
    );
}

#[test]
fn entry_point_other_targets() {
    let program = || {
        RunScope(Scope::default().with(Println(FunctionCall("fibonacci", vec![5.into_node()]))))
    };
    assert_eq!(
        program().to_code(Language::Rust).unwrap(),
        "fn main(){println!(\"{:?}\",fibonacci(5));}"
    );
    assert_eq!(
        program().to_code(Language::TypeScript).unwrap(),
        "console.log(fibonacci(5));"
    );
    assert_eq!(
        program().to_code(python(None)).unwrap(),
        "\nprint(fibonacci(5))"
    );
}

#[test]
fn untyped_parameter_in_curly_target() {
    let p = Parameter(Box::new("a".into_node()), None);
    assert_eq!(p.to_code(Language::CPP), Err(RenderError::MissingRequiredAnnotation));
    assert_eq!(p.to_code(Language::Rust), Err(RenderError::MissingRequiredAnnotation));
    let f = FunctionBuilder::new()
        .name("f")
        .with_param(Parameter(Box::new("a".into_node()), None))
        .with_scope(Scope::default())
        .build()
        .unwrap();
    assert_eq!(f.to_code(Language::CPP), Err(RenderError::MissingRequiredAnnotation));
}

#[test]
fn untyped_parameter_elsewhere() {
    let p = Parameter(Box::new("a".into_node()), None);
    assert_eq!(p.to_code(Language::TypeScript).unwrap(), "a:any");
    assert_eq!(p.to_code(python(None)).unwrap(), "a");
}
