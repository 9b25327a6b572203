use unilang::operation::Add;
use unilang::statement::Return;
use unilang::types::Integer;
use unilang::{FunctionBuilder, IndentType, Language, Parameter, Scope, ToCode, Visibility};

fn typed(name: &str) -> Parameter {
    Parameter(Box::new(name.into_node()), Some(Box::new(Integer.into_node())))
}

#[test]
fn basic_function() {
    let scope = Scope::default().with(
        FunctionBuilder::new()
            .with_visibility(Visibility::Public)
            .name("add")
            .with_return_type(Integer)
            .with_param(typed("a"))
            .with_param(typed("b"))
            .with_scope(Scope::default().with(Return(Some(Add("a", "b")))))
            .build()
            .unwrap(),
    );

    assert_eq!(
        scope.to_code(Language::Rust).unwrap(),
        "pub fn add(a:i32,b:i32)->i32{return a+b;}"
    );

    assert_eq!(
        scope.to_code(Language::TypeScript).unwrap(),
        "export function add(a:number,b:number):number{return a+b;}"
    );

    assert_eq!(
        scope.to_code(Language::CPP).unwrap(),
        "int add(int a,int b){return a+b;}"
    );

    assert_eq!(
        scope
            .to_code(Language::Python {
                include_types: true,
                indent_level: None,
                indent_type: IndentType::Tab
            })
            .unwrap(),
        "\ndef add(a:int,b:int)->int:\n\treturn a+b"
    );
}
