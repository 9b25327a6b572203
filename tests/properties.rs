use unilang::block::{ConditionalBuilder, Else, If};
use unilang::condition::{And, Equal, GreaterThan, LessThan, Or};
use unilang::operation::{Add, Divide, Modulus, Multiply, Subtract};
use unilang::statement::{AssignVariable, Return};
use unilang::{FunctionBuilder, IndentType, Language, Scope, ToCode};

fn python_spaces(n: u16) -> Language {
    Language::Python {
        include_types: false,
        indent_level: None,
        indent_type: IndentType::Space(n),
    }
}

fn all_targets() -> Vec<Language> {
    vec![
        Language::Rust,
        Language::TypeScript,
        Language::CPP,
        Language::Python {
            include_types: true,
            indent_level: None,
            indent_type: IndentType::Tab,
        },
    ]
}

#[test]
fn repeated_renders_are_identical() {
    let tree = Scope::default()
        .with(AssignVariable("x", Add(Multiply("a", 2), "b")))
        .with(Return(Some(Equal("x", 3))));
    for l in all_targets() {
        let first = tree.to_code(l);
        let second = tree.to_code(l);
        assert_eq!(first, second);
    }
}

#[test]
fn arithmetic_is_written_bare() {
    let l = Language::TypeScript;
    assert_eq!(Add(Add("a", "b"), "c").to_code(l).unwrap(), "a+b+c");
    assert_eq!(Subtract("a", Multiply("b", "c")).to_code(l).unwrap(), "a-b*c");
    assert_eq!(Divide("a", "b").to_code(l).unwrap(), "a/b");
    assert_eq!(Modulus("a", "b").to_code(l).unwrap(), "a%b");
}

#[test]
fn comparisons_are_grouped_once() {
    let l = Language::TypeScript;
    assert_eq!(
        Equal(Add("a", "b"), LessThan("c", "d")).to_code(l).unwrap(),
        "(a+b===(c<d))"
    );
    assert_eq!(GreaterThan("a", "b").to_code(l).unwrap(), "(a>b)");
    assert_eq!(And("a", Or("b", "c")).to_code(l).unwrap(), "(a&&(b||c))");
    let py = python_spaces(4);
    assert_eq!(And("a", Or("b", "c")).to_code(py).unwrap(), "(a and (b or c))");
    assert_eq!(Equal("a", "b").to_code(Language::Rust).unwrap(), "(a==b)");
    assert_eq!(Equal("a", "b").to_code(py).unwrap(), "(a==b)");
}

#[test]
fn nested_bodies_gain_one_unit_each() {
    let inner = ConditionalBuilder::default().with_if(
        If::default()
            .with_condition(GreaterThan("n", 0))
            .with_scope(Scope::default().with(AssignVariable("n", 0)).with(Return(Some("n")))),
    );
    let tree = Scope::default().with(
        FunctionBuilder::new()
            .name("f")
            .with_scope(Scope::default().with(inner).with(Return(None::<i32>)))
            .build()
            .unwrap(),
    );
    assert_eq!(
        tree.to_code(python_spaces(2)).unwrap(),
        "\ndef f():\n  \n  if (n>0):\n    n=0\n    return n\n  return"
    );
}

#[test]
fn rendering_starts_at_the_given_depth() {
    let l = Language::Python {
        include_types: false,
        indent_level: Some(2),
        indent_type: IndentType::Tab,
    };
    let body = Scope::default()
        .with(AssignVariable("a", 1))
        .with(Else::default());
    assert_eq!(body.to_code(l).unwrap(), "\n\t\ta=1\n\t\telse:");
}
