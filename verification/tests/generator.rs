use mockimbap::config::{parse_config, parse_return_at_args, ConfigEntry};
use mockimbap::descriptor::MethodDescriptor;
use mockimbap::driver::{
    process_mock, process_mockable, process_mockable_local, process_return_at,
};
use mockimbap::emit::void_marker_expr_text;
use mockimbap::error::MockError;
use mockimbap::extract::{extract, InterfaceItem};
use mockimbap::registry::Registry;
use mockimbap::synth::{generate_mock, sentinel_expr_text, MethodBody};

fn method(name: &str, inputs: &[&str], output: Option<&str>) -> InterfaceItem {
    InterfaceItem::Method(MethodDescriptor {
        name: name.to_string(),
        inputs: inputs.iter().map(|s| s.to_string()).collect(),
        output: output.map(|s| s.to_string()),
    })
}

fn foo_items() -> Vec<InterfaceItem> {
    vec![method("foo", &["&self"], Some("i32"))]
}

fn calc_items() -> Vec<InterfaceItem> {
    vec![
        method("add", &["a: i32", "b: i32"], Some("i32")),
        method("id", &[], Some("i32")),
    ]
}

#[test]
fn local_override_generates_named_mock() {
    let entries = vec![ConfigEntry::KeyValue("foo".to_string(), "1".to_string())];
    let (text, diagnostics) =
        process_mockable_local("Foo".to_string(), &foo_items(), &entries).unwrap();
    let expected = "struct MockFoo;\n\n\
                    impl Foo for MockFoo {\n    fn foo(&self) -> i32 {\n        1\n    }\n}\n";
    assert_eq!(text, expected);
    assert!(diagnostics.is_empty());
}

#[test]
fn local_bare_name_sets_mock_name() {
    let entries = vec![
        ConfigEntry::Bare("Stand".to_string()),
        ConfigEntry::KeyValue("foo".to_string(), "7".to_string()),
    ];
    let (text, _) = process_mockable_local("Foo".to_string(), &foo_items(), &entries).unwrap();
    assert!(text.starts_with("struct Stand;\n\nimpl Foo for Stand {\n"));
}

#[test]
fn duplicate_bare_name_is_rejected() {
    let entries = vec![
        ConfigEntry::Bare("alpha".to_string()),
        ConfigEntry::Bare("beta".to_string()),
    ];
    match process_mockable_local("Foo".to_string(), &foo_items(), &entries) {
        Err(MockError::DuplicateMockNameError { name }) => assert_eq!(name, "beta"),
        _ => panic!("a second bare name must be rejected"),
    }
}

#[test]
fn parse_config_reports_second_bare_name() {
    let entries = vec![
        ConfigEntry::Bare("alpha".to_string()),
        ConfigEntry::Bare("beta".to_string()),
    ];
    match parse_config(&entries, &"Foo".to_string()) {
        Err(MockError::DuplicateMockNameError { name }) => assert_eq!(name, "beta"),
        _ => panic!("a second bare name must be rejected"),
    }
}

#[test]
fn registry_override_and_sentinel() {
    let mut registry = Registry::new();
    process_mockable(&mut registry, "Calc".to_string(), &calc_items());
    process_return_at(&mut registry, &"CalcMock".to_string(), "add, 42").unwrap();
    let text = process_mock(&registry, &"CalcMock".to_string(), &"Calc".to_string()).unwrap();
    let expected = format!(
        "impl Calc for CalcMock {{\n    fn add(a: i32, b: i32) -> i32 {{\n        42\n    }}\n    fn id() -> i32 {{\n        {}\n    }}\n}}\n",
        sentinel_expr_text()
    );
    assert_eq!(text, expected);
}

#[test]
fn generate_before_register_fails_lookup() {
    let mut registry = Registry::new();
    match process_mock(&registry, &"FooMock".to_string(), &"Foo".to_string()) {
        Err(MockError::LookupError { interface }) => assert_eq!(interface, "Foo"),
        _ => panic!("an unregistered interface must fail its lookup"),
    }
    process_mockable(&mut registry, "Foo".to_string(), &foo_items());
    assert!(process_mock(&registry, &"FooMock".to_string(), &"Foo".to_string()).is_ok());
}

#[test]
fn unconfigured_method_gets_sentinel_not_default() {
    let mut registry = Registry::new();
    process_mockable(&mut registry, "Foo".to_string(), &foo_items());
    let mock = generate_mock(&registry, &"FooMock".to_string(), &"Foo".to_string()).unwrap();
    match &mock.methods[0].body {
        MethodBody::Expr(e) => {
            assert_eq!(*e, sentinel_expr_text());
            assert_ne!(*e, "0");
            assert_ne!(*e, "Default::default()");
        },
        MethodBody::VoidMarker => panic!("foo has a return type"),
    }
}

#[test]
fn void_method_reported_but_type_still_produced() {
    let items = vec![
        method("noop", &[], None),
        method("keep", &[], Some("i32")),
    ];
    let (text, diagnostics) =
        process_mockable_local("Empty".to_string(), &items, &Vec::new()).unwrap();
    assert_eq!(diagnostics.len(), 1);
    match &diagnostics[0] {
        MockError::VoidReturnUnsupportedError { method } => assert_eq!(method, "noop"),
        _ => panic!("the void method must be reported"),
    }
    let expected = format!(
        "struct MockEmpty;\n\nimpl Empty for MockEmpty {{\n    fn noop() {{\n        {}\n    }}\n    fn keep() -> i32 {{\n        {}\n    }}\n}}\n",
        void_marker_expr_text(),
        sentinel_expr_text()
    );
    assert_eq!(text, expected);
}

#[test]
fn generation_is_idempotent() {
    let mut registry = Registry::new();
    process_mockable(&mut registry, "Calc".to_string(), &calc_items());
    process_return_at(&mut registry, &"CalcMock".to_string(), "add, 42").unwrap();
    let first = process_mock(&registry, &"CalcMock".to_string(), &"Calc".to_string()).unwrap();
    let second = process_mock(&registry, &"CalcMock".to_string(), &"Calc".to_string()).unwrap();
    assert_eq!(first, second);

    let entries = vec![ConfigEntry::KeyValue("foo".to_string(), "1".to_string())];
    let (a, _) = process_mockable_local("Foo".to_string(), &foo_items(), &entries).unwrap();
    let (b, _) = process_mockable_local("Foo".to_string(), &foo_items(), &entries).unwrap();
    assert_eq!(a, b);
}

#[test]
fn last_registered_override_wins() {
    let mut registry = Registry::new();
    process_mockable(&mut registry, "Foo".to_string(), &foo_items());
    process_return_at(&mut registry, &"FooMock".to_string(), "foo, 1").unwrap();
    process_return_at(&mut registry, &"FooMock".to_string(), "foo, 2").unwrap();
    let mock = generate_mock(&registry, &"FooMock".to_string(), &"Foo".to_string()).unwrap();
    match &mock.methods[0].body {
        MethodBody::Expr(e) => assert_eq!(e, "2"),
        MethodBody::VoidMarker => panic!("foo has a return type"),
    }
}

#[test]
fn duplicate_method_name_keeps_last_signature() {
    let items = vec![
        method("foo", &["&self"], Some("i32")),
        method("foo", &["&self"], Some("u64")),
    ];
    let desc = extract("Foo".to_string(), &items);
    assert_eq!(desc.methods.len(), 1);
    assert_eq!(desc.methods[0].output, Some("u64".to_string()));
}

#[test]
fn non_method_members_are_ignored() {
    let items = vec![InterfaceItem::Other, method("foo", &["&self"], Some("i32"))];
    let desc = extract("Foo".to_string(), &items);
    assert_eq!(desc.methods.len(), 1);
    assert_eq!(desc.methods[0].name, "foo");
}

#[test]
fn return_at_args_are_split_and_trimmed() {
    let (m, v) = parse_return_at_args("  foo ,   2 + 3  ").unwrap();
    assert_eq!(m, "foo");
    assert_eq!(v, "2 + 3");
    // anything past a second comma is ignored
    let (m2, v2) = parse_return_at_args("foo, 1, 2").unwrap();
    assert_eq!(m2, "foo");
    assert_eq!(v2, "1");
}

#[test]
fn return_at_without_comma_is_malformed() {
    let mut registry = Registry::new();
    match process_return_at(&mut registry, &"FooMock".to_string(), "justonething") {
        Err(MockError::ArgumentParseError) => {},
        _ => panic!("argument text without a comma must be rejected"),
    }
}

#[test]
fn invalid_override_expression_is_rejected() {
    let mut registry = Registry::new();
    process_mockable(&mut registry, "Foo".to_string(), &foo_items());
    process_return_at(&mut registry, &"FooMock".to_string(), "foo, 1 +").unwrap();
    match process_mock(&registry, &"FooMock".to_string(), &"Foo".to_string()) {
        Err(MockError::ExpressionParseError { method }) => assert_eq!(method, "foo"),
        _ => panic!("an override that is not an expression must be rejected"),
    }

    let entries = vec![ConfigEntry::KeyValue("foo".to_string(), "} broken {".to_string())];
    match process_mockable_local("Foo".to_string(), &foo_items(), &entries) {
        Err(MockError::ExpressionParseError { method }) => assert_eq!(method, "foo"),
        _ => panic!("an override that is not an expression must be rejected"),
    }
}

#[test]
fn valid_compound_expression_is_accepted() {
    let mut registry = Registry::new();
    process_mockable(&mut registry, "Foo".to_string(), &foo_items());
    process_return_at(&mut registry, &"FooMock".to_string(), "foo, 2 + 3").unwrap();
    let text = process_mock(&registry, &"FooMock".to_string(), &"Foo".to_string()).unwrap();
    assert!(text.contains("        2 + 3\n"));
}

#[test]
fn empty_interface_generates_empty_impl() {
    let (text, diagnostics) =
        process_mockable_local("Quiet".to_string(), &Vec::new(), &Vec::new()).unwrap();
    assert_eq!(text, "struct MockQuiet;\n\nimpl Quiet for MockQuiet {\n}\n");
    assert!(diagnostics.is_empty());
}

#[test]
fn return_at_value_may_be_empty() {
    let (m, v) = parse_return_at_args("foo,").unwrap();
    assert_eq!(m, "foo");
    assert_eq!(v, "");
}
