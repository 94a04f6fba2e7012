use mockimbap::descriptor::MethodDescriptor;
use mockimbap::extract::{extract, InterfaceItem};
use mockimbap::synth::{synthesize, MethodBody};

fn foo_items() -> Vec<InterfaceItem> {
    vec![InterfaceItem::Method(MethodDescriptor {
        name: "foo".to_string(),
        inputs: vec!["&self".to_string()],
        output: Some("i32".to_string()),
    })]
}

#[test]
fn mock_returns_value() {
    let desc = extract("Foo".to_string(), &foo_items());
    let overrides = vec![("foo".to_string(), "1".to_string())];
    let mock = synthesize(&desc, &overrides, "MockFoo".to_string());
    match &mock.methods[0].body {
        MethodBody::Expr(e) => assert_eq!(e, "1"),
        MethodBody::VoidMarker => panic!("foo has a return type"),
    }
}
