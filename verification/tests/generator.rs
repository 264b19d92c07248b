use value_size::render::render;
use value_size::shape::{generate, DataShape, FieldsShape, TypeDecl};
use value_size::text::dec_string;

fn s(text: &str) -> String {
    text.to_string()
}

#[test]
fn decimal_rendering() {
    assert_eq!(dec_string(0).as_str(), "0");
    assert_eq!(dec_string(7).as_str(), "7");
    assert_eq!(dec_string(10).as_str(), "10");
    assert_eq!(dec_string(42).as_str(), "42");
    assert_eq!(dec_string(908).as_str(), "908");
}

#[test]
fn record_with_named_fields_gets_one_arm() {
    let decl = TypeDecl {
        name: s("Foo"),
        params: Vec::new(),
        data: DataShape::Record(FieldsShape::Named(vec![s("a"), s("b")])),
    };
    let plan = generate(&decl).unwrap();
    assert_eq!(plan.target, "Foo");
    assert!(plan.params.is_empty());
    assert_eq!(plan.arms.len(), 1);
    assert!(plan.arms[0].variant.is_none());
    assert_eq!(plan.arms[0].bindings, vec![s("a"), s("b")]);
    assert_eq!(
        render(&plan).as_str(),
        "impl value_size::Size for Foo { fn indirect_size(&self) -> usize { match self { \
         Foo { a, b } => value_size::Size::indirect_size(a) + value_size::Size::indirect_size(b), \
         } } }",
    );
}

#[test]
fn positional_fields_get_synthesized_names() {
    let decl = TypeDecl {
        name: s("Pair"),
        params: Vec::new(),
        data: DataShape::Record(FieldsShape::Positional(2)),
    };
    let plan = generate(&decl).unwrap();
    assert_eq!(plan.arms[0].bindings, vec![s("field0"), s("field1")]);
    assert_eq!(
        render(&plan).as_str(),
        "impl value_size::Size for Pair { fn indirect_size(&self) -> usize { match self { \
         Pair(field0, field1) => value_size::Size::indirect_size(field0) + \
         value_size::Size::indirect_size(field1), } } }",
    );
}

#[test]
fn unit_record_sums_to_the_additive_identity() {
    let decl = TypeDecl {
        name: s("Unit"),
        params: Vec::new(),
        data: DataShape::Record(FieldsShape::Unit),
    };
    let plan = generate(&decl).unwrap();
    assert!(plan.arms[0].bindings.is_empty());
    assert_eq!(
        render(&plan).as_str(),
        "impl value_size::Size for Unit { fn indirect_size(&self) -> usize { match self { \
         Unit => 0, } } }",
    );
}

#[test]
fn tagged_union_gets_one_arm_per_alternative() {
    let decl = TypeDecl {
        name: s("E"),
        params: Vec::new(),
        data: DataShape::Alternatives(vec![
            (s("A"), FieldsShape::Unit),
            (s("B"), FieldsShape::Positional(1)),
            (s("C"), FieldsShape::Named(vec![s("x")])),
        ]),
    };
    let plan = generate(&decl).unwrap();
    assert_eq!(plan.arms.len(), 3);
    assert_eq!(plan.arms[0].variant.as_deref(), Some("A"));
    assert!(plan.arms[0].bindings.is_empty());
    assert_eq!(plan.arms[1].variant.as_deref(), Some("B"));
    assert_eq!(plan.arms[1].bindings, vec![s("field0")]);
    assert_eq!(plan.arms[2].variant.as_deref(), Some("C"));
    assert_eq!(plan.arms[2].bindings, vec![s("x")]);
    assert_eq!(
        render(&plan).as_str(),
        "impl value_size::Size for E { fn indirect_size(&self) -> usize { match self { \
         E::A => 0, E::B(field0) => value_size::Size::indirect_size(field0), \
         E::C { x } => value_size::Size::indirect_size(x), } } }",
    );
}

#[test]
fn generic_parameters_are_bound_by_the_contract() {
    let decl = TypeDecl {
        name: s("Wrapper"),
        params: vec![s("T")],
        data: DataShape::Record(FieldsShape::Named(vec![s("inner")])),
    };
    let plan = generate(&decl).unwrap();
    assert_eq!(plan.params, vec![s("T")]);
    assert_eq!(
        render(&plan).as_str(),
        "impl<T> value_size::Size for Wrapper<T> where T: value_size::Size \
         { fn indirect_size(&self) -> usize { match self { \
         Wrapper { inner } => value_size::Size::indirect_size(inner), } } }",
    );
}

#[test]
fn unions_are_rejected_and_produce_nothing() {
    let decl = TypeDecl { name: s("U"), params: Vec::new(), data: DataShape::Union };
    let err = match generate(&decl) {
        Ok(_) => panic!("an unrestricted-layout union must not generate an implementation"),
        Err(e) => e,
    };
    assert_eq!(err.message().as_str(), "unions are for people, not data!");
}
