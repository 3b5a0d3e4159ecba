use smart_clone::smart_clone_derive;
use smart_clone::Annotation;
use smart_clone::FieldList;
use smart_clone::NamedField;
use smart_clone::TypeDef;
use smart_clone::TypeKind;
use smart_clone::Variant;
use smart_clone::VariantShape;

fn named(name: &str, annotation: Annotation) -> NamedField {
    NamedField { name: name.to_string(), annotation }
}

fn variant(name: &str, annotation: Annotation, shape: VariantShape) -> Variant {
    Variant { name: name.to_string(), annotation, shape }
}

fn record(name: &str, fields: FieldList) -> TypeDef {
    TypeDef { name: name.to_string(), kind: TypeKind::Record(fields) }
}

fn payload(text: &str) -> Annotation {
    Annotation::Payload(text.to_string())
}

fn value(text: &str) -> Annotation {
    Annotation::Value(text.to_string())
}

#[test]
fn mod_test_struct_with_no_clone_attr() {
    let input = record(
        "Bar",
        FieldList::Named(vec![named("x", Annotation::Absent), named("y", Annotation::Bare)]),
    );
    let output =
        "impl Clone for Bar { fn clone(&self) -> Self { Self { x: self.x.clone(), y: self.y.clone(), } } }";
    let result = smart_clone_derive(&input).unwrap();
    assert_eq!(result, output, "Impl with #[clone] or NO tag: {}", result);
}

#[test]
fn lib_test_struct_with_no_clone_attr() {
    let input = record(
        "Bar",
        FieldList::Named(vec![named("x", Annotation::Absent), named("y", Annotation::Bare)]),
    );
    let output =
        "impl Clone for Bar { fn clone(&self) -> Self { Self { x: self.x.clone(), y: self.y.clone(), } } }";
    let result = smart_clone_derive(&input).unwrap();
    assert_eq!(result, output, "Impl with #[clone] or NO tag: {}", result);
}

#[test]
fn mod_test_with_equal_syntax() {
    let input = record(
        "Foo",
        FieldList::Named(vec![named("a", value("foobar")), named("b", payload("(u8, u8)"))]),
    );
    let output =
        "impl Clone for Foo { fn clone(&self) -> Self { Self { a: foobar, b: (u8, u8), } } }";
    let result = smart_clone_derive(&input).unwrap();
    assert_eq!(result, output, "Impl with #[clone = ...] tag: {}", result);
}

#[test]
fn lib_test_with_equal_syntax() {
    let input = record("Foo", FieldList::Named(vec![named("a", value("foobar"))]));
    let output = "impl Clone for Foo { fn clone(&self) -> Self { Self { a: foobar, } } }";
    let result = smart_clone_derive(&input).unwrap();
    assert_eq!(result, output, "Impl with #[clone = ...] tag: {}", result);
}

#[test]
fn mod_test_with_expr() {
    let input = record("Baz", FieldList::Named(vec![named("z", payload("custom_clone_expr"))]));
    let output =
        "impl Clone for Baz { fn clone(&self) -> Self { Self { z: custom_clone_expr, } } }";
    let result = smart_clone_derive(&input).unwrap();
    assert_eq!(result, output, "Impl with #[clone(...)] tag: {}", result);
}

#[test]
fn lib_test_with_expr() {
    let input = record("Baz", FieldList::Named(vec![named("z", payload("custom_clone_expr"))]));
    let output =
        "impl Clone for Baz { fn clone(&self) -> Self { Self { z: custom_clone_expr, } } }";
    let result = smart_clone_derive(&input).unwrap();
    assert_eq!(result, output, "Impl with #[clone(...)] tag: {}", result);
}

#[test]
fn test_clone_with() {
    let input = record(
        "Baz",
        FieldList::Named(vec![
            named("a", payload("clone_with = \"youpi\"")),
            named("z", payload("clone_with = \"Foo::bar\"")),
        ]),
    );
    let output =
        "impl Clone for Baz { fn clone(&self) -> Self { Self { a: youpi(&self.a), z: Foo::bar(&self.z), } } }";
    let result = smart_clone_derive(&input).unwrap();
    assert_eq!(result, output, "Impl with #[clone(clone_with =...)] tag: {}", result);
}

#[test]
fn test_clone_default() {
    let input = record("Baz", FieldList::Named(vec![named("a", payload("default"))]));
    let output =
        "impl Clone for Baz { fn clone(&self) -> Self { Self { a: Default::default(), } } }";
    let result = smart_clone_derive(&input).unwrap();
    assert_eq!(result, output, "Impl with #[clone(default)] tag: {}", result);
}

#[test]
fn test_enum_basic() {
    let input = TypeDef {
        name: "SimpleEnum".to_string(),
        kind: TypeKind::TaggedUnion(vec![
            variant("A", Annotation::Absent, VariantShape::Unit),
            variant("B", Annotation::Absent, VariantShape::Positional(2)),
            variant(
                "C",
                Annotation::Absent,
                VariantShape::Named(vec!["x".to_string(), "y".to_string()]),
            ),
        ]),
    };
    let output = "impl Clone for SimpleEnum { fn clone(&self) -> Self { match self { \
        SimpleEnum::A => SimpleEnum::A, \
        SimpleEnum::B(v0, v1) => SimpleEnum::B(v0.clone(), v1.clone()), \
        SimpleEnum::C { x, y } => SimpleEnum::C { x: x.clone(), y: y.clone() }, \
        } } }";
    let result = smart_clone_derive(&input).unwrap();
    assert_eq!(result, output, "Enum basic: {}", result);
}

#[test]
fn test_enum_with_clone_attr() {
    let input = TypeDef {
        name: "CustomCloneEnum".to_string(),
        kind: TypeKind::TaggedUnion(vec![
            variant("A", Annotation::Absent, VariantShape::Unit),
            variant("B", value("CustomCloneEnum::B(8, 12)"), VariantShape::Positional(2)),
            variant(
                "C",
                payload("custom_clone_expr"),
                VariantShape::Named(vec!["x".to_string(), "y".to_string()]),
            ),
            variant("D", payload("clone_with = \"Try::func\""), VariantShape::Unit),
            variant("E", Annotation::Bare, VariantShape::Unit),
            variant("F", payload("default"), VariantShape::Unit),
        ]),
    };
    let output = "impl Clone for CustomCloneEnum { fn clone(&self) -> Self { match self { \
        CustomCloneEnum::A => CustomCloneEnum::A, \
        CustomCloneEnum::B(..) => CustomCloneEnum::B(8, 12), \
        CustomCloneEnum::C { x, y } => custom_clone_expr, \
        CustomCloneEnum::D => Try::func(self), \
        CustomCloneEnum::E => CustomCloneEnum::E, \
        CustomCloneEnum::F => Default::default(), \
        } } }";
    let result = smart_clone_derive(&input).unwrap();
    assert_eq!(result, output, "Enum various tags: {}", result);
}

#[test]
fn test_unit_type() {
    let input = record("UnitStruct", FieldList::Unit);
    let output = "impl Clone for UnitStruct { fn clone(&self) -> Self { Self { } } }";
    let result = smart_clone_derive(&input).unwrap();
    assert_eq!(result, output, "Unit type structures: {}", result);
}

#[test]
fn test_unnamed_struct_type() {
    let input = record(
        "UnnamedStruct",
        FieldList::Positional(vec![
            Annotation::Absent,
            value("3"),
            Annotation::Bare,
            payload("default"),
            payload("custom_value"),
            payload("clone_with = \"wow\""),
        ]),
    );
    let output = "impl Clone for UnnamedStruct { fn clone(&self) -> Self { UnnamedStruct { \
        0: self.0.clone(), \
        1: 3, \
        2: self.2.clone(), \
        3: Default::default(), \
        4: custom_value, \
        5: wow(&self.5), \
        } } }";
    let result = smart_clone_derive(&input).unwrap();
    assert_eq!(result, output, "Unnamed structures: {}", result);
}

#[test]
fn test_unsupported_types() {
    let input = TypeDef {
        name: "MyUnion".to_string(),
        kind: TypeKind::Unsupported(
            FieldList::Named(vec![named("i", Annotation::Absent), named("f", Annotation::Absent)]),
        ),
    };
    let output = "compile_error!(\"Cannot use SmartClone on union types.\")";
    let result = smart_clone_derive(&input).unwrap();
    assert_eq!(result, output, "Unsupported union error: {}", result);
}
