use smart_clone::clone_enum_type;
use smart_clone::clone_fields;
use smart_clone::parse_directive;
use smart_clone::smart_clone_derive;
use smart_clone::Annotation;
use smart_clone::Directive;
use smart_clone::ErrorSite;
use smart_clone::FieldList;
use smart_clone::GenError;
use smart_clone::NamedField;
use smart_clone::TypeDef;
use smart_clone::TypeKind;
use smart_clone::Variant;
use smart_clone::VariantShape;

fn named(name: &str, annotation: Annotation) -> NamedField {
    NamedField { name: name.to_string(), annotation }
}

fn variant(name: &str, annotation: Annotation, shape: VariantShape) -> Variant {
    Variant { name: name.to_string(), annotation, shape }
}

fn record(name: &str, fields: FieldList) -> TypeDef {
    TypeDef { name: name.to_string(), kind: TypeKind::Record(fields) }
}

fn payload(text: &str) -> Annotation {
    Annotation::Payload(text.to_string())
}

#[test]
fn test_absent_and_bare_recurse() {
    assert_eq!(parse_directive(&Annotation::Absent), Some(Directive::Absent));
    assert_eq!(parse_directive(&Annotation::Bare), Some(Directive::Bare));
}

#[test]
fn test_value_is_literal() {
    assert_eq!(
        parse_directive(&Annotation::Value("99".to_string())),
        Some(Directive::Literal("99".to_string()))
    );
}

#[test]
fn test_payload_default_key() {
    assert_eq!(parse_directive(&payload("default")), Some(Directive::DefaultValue));
    assert_eq!(parse_directive(&payload("  default  ")), Some(Directive::DefaultValue));
}

#[test]
fn test_payload_clone_with_key() {
    assert_eq!(
        parse_directive(&payload("clone_with = \"double\"")),
        Some(Directive::FunctionOverride("double".to_string()))
    );
    assert_eq!(
        parse_directive(&payload("clone_with=\"Foo::bar\"")),
        Some(Directive::FunctionOverride("Foo::bar".to_string()))
    );
}

#[test]
fn test_payload_expression_is_literal() {
    assert_eq!(
        parse_directive(&payload("SimpleEnum::D(8, 12)")),
        Some(Directive::Literal("SimpleEnum::D(8, 12)".to_string()))
    );
}

#[test]
fn test_payload_non_expression_is_unrecognized() {
    // The deprecated `fn = f` dialect: `fn` cannot begin an expression, and
    // it is no recognized key, so the payload passes through verbatim.
    assert_eq!(
        parse_directive(&payload("fn = youpi")),
        Some(Directive::Unrecognized("fn = youpi".to_string()))
    );
}

#[test]
fn test_first_recognized_key_wins() {
    assert_eq!(
        parse_directive(&payload("default, clone_with = \"f\"")),
        Some(Directive::DefaultValue)
    );
    assert_eq!(
        parse_directive(&payload("clone_with = \"f\", default")),
        Some(Directive::FunctionOverride("f".to_string()))
    );
}

#[test]
fn test_key_found_after_unrecognized_item() {
    assert_eq!(parse_directive(&payload("foo, default")), Some(Directive::DefaultValue));
}

#[test]
fn test_key_inside_brackets_is_no_key() {
    // The comma sits inside a bracket pair, so the whole payload is one
    // item; `default` inside it is not a keyed item of the payload.
    assert_eq!(
        parse_directive(&payload("(a, default, b)")),
        Some(Directive::Literal("(a, default, b)".to_string()))
    );
}

#[test]
fn test_key_inside_string_is_no_key() {
    assert_eq!(
        parse_directive(&payload("\"x, default, y\"")),
        Some(Directive::Literal("\"x, default, y\"".to_string()))
    );
}

#[test]
fn test_clone_with_unquoted_value_passes_through() {
    assert_eq!(
        parse_directive(&payload("clone_with = youpi")),
        Some(Directive::Literal("clone_with = youpi".to_string()))
    );
}

#[test]
fn test_clone_with_escaped_quote() {
    assert_eq!(
        parse_directive(&payload("clone_with = \"a\\\"b\"")),
        Some(Directive::FunctionOverride("a\\\"b".to_string()))
    );
}

#[test]
fn test_unterminated_quote_is_fatal() {
    assert_eq!(parse_directive(&payload("clone_with = \"oops")), None);
}

#[test]
fn test_malformed_directive_reports_field() {
    let input = record(
        "Bad",
        FieldList::Named(vec![
            named("a", Annotation::Absent),
            named("b", payload("clone_with = \"oops")),
        ]),
    );
    assert_eq!(
        smart_clone_derive(&input),
        Err(GenError::MalformedDirective(ErrorSite::Field(1)))
    );
}

#[test]
fn test_malformed_directive_reports_variant() {
    let input = TypeDef {
        name: "Bad".to_string(),
        kind: TypeKind::TaggedUnion(vec![
            variant("A", Annotation::Absent, VariantShape::Unit),
            variant("B", payload("clone_with = \"oops"), VariantShape::Positional(1)),
        ]),
    };
    assert_eq!(
        smart_clone_derive(&input),
        Err(GenError::MalformedDirective(ErrorSite::VariantMarker(1)))
    );
}

#[test]
fn test_scenario_record_literal() {
    let input = record(
        "Pair",
        FieldList::Named(vec![
            named("a", Annotation::Absent),
            named("b", Annotation::Value("99".to_string())),
        ]),
    );
    let output = "impl Clone for Pair { fn clone(&self) -> Self { Self { a: self.a.clone(), b: 99, } } }";
    assert_eq!(smart_clone_derive(&input).unwrap(), output);
}

#[test]
fn test_scenario_variant_whole_override() {
    let input = TypeDef {
        name: "SomeType".to_string(),
        kind: TypeKind::TaggedUnion(vec![variant(
            "D",
            payload("SomeType::D(8, 12)"),
            VariantShape::Positional(2),
        )]),
    };
    let output = "impl Clone for SomeType { fn clone(&self) -> Self { match self { \
        SomeType::D(..) => SomeType::D(8, 12), \
        } } }";
    assert_eq!(smart_clone_derive(&input).unwrap(), output);
}

#[test]
fn test_scenario_positional_clone_with() {
    let fields = FieldList::Positional(vec![
        Annotation::Absent,
        Annotation::Absent,
        payload("clone_with = \"double\""),
    ]);
    let fragments = clone_fields(&fields).unwrap();
    assert_eq!(fragments, "0: self.0.clone(), 1: self.1.clone(), 2: double(&self.2), ");

    let variants = vec![variant(
        "V",
        payload("clone_with = \"double\""),
        VariantShape::Positional(2),
    )];
    let dispatch = clone_enum_type("T", &variants).unwrap();
    assert_eq!(dispatch, "match self { T::V(..) => double(self), }");
}

#[test]
fn test_scenario_default_on_unit_variant() {
    let variants = vec![variant("V", payload("default"), VariantShape::Unit)];
    let dispatch = clone_enum_type("T", &variants).unwrap();
    assert_eq!(dispatch, "match self { T::V => Default::default(), }");
}

#[test]
fn test_scenario_unsupported_with_annotated_members() {
    let input = TypeDef {
        name: "Overlap".to_string(),
        kind: TypeKind::Unsupported(
            FieldList::Named(vec![
                named("i", payload("default")),
                named("f", payload("default")),
            ]),
        ),
    };
    let result = smart_clone_derive(&input).unwrap();
    assert_eq!(result, "compile_error!(\"Cannot use SmartClone on union types.\")");
}

#[test]
fn test_generation_idempotent() {
    let input = record(
        "Twice",
        FieldList::Named(vec![
            named("a", payload("default")),
            named("b", payload("clone_with = \"f\"")),
            named("c", Annotation::Absent),
        ]),
    );
    let first = smart_clone_derive(&input).unwrap();
    let second = smart_clone_derive(&input).unwrap();
    assert_eq!(first, second);
}

#[test]
fn test_two_digit_positional_index() {
    let mut anns: Vec<Annotation> = Vec::new();
    for _ in 0..11 {
        anns.push(Annotation::Absent);
    }
    let fields = FieldList::Positional(anns);
    let fragments = clone_fields(&fields).unwrap();
    assert!(fragments.ends_with("10: self.10.clone(), "), "{}", fragments);
}

#[test]
fn test_empty_named_record() {
    let input = record("Empty", FieldList::Named(vec![]));
    let output = "impl Clone for Empty { fn clone(&self) -> Self { Self { } } }";
    assert_eq!(smart_clone_derive(&input).unwrap(), output);
}

#[test]
fn test_named_variant_clone_with_whole_variant() {
    let variants = vec![variant(
        "F",
        payload("clone_with = \"double\""),
        VariantShape::Named(vec!["x".to_string(), "y".to_string()]),
    )];
    let dispatch = clone_enum_type("T", &variants).unwrap();
    assert_eq!(dispatch, "match self { T::F { x, y } => double(self), }");
}
