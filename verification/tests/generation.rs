use enum_as_inner::descriptor::{
    AlternativeDescriptor, NamedField, PayloadShape, TypeDescriptor, TypeKind,
};
use enum_as_inner::emit::{doc_for, impl_all_as_fns};
use enum_as_inner::enum_as_inner;
use enum_as_inner::error::{Defect, GenerationError};

fn alternative(name: &str, payload: PayloadShape) -> AlternativeDescriptor {
    AlternativeDescriptor { name: name.to_string(), payload }
}

fn described(name: &str, alternatives: Vec<AlternativeDescriptor>) -> TypeDescriptor {
    TypeDescriptor { name: name.to_string(), kind: TypeKind::Sum(alternatives) }
}

fn many_variants() -> TypeDescriptor {
    described(
        "ManyVariants",
        vec![
            alternative("One", PayloadShape::Positional(vec!["u32".to_string()])),
            alternative("Two", PayloadShape::Positional(vec!["u32".to_string(), "i32".to_string()])),
            alternative(
                "Three",
                PayloadShape::Named(vec![
                    NamedField { name: Some("one".to_string()), ty: "bool".to_string() },
                    NamedField { name: Some("two".to_string()), ty: "u32".to_string() },
                    NamedField { name: Some("three".to_string()), ty: "i64".to_string() },
                ]),
            ),
            alternative("Four", PayloadShape::NoPayload),
        ],
    )
}

#[test]
fn one_accessor_per_alternative_in_declaration_order() {
    let generated = impl_all_as_fns(&many_variants()).unwrap();
    assert_eq!(generated.host, "ManyVariants");
    let names: Vec<&str> =
        generated.accessors.iter().map(|accessor| accessor.function_name.as_str()).collect();
    assert_eq!(names, vec!["as_one", "as_two", "as_three", "as_four"]);
    for (accessor, name) in generated.accessors.iter().zip(["One", "Two", "Three", "Four"]) {
        assert_eq!(accessor.match_pattern.host, "ManyVariants");
        assert_eq!(accessor.match_pattern.alternative, name);
        assert_eq!(accessor.doc, doc_for("ManyVariants", name));
    }
}

#[test]
fn sum_type_without_alternatives_has_no_accessors() {
    let generated = impl_all_as_fns(&described("EmptyTest", vec![])).unwrap();
    assert_eq!(generated.host, "EmptyTest");
    assert!(generated.accessors.is_empty());
    assert_eq!(enum_as_inner(&described("EmptyTest", vec![])), Ok("impl EmptyTest {\n}\n".to_string()));
}

#[test]
fn doc_names_the_type_and_the_alternative() {
    assert_eq!(
        doc_for("OneTest", "One"),
        "Optionally returns references to the inner fields if this is a `OneTest::One`, otherwise `None`"
    );
}

#[test]
fn record_is_not_a_sum_type() {
    let record = TypeDescriptor { name: "Point".to_string(), kind: TypeKind::Record };
    let error = GenerationError::NotASumType { host: "Point".to_string() };
    assert_eq!(impl_all_as_fns(&record), Err(error.clone()));
    assert_eq!(enum_as_inner(&record), Err(error.clone()));
    assert_eq!(error.message(), "Point is not an enum");
}

#[test]
fn union_is_not_a_sum_type() {
    let union = TypeDescriptor { name: "Bits".to_string(), kind: TypeKind::Union };
    let error = GenerationError::NotASumType { host: "Bits".to_string() };
    assert_eq!(impl_all_as_fns(&union), Err(error.clone()));
    assert_eq!(enum_as_inner(&union), Err(error));
}

#[test]
fn defective_field_ends_the_generation_of_the_whole_type() {
    let mut ast = many_variants();
    if let TypeKind::Sum(alternatives) = &mut ast.kind {
        alternatives[2] = alternative(
            "Three",
            PayloadShape::Named(vec![
                NamedField { name: Some("one".to_string()), ty: "bool".to_string() },
                NamedField { name: None, ty: "u32".to_string() },
            ]),
        );
    }
    let error = GenerationError::MissingFieldName {
        host: "ManyVariants".to_string(),
        alternative: "Three".to_string(),
        position: 1,
    };
    assert_eq!(impl_all_as_fns(&ast), Err(error.clone()));
    assert_eq!(enum_as_inner(&ast), Err(error.clone()));
    assert_eq!(error.message(), "ManyVariants::Three: expected a named field");
}

#[test]
fn the_first_defective_alternative_is_reported() {
    let ast = described(
        "Broken",
        vec![
            alternative("Fine", PayloadShape::NoPayload),
            alternative("Untyped", PayloadShape::Positional(vec!["u8".to_string(), String::new()])),
            alternative("Nameless", PayloadShape::Named(vec![NamedField { name: None, ty: "u8".to_string() }])),
        ],
    );
    let error = GenerationError::MissingFieldType {
        host: "Broken".to_string(),
        alternative: "Untyped".to_string(),
        position: 1,
    };
    assert_eq!(impl_all_as_fns(&ast), Err(error.clone()));
    assert_eq!(error.message(), "Broken::Untyped: expected a field type");
}

#[test]
fn for_defect_builds_the_error_of_the_defect() {
    assert_eq!(
        GenerationError::for_defect("Host", "Alt", 3, Defect::MissingName),
        GenerationError::MissingFieldName {
            host: "Host".to_string(),
            alternative: "Alt".to_string(),
            position: 3
        }
    );
    assert_eq!(
        GenerationError::for_defect("Host", "Alt", 0, Defect::MissingType),
        GenerationError::MissingFieldType {
            host: "Host".to_string(),
            alternative: "Alt".to_string(),
            position: 0
        }
    );
}

#[test]
fn accessor_lookup_finds_the_first_of_that_name() {
    let ast = described(
        "Clash",
        vec![
            alternative("Value", PayloadShape::Positional(vec!["u8".to_string()])),
            alternative("value", PayloadShape::NoPayload),
        ],
    );
    let generated = impl_all_as_fns(&ast).unwrap();
    assert_eq!(generated.accessors.len(), 2);
    assert_eq!(generated.accessors[0].function_name, generated.accessors[1].function_name);
    assert_eq!(generated.accessor("as_value"), Some(&generated.accessors[0]));
    assert_eq!(generated.accessor("as_other"), None);
    assert_eq!(generated.accessor("into_value"), None);
}
