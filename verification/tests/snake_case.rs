use enum_as_inner::accessor::AccessorSpec;
use enum_as_inner::descriptor::{
    AlternativeDescriptor, NamedField, PayloadShape, TypeDescriptor, TypeKind,
};
use enum_as_inner::emit::{impl_all_as_fns, GeneratedImpl};
use enum_as_inner::instance::{Instance, Slot};

fn mixed_case_variants() -> GeneratedImpl {
    let alternatives = vec![
        AlternativeDescriptor { name: "XMLIsNotCool".to_string(), payload: PayloadShape::NoPayload },
        AlternativeDescriptor {
            name: "Rust_IsCoolThough".to_string(),
            payload: PayloadShape::Positional(vec!["u32".to_string()]),
        },
        AlternativeDescriptor {
            name: "YMCA".to_string(),
            payload: PayloadShape::Named(vec![NamedField {
                name: Some("named".to_string()),
                ty: "i16".to_string(),
            }]),
        },
    ];
    let described =
        TypeDescriptor { name: "MixedCaseVariants".to_string(), kind: TypeKind::Sum(alternatives) };
    impl_all_as_fns(&described).unwrap()
}

fn mixed<T>(alternative: &str, slots: Vec<Slot<T>>) -> Instance<T> {
    Instance { host: "MixedCaseVariants".to_string(), alternative: alternative.to_string(), slots }
}

fn called<'a>(generated: &'a GeneratedImpl, name: &str) -> &'a AccessorSpec {
    generated.accessor(name).expect("the accessor should have been generated")
}

#[test]
fn test_xml_unit() {
    let generated = mixed_case_variants();
    let mixed = mixed::<u32>("XMLIsNotCool", vec![]);

    assert!(called(&generated, "as_xml_is_not_cool").apply(&mixed).is_some());
    assert!(called(&generated, "as_rust_is_cool_though").apply(&mixed).is_none());
    assert!(called(&generated, "as_ymca").apply(&mixed).is_none());

    assert_eq!(
        called(&generated, "as_xml_is_not_cool").apply(&mixed).unwrap(),
        Vec::<&u32>::new()
    );
}

#[test]
fn test_rust_unnamed() {
    let generated = mixed_case_variants();
    let mixed = mixed("Rust_IsCoolThough", vec![Slot { label: None, value: 42_u32 }]);

    assert!(called(&generated, "as_xml_is_not_cool").apply(&mixed).is_none());
    assert!(called(&generated, "as_rust_is_cool_though").apply(&mixed).is_some());
    assert!(called(&generated, "as_ymca").apply(&mixed).is_none());

    assert_eq!(*called(&generated, "as_rust_is_cool_though").apply(&mixed).unwrap()[0], 42);
}

#[test]
fn test_ymca_named() {
    let generated = mixed_case_variants();
    let mixed =
        mixed("YMCA", vec![Slot { label: Some("named".to_string()), value: -32_768_i16 }]);

    assert!(called(&generated, "as_xml_is_not_cool").apply(&mixed).is_none());
    assert!(called(&generated, "as_rust_is_cool_though").apply(&mixed).is_none());
    assert!(called(&generated, "as_ymca").apply(&mixed).is_some());

    assert_eq!(*called(&generated, "as_ymca").apply(&mixed).unwrap()[0], (-32_768));
}
