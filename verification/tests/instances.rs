use enum_as_inner::accessor::{
    AccessorSpec, Bindings, ExpressionDescription, PatternDescription, TypeDescription,
};
use enum_as_inner::descriptor::{
    AlternativeDescriptor, NamedField, PayloadShape, TypeDescriptor, TypeKind,
};
use enum_as_inner::emit::impl_all_as_fns;
use enum_as_inner::instance::{Instance, Slot};

fn strings(items: &[&str]) -> Vec<String> {
    items.iter().map(|item| item.to_string()).collect()
}

fn shapes() -> TypeDescriptor {
    let named = |fields: &[(&str, &str)]| {
        PayloadShape::Named(
            fields
                .iter()
                .map(|(name, ty)| NamedField { name: Some(name.to_string()), ty: ty.to_string() })
                .collect(),
        )
    };
    let alternatives = vec![
        ("Plain", PayloadShape::NoPayload),
        ("NoPositions", PayloadShape::Positional(vec![])),
        ("NoFields", named(&[])),
        ("Position", PayloadShape::Positional(strings(&["i64"]))),
        ("Positions", PayloadShape::Positional(strings(&["i64", "i64", "i64"]))),
        ("OtherPositions", PayloadShape::Positional(strings(&["i64", "i64", "i64"]))),
        ("Field", named(&[("only", "i64")])),
        ("Fields", named(&[("zulu", "i64"), ("alpha", "i64"), ("mike", "i64")])),
        ("OtherFields", named(&[("zulu", "i64"), ("alpha", "i64"), ("mike", "i64")])),
    ];
    TypeDescriptor {
        name: "Shapes".to_string(),
        kind: TypeKind::Sum(
            alternatives
                .into_iter()
                .map(|(name, payload)| AlternativeDescriptor { name: name.to_string(), payload })
                .collect(),
        ),
    }
}

fn constructed(alternative: &AlternativeDescriptor, first: i64) -> Instance<i64> {
    let labels: Vec<Option<String>> = match &alternative.payload {
        PayloadShape::NoPayload => vec![],
        PayloadShape::Positional(types) => types.iter().map(|_| None).collect(),
        PayloadShape::Named(fields) => fields.iter().map(|field| field.name.clone()).collect(),
    };
    Instance {
        host: "Shapes".to_string(),
        alternative: alternative.name.clone(),
        slots: labels
            .into_iter()
            .enumerate()
            .map(|(i, label)| Slot { label, value: first + i as i64 })
            .collect(),
    }
}

fn alternatives_of(described: &TypeDescriptor) -> &Vec<AlternativeDescriptor> {
    match &described.kind {
        TypeKind::Sum(alternatives) => alternatives,
        _ => panic!("not a sum type"),
    }
}

#[test]
fn own_accessor_is_present_with_the_payload_in_order() {
    let described = shapes();
    let generated = impl_all_as_fns(&described).unwrap();
    for (alternative, accessor) in alternatives_of(&described).iter().zip(&generated.accessors) {
        let instance = constructed(alternative, -7);
        let values: Vec<&i64> = instance.slots.iter().map(|slot| &slot.value).collect();
        assert_eq!(accessor.apply(&instance), Some(values));
    }
}

#[test]
fn present_values_are_borrowed_from_the_instance() {
    let described = shapes();
    let generated = impl_all_as_fns(&described).unwrap();
    let instance = constructed(&alternatives_of(&described)[4], 100);
    let present = generated.accessors[4].apply(&instance).unwrap();
    assert_eq!(present, vec![&100, &101, &102]);
    for (value, slot) in present.iter().zip(&instance.slots) {
        assert!(std::ptr::eq(*value, &slot.value));
    }
}

#[test]
fn accessor_of_another_alternative_is_absent() {
    let described = shapes();
    let generated = impl_all_as_fns(&described).unwrap();
    let alternatives = alternatives_of(&described);
    for (held, alternative) in alternatives.iter().enumerate() {
        let instance = constructed(alternative, 1);
        for (other, accessor) in generated.accessors.iter().enumerate() {
            assert_eq!(accessor.apply(&instance).is_some(), held == other);
            assert_eq!(accessor.apply(&instance).is_none(), held != other);
        }
    }
}

#[test]
fn alternatives_without_fields_carry_nothing() {
    let described = shapes();
    let generated = impl_all_as_fns(&described).unwrap();
    for index in 0..3 {
        let accessor = &generated.accessors[index];
        assert_eq!(accessor.return_type, TypeDescription::Unit);
        assert_eq!(accessor.result_expression, ExpressionDescription::Unit);
        let instance = constructed(&alternatives_of(&described)[index], 0);
        assert_eq!(accessor.apply(&instance), Some(vec![]));
    }
    assert_eq!(generated.accessors[0].match_pattern.bindings, Bindings::Bare);
    assert_eq!(generated.accessors[1].match_pattern.bindings, Bindings::Positional(vec![]));
    assert_eq!(generated.accessors[2].match_pattern.bindings, Bindings::Named(vec![]));
}

#[test]
fn instance_of_another_type_does_not_match() {
    let described = shapes();
    let generated = impl_all_as_fns(&described).unwrap();
    let mut instance = constructed(&alternatives_of(&described)[3], 5);
    assert!(generated.accessors[3].match_pattern.matches(&instance));
    instance.host = "Other".to_string();
    assert!(!generated.accessors[3].match_pattern.matches(&instance));
    assert_eq!(generated.accessors[3].apply(&instance), None);
}

fn by_hand(bindings: Bindings, result: ExpressionDescription) -> AccessorSpec {
    AccessorSpec {
        function_name: "as_it".to_string(),
        doc: String::new(),
        return_type: TypeDescription::Unit,
        match_pattern: PatternDescription {
            host: "Host".to_string(),
            alternative: "It".to_string(),
            bindings,
        },
        result_expression: result,
    }
}

fn it(slots: Vec<(Option<&str>, i64)>) -> Instance<i64> {
    Instance {
        host: "Host".to_string(),
        alternative: "It".to_string(),
        slots: slots
            .into_iter()
            .map(|(label, value)| Slot { label: label.map(|label| label.to_string()), value })
            .collect(),
    }
}

#[test]
fn field_names_are_bound_by_label() {
    let accessor = by_hand(
        Bindings::Named(strings(&["a", "b"])),
        ExpressionDescription::Tuple(strings(&["a", "b"])),
    );
    let instance = it(vec![(Some("b"), 2), (Some("a"), 1)]);
    assert_eq!(accessor.apply(&instance), Some(vec![&1, &2]));
    assert_eq!(accessor.match_pattern.slot_of(&instance, &"a".to_string()), Some(1));
    assert_eq!(accessor.match_pattern.slot_of(&instance, &"b".to_string()), Some(0));
    assert_eq!(accessor.match_pattern.slot_of(&instance, &"c".to_string()), None);
}

#[test]
fn positional_names_are_bound_by_position() {
    let accessor = by_hand(
        Bindings::Positional(strings(&["x", "y"])),
        ExpressionDescription::Tuple(strings(&["y", "x", "y"])),
    );
    let instance = it(vec![(None, 10), (None, 20)]);
    assert_eq!(accessor.apply(&instance), Some(vec![&20, &10, &20]));
    assert_eq!(accessor.match_pattern.slot_of(&instance, &"y".to_string()), Some(1));
}

#[test]
fn expression_over_an_unbound_name_gives_nothing() {
    let unbound = by_hand(
        Bindings::Positional(strings(&["x"])),
        ExpressionDescription::Reference("y".to_string()),
    );
    assert_eq!(unbound.apply(&it(vec![(None, 1)])), None);

    let bare = by_hand(Bindings::Bare, ExpressionDescription::Reference("x".to_string()));
    assert_eq!(bare.apply(&it(vec![(None, 1)])), None);

    let beyond = by_hand(
        Bindings::Positional(strings(&["x", "y"])),
        ExpressionDescription::Tuple(strings(&["x", "y"])),
    );
    assert_eq!(beyond.apply(&it(vec![(None, 1)])), None);

    let unlabeled = by_hand(
        Bindings::Named(strings(&["x"])),
        ExpressionDescription::Reference("x".to_string()),
    );
    assert_eq!(unlabeled.apply(&it(vec![(None, 1)])), None);
}
