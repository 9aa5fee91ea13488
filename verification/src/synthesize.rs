//! Synthesis of the accessor for one alternative.
//!
//! There is one function per label kind. Each takes the host type's name,
//! the alternative's name, the accessor's function name and documentation,
//! and, where there is a payload, its fields.
use vstd::prelude::*;
use crate::accessor::{
    AccessorModel,
    AccessorSpec,
    Bindings,
    BindingsModel,
    ExpressionDescription,
    ExpressionModel,
    PatternDescription,
    PatternModel,
    ReturnModel,
    TypeDescription,
};
use crate::classify::{arity, arity_of, Arity};
use crate::descriptor::{NamedField, PayloadModel};
use crate::error::{defect_error, Defect, ErrorModel, GenerationError};
use crate::fresh::{fresh_names, positional_binder, positional_name};

verus! {

/// The return type for fields of the given types: nothing for no field, a
/// reference for one, a tuple of references in the same order for more.
pub open spec fn references_to(types: Seq<Seq<char>>) -> ReturnModel {
    match arity_of(types.len()) {
        Arity::Zero => ReturnModel::Unit,
        Arity::One => ReturnModel::Reference(types[0]),
        Arity::Many => ReturnModel::Tuple(types),
    }
}

/// The result expression over the given bound names: nothing for no name, a
/// reference for one, a tuple of references in the same order for more.
pub open spec fn borrows_of(names: Seq<Seq<char>>) -> ExpressionModel {
    match arity_of(names.len()) {
        Arity::Zero => ExpressionModel::Unit,
        Arity::One => ExpressionModel::Reference(names[0]),
        Arity::Many => ExpressionModel::Tuple(names),
    }
}

/// The bindings of the pattern for a payload.
pub open spec fn bindings_of(payload: PayloadModel) -> BindingsModel {
    match payload {
        PayloadModel::NoPayload => BindingsModel::Bare,
        PayloadModel::Positional(_) => BindingsModel::Positional(payload.binder_names()),
        PayloadModel::Named(_) => BindingsModel::Named(payload.binder_names()),
    }
}

/// The accessor for an alternative of `host` with the given payload.
pub open spec fn accessor_of(
    host: Seq<char>,
    alternative: Seq<char>,
    function_name: Seq<char>,
    doc: Seq<char>,
    payload: PayloadModel,
) -> AccessorModel {
    AccessorModel {
        function_name,
        doc,
        return_type: references_to(payload.types()),
        match_pattern: PatternModel { host, alternative, bindings: bindings_of(payload) },
        result_expression: borrows_of(payload.binder_names()),
    }
}

/// What synthesis gives for an alternative: the error for its first
/// defective field, or else its accessor.
pub open spec fn synthesized(
    host: Seq<char>,
    alternative: Seq<char>,
    function_name: Seq<char>,
    doc: Seq<char>,
    payload: PayloadModel,
) -> Result<AccessorModel, ErrorModel> {
    match payload.first_defect() {
        Some((position, defect)) => Err(defect_error(host, alternative, position, defect)),
        None => Ok(accessor_of(host, alternative, function_name, doc, payload)),
    }
}

/// The accessor for an alternative without payload: it returns the empty
/// tuple and binds nothing.
pub fn unit_fields_return(name: &str, variant_name: &str, function_name: &str, doc: &str) -> (accessor:
    AccessorSpec)
    ensures
        accessor@ == accessor_of(
            name@,
            variant_name@,
            function_name@,
            doc@,
            PayloadModel::NoPayload,
        ),
{
    AccessorSpec {
        function_name: String::from_str(function_name),
        doc: String::from_str(doc),
        return_type: TypeDescription::Unit,
        match_pattern: PatternDescription {
            host: String::from_str(name),
            alternative: String::from_str(variant_name),
            bindings: Bindings::Bare,
        },
        result_expression: ExpressionDescription::Unit,
    }
}

fn first_untyped(fields: &Vec<String>) -> (found: Option<usize>)
    ensures
        match found {
            Some(position) => PayloadModel::Positional(fields.deep_view()).first_defect() == Some(
                (position as nat, Defect::MissingType),
            ),
            None => PayloadModel::Positional(fields.deep_view()).first_defect() is None,
        },
{
    let ghost payload = PayloadModel::Positional(fields.deep_view());
    let mut i: usize = 0;
    while i < fields.len()
        invariant
            i <= fields.len(),
            payload == PayloadModel::Positional(fields.deep_view()),
            payload.first_defect() == payload.first_defect_from(i as int),
        decreases fields.len() - i,
    {
        if fields[i].as_str().is_empty() {
            return Some(i);
        }
        i += 1;
    }
    None
}

/// The accessor for an alternative with a positional payload.
///
/// With no field it returns the empty tuple; with one field a reference to
/// it, bound to `inner`; with more a tuple of references in declaration
/// order, the positions bound to `match_0`, `match_1`, and so on. A field
/// without a type is an error, and the first such field is reported.
pub fn unnamed_fields_return(
    name: &str,
    variant_name: &str,
    function_name: &str,
    doc: &str,
    fields: &Vec<String>,
) -> (outcome: Result<AccessorSpec, GenerationError>)
    ensures
        match outcome {
            Ok(accessor) => synthesized(
                name@,
                variant_name@,
                function_name@,
                doc@,
                PayloadModel::Positional(fields.deep_view()),
            ) == Ok::<AccessorModel, ErrorModel>(accessor@),
            Err(error) => synthesized(
                name@,
                variant_name@,
                function_name@,
                doc@,
                PayloadModel::Positional(fields.deep_view()),
            ) == Err::<AccessorModel, ErrorModel>(error@),
        },
{
    if let Some(position) = first_untyped(fields) {
        return Err(GenerationError::for_defect(name, variant_name, position, Defect::MissingType));
    }
    let ghost payload = PayloadModel::Positional(fields.deep_view());
    let (borrowed, matches, accesses) = match arity(fields.len()) {
        Arity::One => {
            let borrowed = TypeDescription::Reference(fields[0].clone());
            let mut matches: Vec<String> = Vec::new();
            matches.push(String::from_str("inner"));
            let accesses = ExpressionDescription::Reference(String::from_str("inner"));
            assert(matches.deep_view() =~= fresh_names(1));
            (borrowed, matches, accesses)
        },
        Arity::Zero => {
            let matches: Vec<String> = Vec::new();
            assert(matches.deep_view() =~= fresh_names(0));
            (TypeDescription::Unit, matches, ExpressionDescription::Unit)
        },
        Arity::Many => {
            let mut borrowed: Vec<String> = Vec::new();
            let mut matches: Vec<String> = Vec::new();
            let mut accesses: Vec<String> = Vec::new();
            let mut i: usize = 0;
            while i < fields.len()
                invariant
                    i <= fields.len(),
                    borrowed.len() == i,
                    matches.len() == i,
                    accesses.len() == i,
                    forall|j: int| 0 <= j < i ==> (#[trigger] borrowed[j])@ == fields[j]@,
                    forall|j: int| 0 <= j < i ==> (#[trigger] matches[j])@ == positional_name(j as nat),
                    forall|j: int| 0 <= j < i ==> (#[trigger] accesses[j])@ == positional_name(j as nat),
                decreases fields.len() - i,
            {
                borrowed.push(fields[i].clone());
                matches.push(positional_binder(i));
                accesses.push(positional_binder(i));
                i += 1;
            }
            assert(borrowed.deep_view() =~= fields.deep_view());
            assert(matches.deep_view() =~= fresh_names(fields.len() as nat));
            assert(accesses.deep_view() =~= fresh_names(fields.len() as nat));
            (TypeDescription::Tuple(borrowed), matches, ExpressionDescription::Tuple(accesses))
        },
    };
    Ok(
        AccessorSpec {
            function_name: String::from_str(function_name),
            doc: String::from_str(doc),
            return_type: borrowed,
            match_pattern: PatternDescription {
                host: String::from_str(name),
                alternative: String::from_str(variant_name),
                bindings: Bindings::Positional(matches),
            },
            result_expression: accesses,
        },
    )
}

fn first_defective(fields: &Vec<NamedField>) -> (found: Option<(usize, Defect)>)
    ensures
        match found {
            Some((position, defect)) => PayloadModel::Named(fields.deep_view()).first_defect()
                == Some((position as nat, defect)),
            None => PayloadModel::Named(fields.deep_view()).first_defect() is None,
        },
{
    let ghost payload = PayloadModel::Named(fields.deep_view());
    let mut i: usize = 0;
    while i < fields.len()
        invariant
            i <= fields.len(),
            payload == PayloadModel::Named(fields.deep_view()),
            payload.first_defect() == payload.first_defect_from(i as int),
        decreases fields.len() - i,
    {
        if fields[i].name.is_none() {
            return Some((i, Defect::MissingName));
        }
        if fields[i].ty.as_str().is_empty() {
            return Some((i, Defect::MissingType));
        }
        i += 1;
    }
    None
}

fn declared_name(field: &NamedField) -> (name: String)
    requires
        field.name is Some,
    ensures
        name@ == field@.name.unwrap(),
{
    match &field.name {
        Some(name) => name.clone(),
        None => String::new(),
    }
}

/// The accessor for an alternative with a labeled payload.
///
/// With no field it returns the empty tuple; with one field a reference to
/// it; with more a tuple of references in the declaration order of the
/// fields. Every field is bound by its own name. A field without a name or
/// without a type is an error, and the first such field is reported.
pub fn named_fields_return(
    name: &str,
    variant_name: &str,
    function_name: &str,
    doc: &str,
    fields: &Vec<NamedField>,
) -> (outcome: Result<AccessorSpec, GenerationError>)
    ensures
        match outcome {
            Ok(accessor) => synthesized(
                name@,
                variant_name@,
                function_name@,
                doc@,
                PayloadModel::Named(fields.deep_view()),
            ) == Ok::<AccessorModel, ErrorModel>(accessor@),
            Err(error) => synthesized(
                name@,
                variant_name@,
                function_name@,
                doc@,
                PayloadModel::Named(fields.deep_view()),
            ) == Err::<AccessorModel, ErrorModel>(error@),
        },
{
    if let Some((position, defect)) = first_defective(fields) {
        return Err(GenerationError::for_defect(name, variant_name, position, defect));
    }
    let ghost payload = PayloadModel::Named(fields.deep_view());
    proof {
        lemma_no_defect(payload, 0);
    }
    let (borrowed, matches, accesses) = match arity(fields.len()) {
        Arity::One => {
            assert(payload.defect_at(0) is None);
            let match_name = declared_name(&fields[0]);
            let borrowed = TypeDescription::Reference(fields[0].ty.clone());
            let mut matches: Vec<String> = Vec::new();
            matches.push(match_name.clone());
            let accesses = ExpressionDescription::Reference(match_name);
            assert(matches.deep_view() =~= payload.binder_names());
            (borrowed, matches, accesses)
        },
        Arity::Zero => {
            let matches: Vec<String> = Vec::new();
            assert(matches.deep_view() =~= payload.binder_names());
            (TypeDescription::Unit, matches, ExpressionDescription::Unit)
        },
        Arity::Many => {
            let mut borrowed: Vec<String> = Vec::new();
            let mut matches: Vec<String> = Vec::new();
            let mut accesses: Vec<String> = Vec::new();
            let mut i: usize = 0;
            while i < fields.len()
                invariant
                    i <= fields.len(),
                    borrowed.len() == i,
                    matches.len() == i,
                    accesses.len() == i,
                    payload == PayloadModel::Named(fields.deep_view()),
                    forall|j: int| 0 <= j < fields.len() ==> payload.defect_at(j) is None,
                    forall|j: int| 0 <= j < i ==> (#[trigger] borrowed[j])@ == fields[j]@.ty,
                    forall|j: int|
                        0 <= j < i ==> (#[trigger] matches[j])@ == fields[j]@.name.unwrap(),
                    forall|j: int|
                        0 <= j < i ==> (#[trigger] accesses[j])@ == fields[j]@.name.unwrap(),
                decreases fields.len() - i,
            {
                assert(payload.defect_at(i as int) is None);
                let match_name = declared_name(&fields[i]);
                borrowed.push(fields[i].ty.clone());
                matches.push(match_name.clone());
                accesses.push(match_name);
                i += 1;
            }
            assert(borrowed.deep_view() =~= payload.types());
            assert(matches.deep_view() =~= payload.binder_names());
            assert(accesses.deep_view() =~= payload.binder_names());
            (TypeDescription::Tuple(borrowed), matches, ExpressionDescription::Tuple(accesses))
        },
    };
    Ok(
        AccessorSpec {
            function_name: String::from_str(function_name),
            doc: String::from_str(doc),
            return_type: borrowed,
            match_pattern: PatternDescription {
                host: String::from_str(name),
                alternative: String::from_str(variant_name),
                bindings: Bindings::Named(matches),
            },
            result_expression: accesses,
        },
    )
}

/// Where no first defect is found from `start` on, no field from there on
/// is defective.
pub proof fn lemma_no_defect(payload: PayloadModel, start: int)
    requires
        0 <= start,
        payload.first_defect_from(start) is None,
    ensures
        forall|j: int| start <= j < payload.field_count() ==> payload.defect_at(j) is None,
    decreases payload.field_count() - start,
{
    if start < payload.field_count() {
        lemma_no_defect(payload, start + 1);
    }
}

} // verus!
