//! Emission of the accessors of a whole type.
use vstd::prelude::*;
use crate::accessor::{AccessorModel, AccessorSpec};
use crate::casing::{accessor_name, function_name_for};
use crate::descriptor::{
    AlternativeModel,
    PayloadShape,
    TypeDescriptor,
    TypeKind,
    TypeKindModel,
    TypeModel,
};
use crate::error::{ErrorModel, GenerationError};
use crate::search::{find, find_from};
use crate::synthesize::{
    accessor_of,
    named_fields_return,
    synthesized,
    unit_fields_return,
    unnamed_fields_return,
};

verus! {

/// The accessors of a type, to be added to it as methods. The type's own
/// definition is not part of it.
#[derive(Clone, Debug, PartialEq, Eq)]
pub struct GeneratedImpl {
    pub host: String,
    pub accessors: Vec<AccessorSpec>,
}

/// Model of [`GeneratedImpl`].
pub struct ImplModel {
    pub host: Seq<char>,
    pub accessors: Seq<AccessorModel>,
}

impl View for GeneratedImpl {
    type V = ImplModel;

    open spec fn view(&self) -> ImplModel {
        ImplModel { host: self.host@, accessors: self.accessors.deep_view() }
    }
}

impl ImplModel {
    /// The function names of the accessors, in order.
    pub open spec fn function_names(self) -> Seq<Seq<char>> {
        Seq::new(self.accessors.len(), |i: int| self.accessors[i].function_name)
    }

    /// The first accessor with the given function name.
    pub open spec fn accessor(self, function_name: Seq<char>) -> Option<AccessorModel> {
        match find(self.function_names(), function_name) {
            Some(position) => Some(self.accessors[position]),
            None => None,
        }
    }
}

impl GeneratedImpl {
    /// Looks an accessor up by its function name. Where several accessors
    /// share the name, the first in declaration order is found.
    pub fn accessor(&self, function_name: &str) -> (found: Option<&AccessorSpec>)
        ensures
            match found {
                Some(accessor) => self@.accessor(function_name@) == Some(accessor@),
                None => self@.accessor(function_name@) is None,
            },
    {
        let wanted = String::from_str(function_name);
        let ghost names = self@.function_names();
        let mut i: usize = 0;
        while i < self.accessors.len()
            invariant
                i <= self.accessors.len(),
                wanted@ == function_name@,
                names == self@.function_names(),
                find(names, wanted@) == find_from(names, wanted@, i as int),
            decreases self.accessors.len() - i,
        {
            assert(names[i as int] == self.accessors[i as int].function_name@);
            if self.accessors[i].function_name == wanted {
                return Some(&self.accessors[i]);
            }
            i += 1;
        }
        None
    }
}

/// The documentation of the accessor for an alternative of `host`.
pub open spec fn accessor_doc(host: Seq<char>, alternative: Seq<char>) -> Seq<char> {
    "Optionally returns references to the inner fields if this is a `"@ + host + "::"@
        + alternative + "`, otherwise `None`"@
}

/// The accessor for an alternative of `host`, whatever its payload: it is
/// named `as_` and the normalized name of the alternative.
pub open spec fn accessor_for(host: Seq<char>, alternative: AlternativeModel) -> AccessorModel {
    accessor_of(
        host,
        alternative.name,
        accessor_name(alternative.name),
        accessor_doc(host, alternative.name),
        alternative.payload,
    )
}

/// What synthesis gives for an alternative of `host`: its accessor, or the
/// error of its first defective field.
pub open spec fn accessor_result(host: Seq<char>, alternative: AlternativeModel) -> Result<
    AccessorModel,
    ErrorModel,
> {
    synthesized(
        host,
        alternative.name,
        accessor_name(alternative.name),
        accessor_doc(host, alternative.name),
        alternative.payload,
    )
}

/// The error of an alternative of `host`, if it has one.
pub open spec fn alternative_error(host: Seq<char>, alternative: AlternativeModel) -> Option<
    ErrorModel,
> {
    match accessor_result(host, alternative) {
        Ok(_) => None,
        Err(error) => Some(error),
    }
}

/// The error of the first alternative at or after `start` that has one.
pub open spec fn first_error_from(
    host: Seq<char>,
    alternatives: Seq<AlternativeModel>,
    start: int,
) -> Option<ErrorModel>
    decreases alternatives.len() - start,
{
    if start < 0 || start >= alternatives.len() {
        None
    } else {
        match alternative_error(host, alternatives[start]) {
            Some(error) => Some(error),
            None => first_error_from(host, alternatives, start + 1),
        }
    }
}

/// What generation gives for a described type.
///
/// A type that is not a sum type is an error. So is a sum type with a
/// defective field: the error is that of the first defective field of the
/// first alternative that has one. Otherwise there is one accessor per
/// alternative, in declaration order.
pub open spec fn emitted(ast: TypeModel) -> Result<ImplModel, ErrorModel> {
    match ast.kind {
        TypeKindModel::Sum(alternatives) => match first_error_from(ast.name, alternatives, 0) {
            Some(error) => Err(error),
            None => Ok(
                ImplModel {
                    host: ast.name,
                    accessors: Seq::new(
                        alternatives.len(),
                        |i: int| accessor_for(ast.name, alternatives[i]),
                    ),
                },
            ),
        },
        _ => Err(ErrorModel::NotASumType { host: ast.name }),
    }
}

/// Writes the documentation of the accessor for an alternative of `host`.
pub fn doc_for(host: &str, alternative: &str) -> (doc: String)
    ensures
        doc@ == accessor_doc(host@, alternative@),
{
    String::from_str("Optionally returns references to the inner fields if this is a `").concat(
        host,
    ).concat("::").concat(alternative).concat("`, otherwise `None`")
}

/// Generates the accessors of a described type, one per alternative and in
/// declaration order. Each alternative is handled on its own.
pub fn impl_all_as_fns(ast: &TypeDescriptor) -> (outcome: Result<GeneratedImpl, GenerationError>)
    ensures
        match outcome {
            Ok(generated) => emitted(ast@) == Ok::<ImplModel, ErrorModel>(generated@),
            Err(error) => emitted(ast@) == Err::<ImplModel, ErrorModel>(error@),
        },
{
    let name = ast.name.as_str();
    let variants = match &ast.kind {
        TypeKind::Sum(variants) => variants,
        _ => {
            return Err(GenerationError::NotASumType { host: String::from_str(name) });
        },
    };
    let ghost alternatives = variants.deep_view();
    let mut stream: Vec<AccessorSpec> = Vec::new();
    let mut i: usize = 0;
    while i < variants.len()
        invariant
            i <= variants.len(),
            stream.len() == i,
            name@ == ast.name@,
            alternatives == variants.deep_view(),
            ast@.kind == TypeKindModel::Sum(alternatives),
            first_error_from(name@, alternatives, 0) == first_error_from(
                name@,
                alternatives,
                i as int,
            ),
            forall|j: int|
                0 <= j < i ==> (#[trigger] stream[j])@ == accessor_for(name@, alternatives[j]),
        decreases variants.len() - i,
    {
        let variant_data = &variants[i];
        let variant_name = variant_data.name.as_str();
        let function_name = function_name_for(variant_name);
        let doc = doc_for(name, variant_name);
        assert(alternatives[i as int] == variant_data@);
        let tokens = match &variant_data.payload {
            PayloadShape::NoPayload => Ok(
                unit_fields_return(name, variant_name, function_name.as_str(), doc.as_str()),
            ),
            PayloadShape::Positional(unnamed) => unnamed_fields_return(
                name,
                variant_name,
                function_name.as_str(),
                doc.as_str(),
                unnamed,
            ),
            PayloadShape::Named(named) => named_fields_return(
                name,
                variant_name,
                function_name.as_str(),
                doc.as_str(),
                named,
            ),
        };
        match tokens {
            Ok(accessor) => {
                stream.push(accessor);
            },
            Err(error) => {
                return Err(error);
            },
        }
        i += 1;
    }
    let generated = GeneratedImpl { host: String::from_str(name), accessors: stream };
    assert(generated@.accessors =~= Seq::new(
        alternatives.len(),
        |i: int| accessor_for(name@, alternatives[i]),
    ));
    Ok(generated)
}

/// A sum type without alternatives has no accessors, and generating them is
/// no error.
pub proof fn lemma_no_alternatives(ast: TypeModel)
    requires
        ast.kind == TypeKindModel::Sum(Seq::empty()),
    ensures
        emitted(ast) == Ok::<ImplModel, ErrorModel>(
            ImplModel { host: ast.name, accessors: Seq::empty() },
        ),
{
    let alternatives = Seq::<AlternativeModel>::empty();
    assert(Seq::new(alternatives.len(), |i: int| accessor_for(ast.name, alternatives[i]))
        =~= Seq::<AccessorModel>::empty());
}

} // verus!
