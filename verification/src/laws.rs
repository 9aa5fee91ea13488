//! What holds of every generated accessor.
use vstd::prelude::*;
use crate::accessor::{ExpressionModel, ReturnModel};
use crate::descriptor::{AlternativeModel, PayloadModel, TypeKindModel, TypeModel};
use crate::emit::{accessor_for, alternative_error, emitted, first_error_from, ImplModel};
use crate::error::ErrorModel;
use crate::fresh::lemma_fresh_names_distinct;
use crate::instance::InstanceModel;
use crate::search::lemma_find_first;
use crate::synthesize::{borrows_of, lemma_no_defect};

verus! {

impl<T> InstanceModel<T> {
    /// The instance was constructed as `alternative` of the type `host`: it
    /// holds that alternative, with one slot per field, labeled as the
    /// fields are.
    pub open spec fn constructed_as(self, host: Seq<char>, alternative: AlternativeModel) -> bool {
        &&& self.host == host
        &&& self.alternative == alternative.name
        &&& self.labels() == alternative.payload.labels()
    }
}

/// The alternatives of a sum type; none for any other type.
pub open spec fn alternatives_of(ast: TypeModel) -> Seq<AlternativeModel> {
    match ast.kind {
        TypeKindModel::Sum(alternatives) => alternatives,
        _ => Seq::empty(),
    }
}

/// The names that a result expression borrows are the names it was built
/// over.
pub proof fn lemma_borrowed_names(names: Seq<Seq<char>>)
    ensures
        borrows_of(names).names() == names,
{
    assert(borrows_of(names).names() =~= names);
}

/// Where generation succeeds, no alternative has an error from `start` on.
pub proof fn lemma_no_error(host: Seq<char>, alternatives: Seq<AlternativeModel>, start: int)
    requires
        0 <= start,
        first_error_from(host, alternatives, start) is None,
    ensures
        forall|j: int|
            start <= j < alternatives.len() ==> alternative_error(host, #[trigger] alternatives[j])
                is None,
    decreases alternatives.len() - start,
{
    if start < alternatives.len() {
        lemma_no_error(host, alternatives, start + 1);
    }
}

/// The accessor of an alternative, applied to an instance constructed as
/// that alternative, is present with exactly the payload values of the
/// instance, in declaration order.
///
/// The alternative must be well formed: every field has a type, and in a
/// labeled payload every field has a name of its own.
pub proof fn lemma_own_accessor_present<T>(
    host: Seq<char>,
    alternative: AlternativeModel,
    instance: InstanceModel<T>,
)
    requires
        alternative.payload.well_formed(),
        instance.constructed_as(host, alternative),
    ensures
        accessor_for(host, alternative).evaluate(instance) == Some(instance.values()),
{
    let accessor = accessor_for(host, alternative);
    let payload = alternative.payload;
    let names = payload.binder_names();
    let count = payload.field_count() as int;
    lemma_borrowed_names(names);
    assert(accessor.result_expression.names() == names);
    assert(instance.slots.len() == count) by {
        assert(instance.labels().len() == payload.labels().len());
    }
    assert forall|k: int| 0 <= k < names.len() implies accessor.match_pattern.slot_of(
        instance,
        #[trigger] names[k],
    ) == Some(k) by {
        match payload {
            PayloadModel::NoPayload => {},
            PayloadModel::Positional(types) => {
                assert forall|j: int| 0 <= j < k implies names[j] != names[k] by {
                    if names[j] == names[k] {
                        lemma_fresh_names_distinct(types.len(), j, k);
                    }
                }
                lemma_find_first(names, 0, k);
            },
            PayloadModel::Named(fields) => {
                let labels = instance.labels();
                assert(payload.defect_at(k) is None);
                assert(labels[k] == Some(names[k]));
                assert forall|j: int| 0 <= j < k implies labels[j] != labels[k] by {
                    assert(payload.labels()[j] != payload.labels()[k]);
                }
                lemma_find_first(labels, 0, k);
                assert forall|j: int| 0 <= j < k implies names[j] != names[k] by {
                    assert(payload.defect_at(j) is None);
                    assert(payload.labels()[j] != payload.labels()[k]);
                }
                lemma_find_first(names, 0, k);
            },
        }
    }
    assert(accessor.resolves(instance));
    assert(accessor.evaluate(instance).unwrap() =~= instance.values());
}

/// The accessor of an alternative is absent on an instance that holds an
/// alternative of another name, whatever the two payloads look like.
pub proof fn lemma_other_accessor_absent<T>(
    host: Seq<char>,
    held: AlternativeModel,
    other: AlternativeModel,
    instance: InstanceModel<T>,
)
    requires
        held.name != other.name,
        instance.constructed_as(host, held),
    ensures
        accessor_for(host, other).evaluate(instance) is None,
{
}

/// An alternative without fields, whether it has no payload at all or an
/// empty positional or labeled one, has an accessor that returns the empty
/// tuple: on an instance of the alternative it is present and carries no
/// value.
pub proof fn lemma_empty_payload_carries_nothing<T>(
    host: Seq<char>,
    alternative: AlternativeModel,
    instance: InstanceModel<T>,
)
    requires
        alternative.payload.field_count() == 0,
        instance.host == host,
        instance.alternative == alternative.name,
    ensures
        alternative_error(host, alternative) is None,
        accessor_for(host, alternative).return_type == ReturnModel::Unit,
        accessor_for(host, alternative).result_expression == ExpressionModel::Unit,
        accessor_for(host, alternative).evaluate(instance) == Some(Seq::<T>::empty()),
{
    let accessor = accessor_for(host, alternative);
    assert(alternative.payload.binder_names().len() == 0);
    assert(accessor.resolves(instance));
    assert(accessor.evaluate(instance).unwrap() =~= Seq::<T>::empty());
}

/// For a sum type whose generation succeeds, the generated accessor of each
/// alternative is present, with the instance's payload values, on every
/// instance constructed as that alternative.
///
/// Labeled fields of the alternative must have names of their own.
pub proof fn lemma_generated_present<T>(
    ast: TypeModel,
    generated: ImplModel,
    held: int,
    instance: InstanceModel<T>,
)
    requires
        emitted(ast) == Ok::<ImplModel, ErrorModel>(generated),
        0 <= held < alternatives_of(ast).len(),
        alternatives_of(ast)[held].payload.labels_distinct(),
        instance.constructed_as(ast.name, alternatives_of(ast)[held]),
    ensures
        generated.accessors.len() == alternatives_of(ast).len(),
        generated.accessors[held].evaluate(instance) == Some(instance.values()),
{
    let alternatives = alternatives_of(ast);
    lemma_no_error(ast.name, alternatives, 0);
    assert(alternative_error(ast.name, alternatives[held]) is None);
    lemma_no_defect(alternatives[held].payload, 0);
    lemma_own_accessor_present(ast.name, alternatives[held], instance);
}

/// For a sum type whose generation succeeds, the generated accessor of an
/// alternative is absent on every instance constructed as an alternative of
/// another name.
pub proof fn lemma_generated_absent<T>(
    ast: TypeModel,
    generated: ImplModel,
    held: int,
    other: int,
    instance: InstanceModel<T>,
)
    requires
        emitted(ast) == Ok::<ImplModel, ErrorModel>(generated),
        0 <= held < alternatives_of(ast).len(),
        0 <= other < alternatives_of(ast).len(),
        alternatives_of(ast)[held].name != alternatives_of(ast)[other].name,
        instance.constructed_as(ast.name, alternatives_of(ast)[held]),
    ensures
        generated.accessors[other].evaluate(instance) is None,
{
    lemma_other_accessor_absent(
        ast.name,
        alternatives_of(ast)[held],
        alternatives_of(ast)[other],
        instance,
    );
}

} // verus!
