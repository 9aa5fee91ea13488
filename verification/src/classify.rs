//! Classification of a payload by the kind of its labels and by its arity.
use vstd::prelude::*;
use crate::descriptor::{PayloadModel, PayloadShape};

verus! {

/// How the fields of a payload are told apart.
#[derive(Clone, Copy, Debug, PartialEq, Eq, Structural)]
pub enum Label {
    /// The alternative has no payload.
    Unit,
    /// The fields are told apart by position.
    Positional,
    /// The fields are told apart by name.
    Named,
}

/// How many fields a payload has.
#[derive(Clone, Copy, Debug, PartialEq, Eq, Structural)]
pub enum Arity {
    Zero,
    One,
    Many,
}

/// The arity class of a number of fields.
pub open spec fn arity_of(count: nat) -> Arity {
    if count == 0 {
        Arity::Zero
    } else if count == 1 {
        Arity::One
    } else {
        Arity::Many
    }
}

/// The label kind of a payload.
pub open spec fn label_of(payload: PayloadModel) -> Label {
    match payload {
        PayloadModel::NoPayload => Label::Unit,
        PayloadModel::Positional(_) => Label::Positional,
        PayloadModel::Named(_) => Label::Named,
    }
}

/// The class of a payload: its label kind and the arity of its field count.
pub open spec fn classified(payload: PayloadModel) -> (Label, Arity) {
    (label_of(payload), arity_of(payload.field_count()))
}

/// Computes the arity class of a number of fields.
pub fn arity(count: usize) -> (class: Arity)
    ensures
        class == arity_of(count as nat),
{
    if count == 0 {
        Arity::Zero
    } else if count == 1 {
        Arity::One
    } else {
        Arity::Many
    }
}

/// Classifies a payload. Total: every payload has exactly one class, and a
/// missing payload is always `(Unit, Zero)`.
pub fn classify(payload: &PayloadShape) -> (class: (Label, Arity))
    ensures
        class == classified(payload@),
        payload is NoPayload ==> class == (Label::Unit, Arity::Zero),
{
    let label = match payload {
        PayloadShape::NoPayload => Label::Unit,
        PayloadShape::Positional(_) => Label::Positional,
        PayloadShape::Named(_) => Label::Named,
    };
    (label, arity(payload.field_count()))
}

} // verus!
