//! The description of a type as the generator receives it.
//!
//! Every executable type has a mathematical model, reached by `@`, in which
//! strings are sequences of characters and vectors are sequences.
use vstd::prelude::*;
use crate::error::Defect;
use crate::fresh::fresh_names;

verus! {

/// A labeled field of an alternative. A field that was declared without a
/// name has `name == None`; a field whose type could not be derived has an
/// empty `ty`.
#[derive(Clone, Debug, PartialEq, Eq)]
pub struct NamedField {
    pub name: Option<String>,
    pub ty: String,
}

/// The payload of an alternative. The sequences may be empty.
#[derive(Clone, Debug, PartialEq, Eq)]
pub enum PayloadShape {
    /// No payload at all.
    NoPayload,
    /// Unlabeled fields, given by their types in declaration order. An
    /// empty type stands for a field whose type could not be derived.
    Positional(Vec<String>),
    /// Labeled fields in declaration order.
    Named(Vec<NamedField>),
}

/// One alternative of a sum type.
#[derive(Clone, Debug, PartialEq, Eq)]
pub struct AlternativeDescriptor {
    pub name: String,
    pub payload: PayloadShape,
}

/// What kind of type a description is of.
#[derive(Clone, Debug, PartialEq, Eq)]
pub enum TypeKind {
    /// A sum type with its alternatives in declaration order.
    Sum(Vec<AlternativeDescriptor>),
    /// A record (product) type.
    Record,
    /// An untagged union.
    Union,
}

/// A described type: its name and what it is.
#[derive(Clone, Debug, PartialEq, Eq)]
pub struct TypeDescriptor {
    pub name: String,
    pub kind: TypeKind,
}

/// Model of [`NamedField`].
pub struct NamedFieldModel {
    pub name: Option<Seq<char>>,
    pub ty: Seq<char>,
}

/// Model of [`PayloadShape`].
pub enum PayloadModel {
    NoPayload,
    Positional(Seq<Seq<char>>),
    Named(Seq<NamedFieldModel>),
}

/// Model of [`AlternativeDescriptor`].
pub struct AlternativeModel {
    pub name: Seq<char>,
    pub payload: PayloadModel,
}

/// Model of [`TypeKind`].
pub enum TypeKindModel {
    Sum(Seq<AlternativeModel>),
    Record,
    Union,
}

/// Model of [`TypeDescriptor`].
pub struct TypeModel {
    pub name: Seq<char>,
    pub kind: TypeKindModel,
}

impl View for NamedField {
    type V = NamedFieldModel;

    open spec fn view(&self) -> NamedFieldModel {
        NamedFieldModel { name: self.name.deep_view(), ty: self.ty@ }
    }
}

impl DeepView for NamedField {
    type V = NamedFieldModel;

    open spec fn deep_view(&self) -> NamedFieldModel {
        self@
    }
}

impl View for PayloadShape {
    type V = PayloadModel;

    open spec fn view(&self) -> PayloadModel {
        match self {
            PayloadShape::NoPayload => PayloadModel::NoPayload,
            PayloadShape::Positional(types) => PayloadModel::Positional(types.deep_view()),
            PayloadShape::Named(fields) => PayloadModel::Named(fields.deep_view()),
        }
    }
}

impl View for AlternativeDescriptor {
    type V = AlternativeModel;

    open spec fn view(&self) -> AlternativeModel {
        AlternativeModel { name: self.name@, payload: self.payload@ }
    }
}

impl DeepView for AlternativeDescriptor {
    type V = AlternativeModel;

    open spec fn deep_view(&self) -> AlternativeModel {
        self@
    }
}

impl View for TypeKind {
    type V = TypeKindModel;

    open spec fn view(&self) -> TypeKindModel {
        match self {
            TypeKind::Sum(alternatives) => TypeKindModel::Sum(alternatives.deep_view()),
            TypeKind::Record => TypeKindModel::Record,
            TypeKind::Union => TypeKindModel::Union,
        }
    }
}

impl View for TypeDescriptor {
    type V = TypeModel;

    open spec fn view(&self) -> TypeModel {
        TypeModel { name: self.name@, kind: self.kind@ }
    }
}

impl PayloadModel {
    /// The number of fields of the payload.
    pub open spec fn field_count(self) -> nat {
        match self {
            PayloadModel::NoPayload => 0,
            PayloadModel::Positional(types) => types.len(),
            PayloadModel::Named(fields) => fields.len(),
        }
    }

    /// The labels of the fields in declaration order: `None` for each
    /// position of a positional payload.
    pub open spec fn labels(self) -> Seq<Option<Seq<char>>> {
        match self {
            PayloadModel::NoPayload => Seq::empty(),
            PayloadModel::Positional(types) => Seq::new(types.len(), |i: int| None),
            PayloadModel::Named(fields) => Seq::new(fields.len(), |i: int| fields[i].name),
        }
    }

    /// The types of the fields in declaration order.
    pub open spec fn types(self) -> Seq<Seq<char>> {
        match self {
            PayloadModel::NoPayload => Seq::empty(),
            PayloadModel::Positional(types) => types,
            PayloadModel::Named(fields) => Seq::new(fields.len(), |i: int| fields[i].ty),
        }
    }

    /// What is wrong with the field at `position`, if anything: a labeled
    /// field needs a name, and every field needs a type. A missing name is
    /// reported before a missing type.
    pub open spec fn defect_at(self, position: int) -> Option<Defect> {
        if self is Named && self.labels()[position] is None {
            Some(Defect::MissingName)
        } else if self.types()[position].len() == 0 {
            Some(Defect::MissingType)
        } else {
            None
        }
    }

    /// The first defective field at or after `start`, with its defect.
    pub open spec fn first_defect_from(self, start: int) -> Option<(nat, Defect)>
        decreases self.field_count() - start,
    {
        if start < 0 || start >= self.field_count() {
            None
        } else {
            match self.defect_at(start) {
                Some(defect) => Some((start as nat, defect)),
                None => self.first_defect_from(start + 1),
            }
        }
    }

    /// The first defective field in declaration order, with its defect.
    pub open spec fn first_defect(self) -> Option<(nat, Defect)> {
        self.first_defect_from(0)
    }

    /// The names that the accessor's pattern binds to the fields, in
    /// declaration order: fresh names for positions, and for labeled fields
    /// their own names.
    pub open spec fn binder_names(self) -> Seq<Seq<char>> {
        match self {
            PayloadModel::NoPayload => Seq::empty(),
            PayloadModel::Positional(types) => fresh_names(types.len()),
            PayloadModel::Named(fields) => Seq::new(fields.len(), |i: int| fields[i].name.unwrap()),
        }
    }

    /// No two fields of a labeled payload have the same label.
    pub open spec fn labels_distinct(self) -> bool {
        self is Named ==> forall|i: int, j: int|
            0 <= i < j < self.field_count() ==> self.labels()[i] != self.labels()[j]
    }

    /// No field is defective, and no name labels two fields.
    pub open spec fn well_formed(self) -> bool {
        &&& forall|i: int| 0 <= i < self.field_count() ==> #[trigger] self.defect_at(i) is None
        &&& self.labels_distinct()
    }
}

impl PayloadShape {
    /// The number of fields of the payload.
    pub fn field_count(&self) -> (count: usize)
        ensures
            count == self@.field_count(),
    {
        match self {
            PayloadShape::NoPayload => 0,
            PayloadShape::Positional(types) => types.len(),
            PayloadShape::Named(fields) => fields.len(),
        }
    }
}

} // verus!
