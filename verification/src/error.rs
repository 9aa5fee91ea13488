//! The errors that end the generation for a type.
use vstd::prelude::*;

verus! {

/// What is wrong with a payload field.
#[derive(Clone, Copy, Debug, PartialEq, Eq, Structural)]
pub enum Defect {
    /// A labeled field was declared without a name.
    MissingName,
    /// The field's type could not be derived.
    MissingType,
}

/// Why no accessors were generated for a type. Generation is all or nothing:
/// with an error there is no partial output.
#[derive(Clone, Debug, PartialEq, Eq)]
pub enum GenerationError {
    /// The described type is not a sum type.
    NotASumType { host: String },
    /// A labeled field of an alternative has no name. `position` counts the
    /// alternative's fields from zero.
    MissingFieldName { host: String, alternative: String, position: usize },
    /// A field of an alternative has no type.
    MissingFieldType { host: String, alternative: String, position: usize },
}

/// Model of [`GenerationError`].
pub enum ErrorModel {
    NotASumType { host: Seq<char> },
    MissingFieldName { host: Seq<char>, alternative: Seq<char>, position: nat },
    MissingFieldType { host: Seq<char>, alternative: Seq<char>, position: nat },
}

impl View for GenerationError {
    type V = ErrorModel;

    open spec fn view(&self) -> ErrorModel {
        match self {
            GenerationError::NotASumType { host } => ErrorModel::NotASumType {
                host: host@,
            },
            GenerationError::MissingFieldName {
                host,
                alternative,
                position,
            } => ErrorModel::MissingFieldName {
                host: host@,
                alternative: alternative@,
                position: *position as nat,
            },
            GenerationError::MissingFieldType {
                host,
                alternative,
                position,
            } => ErrorModel::MissingFieldType {
                host: host@,
                alternative: alternative@,
                position: *position as nat,
            },
        }
    }
}

/// The error for a defect of the field at `position` of an alternative.
pub open spec fn defect_error(
    host: Seq<char>,
    alternative: Seq<char>,
    position: nat,
    defect: Defect,
) -> ErrorModel {
    match defect {
        Defect::MissingName => ErrorModel::MissingFieldName { host, alternative, position },
        Defect::MissingType => ErrorModel::MissingFieldType { host, alternative, position },
    }
}

impl ErrorModel {
    /// The message of the error: it names the type and what was violated.
    pub open spec fn message(self) -> Seq<char> {
        match self {
            ErrorModel::NotASumType { host } => host + " is not an enum"@,
            ErrorModel::MissingFieldName { host, alternative, position } => host + "::"@
                + alternative + ": expected a named field"@,
            ErrorModel::MissingFieldType { host, alternative, position } => host + "::"@
                + alternative + ": expected a field type"@,
        }
    }
}

impl GenerationError {
    /// Builds the error for a defect of the field at `position`.
    pub fn for_defect(host: &str, alternative: &str, position: usize, defect: Defect) -> (error:
        GenerationError)
        ensures
            error@ == defect_error(host@, alternative@, position as nat, defect),
    {
        match defect {
            Defect::MissingName => GenerationError::MissingFieldName {
                host: String::from_str(host),
                alternative: String::from_str(alternative),
                position,
            },
            Defect::MissingType => GenerationError::MissingFieldType {
                host: String::from_str(host),
                alternative: String::from_str(alternative),
                position,
            },
        }
    }

    /// The message of the error.
    pub fn message(&self) -> (text: String)
        ensures
            text@ == self@.message(),
    {
        match self {
            GenerationError::NotASumType { host } => {
                host.clone().concat(" is not an enum")
            },
            GenerationError::MissingFieldName { host, alternative, position } => {
                host.clone().concat("::").concat(alternative.as_str()).concat(
                    ": expected a named field",
                )
            },
            GenerationError::MissingFieldType { host, alternative, position } => {
                host.clone().concat("::").concat(alternative.as_str()).concat(
                    ": expected a field type",
                )
            },
        }
    }
}

} // verus!
