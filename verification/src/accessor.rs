//! The description of one synthesized accessor.
use vstd::prelude::*;

verus! {

/// The type an accessor returns when it is present.
#[derive(Clone, Debug, PartialEq, Eq)]
pub enum TypeDescription {
    /// The empty tuple.
    Unit,
    /// A borrowed reference to the named type.
    Reference(String),
    /// A tuple of borrowed references, one to each named type, in order.
    Tuple(Vec<String>),
}

/// The names that a pattern binds.
#[derive(Clone, Debug, PartialEq, Eq)]
pub enum Bindings {
    /// The alternative alone, with no payload.
    Bare,
    /// One name per position, in order.
    Positional(Vec<String>),
    /// Fields bound by their own names.
    Named(Vec<String>),
}

/// The pattern that tests for an alternative and binds its payload.
#[derive(Clone, Debug, PartialEq, Eq)]
pub struct PatternDescription {
    pub host: String,
    pub alternative: String,
    pub bindings: Bindings,
}

/// The value an accessor returns when it is present.
#[derive(Clone, Debug, PartialEq, Eq)]
pub enum ExpressionDescription {
    /// The empty tuple.
    Unit,
    /// A borrowed reference to the value bound to the name.
    Reference(String),
    /// A tuple of borrowed references, one to each bound name, in order.
    Tuple(Vec<String>),
}

/// One accessor: its name and documentation, what it returns, the pattern it
/// matches the instance against and the value it gives when the pattern
/// matches.
#[derive(Clone, Debug, PartialEq, Eq)]
pub struct AccessorSpec {
    pub function_name: String,
    pub doc: String,
    pub return_type: TypeDescription,
    pub match_pattern: PatternDescription,
    pub result_expression: ExpressionDescription,
}

/// Model of [`TypeDescription`].
pub enum ReturnModel {
    Unit,
    Reference(Seq<char>),
    Tuple(Seq<Seq<char>>),
}

/// Model of [`Bindings`].
pub enum BindingsModel {
    Bare,
    Positional(Seq<Seq<char>>),
    Named(Seq<Seq<char>>),
}

/// Model of [`PatternDescription`].
pub struct PatternModel {
    pub host: Seq<char>,
    pub alternative: Seq<char>,
    pub bindings: BindingsModel,
}

/// Model of [`ExpressionDescription`].
pub enum ExpressionModel {
    Unit,
    Reference(Seq<char>),
    Tuple(Seq<Seq<char>>),
}

/// Model of [`AccessorSpec`].
pub struct AccessorModel {
    pub function_name: Seq<char>,
    pub doc: Seq<char>,
    pub return_type: ReturnModel,
    pub match_pattern: PatternModel,
    pub result_expression: ExpressionModel,
}

impl View for TypeDescription {
    type V = ReturnModel;

    open spec fn view(&self) -> ReturnModel {
        match self {
            TypeDescription::Unit => ReturnModel::Unit,
            TypeDescription::Reference(ty) => ReturnModel::Reference(ty@),
            TypeDescription::Tuple(types) => ReturnModel::Tuple(types.deep_view()),
        }
    }
}

impl View for Bindings {
    type V = BindingsModel;

    open spec fn view(&self) -> BindingsModel {
        match self {
            Bindings::Bare => BindingsModel::Bare,
            Bindings::Positional(names) => BindingsModel::Positional(names.deep_view()),
            Bindings::Named(names) => BindingsModel::Named(names.deep_view()),
        }
    }
}

impl View for PatternDescription {
    type V = PatternModel;

    open spec fn view(&self) -> PatternModel {
        PatternModel {
            host: self.host@,
            alternative: self.alternative@,
            bindings: self.bindings@,
        }
    }
}

impl View for ExpressionDescription {
    type V = ExpressionModel;

    open spec fn view(&self) -> ExpressionModel {
        match self {
            ExpressionDescription::Unit => ExpressionModel::Unit,
            ExpressionDescription::Reference(name) => ExpressionModel::Reference(name@),
            ExpressionDescription::Tuple(names) => ExpressionModel::Tuple(names.deep_view()),
        }
    }
}

impl View for AccessorSpec {
    type V = AccessorModel;

    open spec fn view(&self) -> AccessorModel {
        AccessorModel {
            function_name: self.function_name@,
            doc: self.doc@,
            return_type: self.return_type@,
            match_pattern: self.match_pattern@,
            result_expression: self.result_expression@,
        }
    }
}

impl DeepView for AccessorSpec {
    type V = AccessorModel;

    open spec fn deep_view(&self) -> AccessorModel {
        self@
    }
}

impl BindingsModel {
    /// The bound names, in the order in which the pattern lists them.
    pub open spec fn names(self) -> Seq<Seq<char>> {
        match self {
            BindingsModel::Bare => Seq::empty(),
            BindingsModel::Positional(names) => names,
            BindingsModel::Named(names) => names,
        }
    }
}

impl ExpressionModel {
    /// The names whose values the expression borrows, in order.
    pub open spec fn names(self) -> Seq<Seq<char>> {
        match self {
            ExpressionModel::Unit => Seq::empty(),
            ExpressionModel::Reference(name) => seq![name],
            ExpressionModel::Tuple(names) => names,
        }
    }
}

} // verus!
