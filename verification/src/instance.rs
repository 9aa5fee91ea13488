//! Instances of a sum type, and what an accessor gives when applied to one.
//!
//! An instance holds exactly one alternative of its type, with one slot per
//! payload field. An accessor's pattern matches an instance that holds the
//! pattern's alternative; its names are then bound to slots, positional
//! names by position and field names by label, and the result expression
//! borrows the values of the slots it names.
use vstd::prelude::*;
use crate::accessor::{
    AccessorModel,
    AccessorSpec,
    Bindings,
    BindingsModel,
    ExpressionDescription,
    PatternDescription,
    PatternModel,
};
use crate::search::{find, find_from, lemma_found_in_range};

verus! {

/// One payload value of an instance. `label` is the field's name for a
/// labeled payload and `None` for a position.
#[derive(Clone, Debug, PartialEq, Eq)]
pub struct Slot<T> {
    pub label: Option<String>,
    pub value: T,
}

/// A value of the sum type `host` that holds `alternative`, with its payload
/// in declaration order.
#[derive(Clone, Debug, PartialEq, Eq)]
pub struct Instance<T> {
    pub host: String,
    pub alternative: String,
    pub slots: Vec<Slot<T>>,
}

/// Model of [`Slot`].
pub struct SlotModel<T> {
    pub label: Option<Seq<char>>,
    pub value: T,
}

/// Model of [`Instance`].
pub struct InstanceModel<T> {
    pub host: Seq<char>,
    pub alternative: Seq<char>,
    pub slots: Seq<SlotModel<T>>,
}

impl<T> View for Slot<T> {
    type V = SlotModel<T>;

    open spec fn view(&self) -> SlotModel<T> {
        SlotModel { label: self.label.deep_view(), value: self.value }
    }
}

impl<T> DeepView for Slot<T> {
    type V = SlotModel<T>;

    open spec fn deep_view(&self) -> SlotModel<T> {
        self@
    }
}

impl<T> View for Instance<T> {
    type V = InstanceModel<T>;

    open spec fn view(&self) -> InstanceModel<T> {
        InstanceModel {
            host: self.host@,
            alternative: self.alternative@,
            slots: self.slots.deep_view(),
        }
    }
}

impl<T> InstanceModel<T> {
    /// The labels of the slots, in order.
    pub open spec fn labels(self) -> Seq<Option<Seq<char>>> {
        Seq::new(self.slots.len(), |i: int| self.slots[i].label)
    }

    /// The payload values, in order.
    pub open spec fn values(self) -> Seq<T> {
        Seq::new(self.slots.len(), |i: int| self.slots[i].value)
    }
}

/// The values that a sequence of references refers to.
pub open spec fn referents<T>(references: Seq<&T>) -> Seq<T> {
    Seq::new(references.len(), |i: int| *references[i])
}

impl PatternModel {
    /// The pattern matches an instance of its host type that holds its
    /// alternative, and no other.
    pub open spec fn matches<T>(self, instance: InstanceModel<T>) -> bool {
        self.host == instance.host && self.alternative == instance.alternative
    }

    /// The slot that the pattern binds to `name`: for a positional pattern
    /// the slot at the position where the name first stands, for a pattern
    /// over field names the first slot labeled with it.
    pub open spec fn slot_of<T>(self, instance: InstanceModel<T>, name: Seq<char>) -> Option<int> {
        match self.bindings {
            BindingsModel::Bare => None,
            BindingsModel::Positional(names) => match find(names, name) {
                Some(position) => if position < instance.slots.len() {
                    Some(position)
                } else {
                    None
                },
                None => None,
            },
            BindingsModel::Named(names) => match find(names, name) {
                Some(_) => find(instance.labels(), Some(name)),
                None => None,
            },
        }
    }
}

impl AccessorModel {
    /// Every name of the result expression is bound to a slot.
    pub open spec fn resolves<T>(self, instance: InstanceModel<T>) -> bool {
        forall|k: int|
            0 <= k < self.result_expression.names().len() ==> self.match_pattern.slot_of(
                instance,
                #[trigger] self.result_expression.names()[k],
            ) is Some
    }

    /// What the accessor gives on an instance: present with the values that
    /// the result expression borrows, in its order, or absent. It is absent
    /// when the pattern does not match, and also when the expression uses a
    /// name that the pattern does not bind.
    pub open spec fn evaluate<T>(self, instance: InstanceModel<T>) -> Option<Seq<T>> {
        if self.match_pattern.matches(instance) && self.resolves(instance) {
            Some(
                Seq::new(
                    self.result_expression.names().len(),
                    |k: int|
                        instance.slots[self.match_pattern.slot_of(
                            instance,
                            self.result_expression.names()[k],
                        ).unwrap()].value,
                ),
            )
        } else {
            None
        }
    }
}

fn position_of(names: &Vec<String>, name: &String) -> (found: Option<usize>)
    ensures
        match found {
            Some(position) => find(names.deep_view(), name@) == Some(position as int),
            None => find(names.deep_view(), name@) is None,
        },
{
    let mut i: usize = 0;
    while i < names.len()
        invariant
            i <= names.len(),
            find(names.deep_view(), name@) == find_from(names.deep_view(), name@, i as int),
        decreases names.len() - i,
    {
        if names[i] == *name {
            return Some(i);
        }
        i += 1;
    }
    None
}

fn labeled_slot<T>(instance: &Instance<T>, name: &String) -> (found: Option<usize>)
    ensures
        match found {
            Some(position) => find(instance@.labels(), Some(name@)) == Some(position as int),
            None => find(instance@.labels(), Some(name@)) is None,
        },
{
    let mut i: usize = 0;
    while i < instance.slots.len()
        invariant
            i <= instance.slots.len(),
            find(instance@.labels(), Some(name@)) == find_from(
                instance@.labels(),
                Some(name@),
                i as int,
            ),
        decreases instance.slots.len() - i,
    {
        let labeled = match &instance.slots[i].label {
            Some(label) => *label == *name,
            None => false,
        };
        assert(labeled == (instance@.labels()[i as int] == Some(name@)));
        if labeled {
            return Some(i);
        }
        i += 1;
    }
    None
}

impl PatternDescription {
    /// Tests whether the pattern matches the instance.
    pub fn matches<T>(&self, instance: &Instance<T>) -> (matched: bool)
        ensures
            matched == self@.matches(instance@),
    {
        self.host == instance.host && self.alternative == instance.alternative
    }

    /// Finds the slot that the pattern binds to `name`.
    pub fn slot_of<T>(&self, instance: &Instance<T>, name: &String) -> (found: Option<usize>)
        ensures
            match found {
                Some(position) => position < instance.slots.len() && self@.slot_of(
                    instance@,
                    name@,
                ) == Some(position as int),
                None => self@.slot_of(instance@, name@) is None,
            },
    {
        match &self.bindings {
            Bindings::Bare => None,
            Bindings::Positional(names) => match position_of(names, name) {
                Some(position) => if position < instance.slots.len() {
                    Some(position)
                } else {
                    None
                },
                None => None,
            },
            Bindings::Named(names) => match position_of(names, name) {
                Some(_) => {
                    let found = labeled_slot(instance, name);
                    proof {
                        if let Some(position) = found {
                            lemma_found_in_range(
                                instance@.labels(),
                                Some(name@),
                                0,
                                position as int,
                            );
                        }
                    }
                    found
                },
                None => None,
            },
        }
    }
}

impl AccessorSpec {
    /// Applies the accessor to an instance.
    ///
    /// The outcome is either present, with references to the values that the
    /// result expression borrows, or absent; the references point into
    /// `instance`.
    pub fn apply<'a, T>(&self, instance: &'a Instance<T>) -> (outcome: Option<Vec<&'a T>>)
        ensures
            match outcome {
                Some(values) => self@.evaluate(instance@) == Some(referents(values@)),
                None => self@.evaluate(instance@) is None,
            },
    {
        if !self.match_pattern.matches(instance) {
            return None;
        }
        let ghost names = self@.result_expression.names();
        let mut values: Vec<&'a T> = Vec::new();
        match &self.result_expression {
            ExpressionDescription::Unit => {},
            ExpressionDescription::Reference(name) => {
                assert(names[0] == name@);
                match self.match_pattern.slot_of(instance, name) {
                    Some(position) => {
                        values.push(&instance.slots[position].value);
                    },
                    None => {
                        return None;
                    },
                }
            },
            ExpressionDescription::Tuple(borrowed) => {
                let mut k: usize = 0;
                while k < borrowed.len()
                    invariant
                        k <= borrowed.len(),
                        values.len() == k,
                        names == borrowed.deep_view(),
                        names == self@.result_expression.names(),
                        self@.match_pattern.matches(instance@),
                        forall|j: int|
                            0 <= j < k ==> self@.match_pattern.slot_of(
                                instance@,
                                #[trigger] names[j],
                            ) is Some,
                        forall|j: int|
                            0 <= j < k ==> *(#[trigger] values[j]) == instance@.slots[self@.match_pattern.slot_of(
                                instance@,
                                names[j],
                            ).unwrap()].value,
                    decreases borrowed.len() - k,
                {
                    assert(names[k as int] == borrowed[k as int]@);
                    match self.match_pattern.slot_of(instance, &borrowed[k]) {
                        Some(position) => {
                            values.push(&instance.slots[position].value);
                        },
                        None => {
                            return None;
                        },
                    }
                    k += 1;
                }
            },
        }
        assert(self@.resolves(instance@));
        assert(referents(values@) =~= self@.evaluate(instance@).unwrap());
        Some(values)
    }
}

} // verus!
