//! The source text of the generated accessors.
use vstd::prelude::*;
use crate::accessor::{
    AccessorModel,
    AccessorSpec,
    Bindings,
    BindingsModel,
    ExpressionDescription,
    ExpressionModel,
    PatternDescription,
    PatternModel,
    ReturnModel,
    TypeDescription,
};
use crate::emit::{GeneratedImpl, ImplModel};

verus! {

/// The items in order, each between `before` and `after`.
pub open spec fn each_wrapped(items: Seq<Seq<char>>, before: Seq<char>, after: Seq<char>) -> Seq<
    char,
>
    decreases items.len(),
{
    if items.len() == 0 {
        Seq::empty()
    } else {
        each_wrapped(items.drop_last(), before, after) + before + items.last() + after
    }
}

/// The texts of the accessors, one after the other.
pub open spec fn accessor_texts(accessors: Seq<AccessorModel>) -> Seq<char>
    decreases accessors.len(),
{
    if accessors.len() == 0 {
        Seq::empty()
    } else {
        accessor_texts(accessors.drop_last()) + accessors.last().text()
    }
}

impl ReturnModel {
    /// The type as source text.
    pub open spec fn text(self) -> Seq<char> {
        match self {
            ReturnModel::Unit => "()"@,
            ReturnModel::Reference(ty) => "&"@ + ty,
            ReturnModel::Tuple(types) => "("@ + each_wrapped(types, "&"@, ", "@) + ")"@,
        }
    }
}

impl PatternModel {
    /// The pattern as source text.
    pub open spec fn text(self) -> Seq<char> {
        match self.bindings {
            BindingsModel::Bare => self.host + "::"@ + self.alternative,
            BindingsModel::Positional(names) => self.host + "::"@ + self.alternative + "("@
                + each_wrapped(names, ""@, ", "@) + ")"@,
            BindingsModel::Named(names) => self.host + "::"@ + self.alternative + " { "@
                + each_wrapped(names, ""@, ", "@) + "}"@,
        }
    }
}

impl ExpressionModel {
    /// The expression as source text.
    pub open spec fn text(self) -> Seq<char> {
        match self {
            ExpressionModel::Unit => "()"@,
            ExpressionModel::Reference(name) => "&"@ + name,
            ExpressionModel::Tuple(names) => "("@ + each_wrapped(names, "&"@, ", "@) + ")"@,
        }
    }
}

impl AccessorModel {
    /// The accessor as the source text of a method.
    pub open spec fn text(self) -> Seq<char> {
        "    #[doc = \""@ + self.doc + "\"]\n    pub fn "@ + self.function_name
            + "(&self) -> Option<"@ + self.return_type.text()
            + "> {\n        match self {\n            "@ + self.match_pattern.text()
            + " => Some("@ + self.result_expression.text()
            + "),\n            _ => None,\n        }\n    }\n"@
    }
}

impl ImplModel {
    /// The accessors as the source text of one block of methods of the host
    /// type.
    pub open spec fn text(self) -> Seq<char> {
        "impl "@ + self.host + " {\n"@ + accessor_texts(self.accessors) + "}\n"@
    }
}

fn push_each(out: &mut String, items: &Vec<String>, before: &str, after: &str)
    ensures
        final(out)@ == old(out)@ + each_wrapped(items.deep_view(), before@, after@),
{
    let ghost start = out@;
    let ghost all = items.deep_view();
    let mut i: usize = 0;
    assert(all.take(0) =~= Seq::<Seq<char>>::empty());
    assert(out@ =~= start + each_wrapped(all.take(0), before@, after@));
    while i < items.len()
        invariant
            i <= items.len(),
            all == items.deep_view(),
            out@ == start + each_wrapped(all.take(i as int), before@, after@),
        decreases items.len() - i,
    {
        let ghost done = each_wrapped(all.take(i as int), before@, after@);
        out.append(before);
        out.append(items[i].as_str());
        out.append(after);
        proof {
            let next = all.take(i as int + 1);
            assert(next.drop_last() =~= all.take(i as int));
            assert(next.last() == items[i as int]@);
            assert(out@ =~= start + (done + before@ + items[i as int]@ + after@));
        }
        i += 1;
    }
    assert(all.take(items.len() as int) =~= all);
}

impl TypeDescription {
    /// Writes the type as source text.
    pub fn render(&self) -> (text: String)
        ensures
            text@ == self@.text(),
    {
        match self {
            TypeDescription::Unit => String::from_str("()"),
            TypeDescription::Reference(ty) => String::from_str("&").concat(ty.as_str()),
            TypeDescription::Tuple(types) => {
                let mut text = String::from_str("(");
                push_each(&mut text, types, "&", ", ");
                text.concat(")")
            },
        }
    }
}

impl PatternDescription {
    /// Writes the pattern as source text.
    pub fn render(&self) -> (text: String)
        ensures
            text@ == self@.text(),
    {
        let head = self.host.clone().concat("::").concat(self.alternative.as_str());
        match &self.bindings {
            Bindings::Bare => head,
            Bindings::Positional(names) => {
                let mut text = head.concat("(");
                push_each(&mut text, names, "", ", ");
                text.concat(")")
            },
            Bindings::Named(names) => {
                let mut text = head.concat(" { ");
                push_each(&mut text, names, "", ", ");
                text.concat("}")
            },
        }
    }
}

impl ExpressionDescription {
    /// Writes the expression as source text.
    pub fn render(&self) -> (text: String)
        ensures
            text@ == self@.text(),
    {
        match self {
            ExpressionDescription::Unit => String::from_str("()"),
            ExpressionDescription::Reference(name) => String::from_str("&").concat(name.as_str()),
            ExpressionDescription::Tuple(names) => {
                let mut text = String::from_str("(");
                push_each(&mut text, names, "&", ", ");
                text.concat(")")
            },
        }
    }
}

impl AccessorSpec {
    /// Writes the accessor as the source text of a method.
    pub fn render(&self) -> (text: String)
        ensures
            text@ == self@.text(),
    {
        let borrowed = self.return_type.render();
        let pattern = self.match_pattern.render();
        let expression = self.result_expression.render();
        String::from_str("    #[doc = \"").concat(self.doc.as_str()).concat(
            "\"]\n    pub fn ",
        ).concat(self.function_name.as_str()).concat("(&self) -> Option<").concat(
            borrowed.as_str(),
        ).concat("> {\n        match self {\n            ").concat(pattern.as_str()).concat(
            " => Some(",
        ).concat(expression.as_str()).concat(
            "),\n            _ => None,\n        }\n    }\n",
        )
    }
}

impl GeneratedImpl {
    /// Writes the accessors as one block of methods of the host type.
    pub fn render(&self) -> (text: String)
        ensures
            text@ == self@.text(),
    {
        let ghost all = self@.accessors;
        let mut text = String::from_str("impl ").concat(self.host.as_str()).concat(" {\n");
        let ghost head = text@;
        let mut i: usize = 0;
        assert(all.take(0) =~= Seq::<AccessorModel>::empty());
        assert(text@ =~= head + accessor_texts(all.take(0)));
        while i < self.accessors.len()
            invariant
                i <= self.accessors.len(),
                all == self.accessors.deep_view(),
                text@ == head + accessor_texts(all.take(i as int)),
            decreases self.accessors.len() - i,
        {
            let method = self.accessors[i].render();
            text.append(method.as_str());
            proof {
                let next = all.take(i as int + 1);
                assert(next.drop_last() =~= all.take(i as int));
                assert(next.last() == self.accessors[i as int]@);
                assert(text@ =~= head + accessor_texts(next));
            }
            i += 1;
        }
        assert(all.take(self.accessors.len() as int) =~= all);
        text.concat("}\n")
    }
}

} // verus!
