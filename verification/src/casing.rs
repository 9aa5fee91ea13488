//! Accessor names: the snake-case form of an identifier, behind `as_`.
use vstd::prelude::*;

verus! {

/// The snake-case form that `heck` gives to `text`: its words lower-cased and
/// joined by single underscores. The value is a function of `text` alone; the
/// library states nothing else about it.
pub uninterp spec fn snake_case(text: Seq<char>) -> Seq<char>;

/// The name of the accessor for the alternative called `alternative`.
pub open spec fn accessor_name(alternative: Seq<char>) -> Seq<char> {
    "as_"@ + snake_case(alternative)
}

/// Calls `heck::SnakeCase::to_snake_case` on `text`.
///
/// Trusted: the string that comes back is the one `snake_case` names. `heck`
/// computes it from the characters of `text` and fixed Unicode tables, and
/// returns for every input.
#[verifier::external_body]
fn heck_snake_case(text: &str) -> (out: String)
    ensures
        out@ == snake_case(text@),
{
    heck::SnakeCase::to_snake_case(text)
}

/// Normalizes an identifier to snake case.
pub fn normalize(identifier: &str) -> (name: String)
    ensures
        name@ == snake_case(identifier@),
{
    heck_snake_case(identifier)
}

/// Puts `as_` in front of an already normalized name.
pub fn prefixed(normalized: &str) -> (name: String)
    ensures
        name@ == "as_"@ + normalized@,
{
    String::from_str("as_").concat(normalized)
}

/// The accessor's function name for an alternative: `as_` followed by the
/// normalized name of the alternative.
pub fn function_name_for(alternative: &str) -> (name: String)
    ensures
        name@ == accessor_name(alternative@),
{
    let normalized = normalize(alternative);
    prefixed(normalized.as_str())
}

/// Normalization is a function of the identifier: two identifiers with the
/// same characters have the same normal form and the same accessor name.
pub proof fn lemma_normalize_deterministic(first: Seq<char>, second: Seq<char>)
    requires
        first == second,
    ensures
        snake_case(first) == snake_case(second),
        accessor_name(first) == accessor_name(second),
{
}

} // verus!
