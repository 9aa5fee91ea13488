//! Fresh names for the positions of a positional payload.
//!
//! A single position is bound to `inner`; the positions of a longer payload
//! are bound to `match_0`, `match_1`, and so on. Distinct positions get
//! distinct names.
use vstd::prelude::*;

verus! {

/// The character of a decimal digit.
pub open spec fn digit(d: nat) -> char {
    if d == 0 {
        '0'
    } else if d == 1 {
        '1'
    } else if d == 2 {
        '2'
    } else if d == 3 {
        '3'
    } else if d == 4 {
        '4'
    } else if d == 5 {
        '5'
    } else if d == 6 {
        '6'
    } else if d == 7 {
        '7'
    } else if d == 8 {
        '8'
    } else {
        '9'
    }
}

/// The decimal numeral of `n`, without leading zeros.
pub open spec fn decimal(n: nat) -> Seq<char>
    decreases n,
{
    if n < 10 {
        seq![digit(n)]
    } else {
        decimal(n / 10).push(digit(n % 10))
    }
}

/// The name bound to position `index` of a payload with several positions.
pub open spec fn positional_name(index: nat) -> Seq<char> {
    "match_"@ + decimal(index)
}

/// The name bound to the only position of a payload with one position.
pub open spec fn single_name() -> Seq<char> {
    "inner"@
}

/// The names bound to the positions of a positional payload of `count`
/// fields, in order.
pub open spec fn fresh_names(count: nat) -> Seq<Seq<char>> {
    if count == 1 {
        seq![single_name()]
    } else {
        Seq::new(count, |i: int| positional_name(i as nat))
    }
}

/// A numeral is never empty, and from ten on it has at least two digits.
pub proof fn lemma_decimal_len(n: nat)
    ensures
        decimal(n).len() >= 1,
        n >= 10 ==> decimal(n).len() >= 2,
    decreases n,
{
    if n >= 10 {
        lemma_decimal_len(n / 10);
    }
}

/// Different numbers have different numerals.
pub proof fn lemma_decimal_injective(a: nat, b: nat)
    requires
        decimal(a) == decimal(b),
    ensures
        a == b,
    decreases a,
{
    lemma_decimal_len(a);
    lemma_decimal_len(b);
    if a < 10 && b < 10 {
        assert(decimal(a)[0] == digit(a));
        assert(decimal(b)[0] == digit(b));
    } else if a < 10 || b < 10 {
        assert(decimal(a).len() == decimal(b).len());
    } else {
        let da = decimal(a / 10);
        let db = decimal(b / 10);
        assert(da.push(digit(a % 10)).last() == digit(a % 10));
        assert(db.push(digit(b % 10)).last() == digit(b % 10));
        assert(da.push(digit(a % 10)).drop_last() =~= da);
        assert(db.push(digit(b % 10)).drop_last() =~= db);
        lemma_decimal_injective(a / 10, b / 10);
    }
}

/// Different positions are bound to different names.
pub proof fn lemma_positional_name_injective(i: nat, j: nat)
    requires
        positional_name(i) == positional_name(j),
    ensures
        i == j,
{
    let prefix = "match_"@;
    let total = positional_name(i).len() as int;
    assert(positional_name(i).subrange(prefix.len() as int, total) =~= decimal(i));
    assert(positional_name(j).subrange(prefix.len() as int, total) =~= decimal(j));
    lemma_decimal_injective(i, j);
}

/// No name occurs twice among the fresh names of a payload.
pub proof fn lemma_fresh_names_distinct(count: nat, i: int, j: int)
    requires
        0 <= i < count,
        0 <= j < count,
        fresh_names(count)[i] == fresh_names(count)[j],
    ensures
        i == j,
{
    if count != 1 {
        lemma_positional_name_injective(i as nat, j as nat);
    }
}

fn digit_text(d: usize) -> (text: &'static str)
    requires
        d < 10,
    ensures
        text@ == seq![digit(d as nat)],
{
    proof {
        reveal_strlit("0");
        reveal_strlit("1");
        reveal_strlit("2");
        reveal_strlit("3");
        reveal_strlit("4");
        reveal_strlit("5");
        reveal_strlit("6");
        reveal_strlit("7");
        reveal_strlit("8");
        reveal_strlit("9");
    }
    let text = if d == 0 {
        "0"
    } else if d == 1 {
        "1"
    } else if d == 2 {
        "2"
    } else if d == 3 {
        "3"
    } else if d == 4 {
        "4"
    } else if d == 5 {
        "5"
    } else if d == 6 {
        "6"
    } else if d == 7 {
        "7"
    } else if d == 8 {
        "8"
    } else {
        "9"
    };
    assert(text@ =~= seq![digit(d as nat)]);
    text
}

/// Writes `n` as a decimal numeral.
pub fn decimal_text(n: usize) -> (text: String)
    ensures
        text@ == decimal(n as nat),
    decreases n,
{
    if n < 10 {
        String::from_str(digit_text(n))
    } else {
        let text = decimal_text(n / 10).concat(digit_text(n % 10));
        assert(text@ =~= decimal(n as nat));
        text
    }
}

/// The name bound to position `index` of a payload with several positions.
pub fn positional_binder(index: usize) -> (name: String)
    ensures
        name@ == positional_name(index as nat),
{
    let digits = decimal_text(index);
    String::from_str("match_").concat(digits.as_str())
}

} // verus!
