//! Names of the synthesized operations and of their parameters.
//!
//! Every name is a function of an existing identifier or of a field's position,
//! so equal inputs give equal names. Nothing here looks for a clash with a name
//! that the declaration already uses.

use vstd::prelude::*;

verus! {

/// The character that writes the digit `d`.
pub open spec fn digit(d: int) -> char {
    if d == 0 {
        '0'
    } else if d == 1 {
        '1'
    } else if d == 2 {
        '2'
    } else if d == 3 {
        '3'
    } else if d == 4 {
        '4'
    } else if d == 5 {
        '5'
    } else if d == 6 {
        '6'
    } else if d == 7 {
        '7'
    } else if d == 8 {
        '8'
    } else {
        '9'
    }
}

/// `n` written in base ten, without leading zeros.
pub open spec fn decimal(n: nat) -> Seq<char>
    decreases n,
{
    if n < 10 {
        seq![digit(n as int)]
    } else {
        decimal(n / 10).push(digit((n % 10) as int))
    }
}

/// The name of the parameter that stands for the positional field `index`.
pub open spec fn positional_name(index: nat) -> Seq<char> {
    "field_"@ + decimal(index)
}

/// The name of the constructor synthesized for a data record.
pub open spec fn record_constructor_name() -> Seq<char> {
    "new_unsafe"@
}

/// The lowercase form of `text`, as the standard library computes it.
pub uninterp spec fn lowercase(text: Seq<char>) -> Seq<char>;

/// The name of the constructor synthesized for the variant named `variant`.
pub open spec fn variant_constructor_name(variant: Seq<char>) -> Seq<char> {
    "new_"@ + lowercase(variant) + "_unsafe"@
}

/// Calls `str::to_lowercase`. The contract gives the result the name
/// [`lowercase`] and says nothing more of it.
#[verifier::external_body]
fn to_lowercase(text: &str) -> (r: String)
    ensures
        r@ == lowercase(text@),
{
    text.to_lowercase()
}

fn digit_text(d: usize) -> (r: &'static str)
    requires
        d < 10,
    ensures
        r@ == seq![digit(d as int)],
{
    proof {
        reveal_strlit("0");
        reveal_strlit("1");
        reveal_strlit("2");
        reveal_strlit("3");
        reveal_strlit("4");
        reveal_strlit("5");
        reveal_strlit("6");
        reveal_strlit("7");
        reveal_strlit("8");
        reveal_strlit("9");
    }
    let r = if d == 0 {
        "0"
    } else if d == 1 {
        "1"
    } else if d == 2 {
        "2"
    } else if d == 3 {
        "3"
    } else if d == 4 {
        "4"
    } else if d == 5 {
        "5"
    } else if d == 6 {
        "6"
    } else if d == 7 {
        "7"
    } else if d == 8 {
        "8"
    } else {
        "9"
    };
    assert(r@ =~= seq![digit(d as int)]);
    r
}

/// Writes `n` in base ten.
pub fn decimal_text(n: usize) -> (r: String)
    ensures
        r@ == decimal(n as nat),
    decreases n,
{
    if n < 10 {
        String::from_str(digit_text(n))
    } else {
        let mut out = decimal_text(n / 10);
        out.append(digit_text(n % 10));
        assert(out@ =~= decimal(n as nat));
        out
    }
}

/// Names the parameter for the positional field `index`.
pub fn positional(index: usize) -> (r: String)
    ensures
        r@ == positional_name(index as nat),
{
    let mut out = String::from_str("field_");
    let digits = decimal_text(index);
    out.append(digits.as_str());
    out
}

/// Names the constructor of a data record.
pub fn record_constructor() -> (r: String)
    ensures
        r@ == record_constructor_name(),
{
    String::from_str("new_unsafe")
}

/// Names the constructor of the variant `variant`.
pub fn variant_constructor(variant: &str) -> (r: String)
    ensures
        r@ == variant_constructor_name(variant@),
{
    let mut out = String::from_str("new_");
    let lowered = to_lowercase(variant);
    out.append(lowered.as_str());
    out.append("_unsafe");
    out
}

/// A positional name starts with `field_` and continues with at least one
/// digit, so two positions never share a name.
pub proof fn lemma_positional_names_differ(i: nat, j: nat)
    requires
        i != j,
    ensures
        positional_name(i) != positional_name(j),
{
    lemma_decimal_injective(i, j);
    let prefix = "field_"@;
    if positional_name(i) == positional_name(j) {
        assert(positional_name(i).subrange(prefix.len() as int, positional_name(i).len() as int)
            =~= decimal(i));
        assert(positional_name(j).subrange(prefix.len() as int, positional_name(j).len() as int)
            =~= decimal(j));
    }
}

/// Different numbers are written differently.
pub proof fn lemma_decimal_injective(i: nat, j: nat)
    requires
        i != j,
    ensures
        decimal(i) != decimal(j),
    decreases i,
{
    lemma_decimal_digits(i);
    lemma_decimal_digits(j);
    if i < 10 && j < 10 {
        assert(decimal(i)[0] == digit(i as int));
        assert(decimal(j)[0] == digit(j as int));
    } else if i >= 10 && j >= 10 {
        if i / 10 != j / 10 {
            lemma_decimal_injective(i / 10, j / 10);
            if decimal(i) == decimal(j) {
                assert(decimal(i).drop_last() =~= decimal(i / 10));
                assert(decimal(j).drop_last() =~= decimal(j / 10));
            }
        } else {
            assert(i % 10 != j % 10);
            assert(decimal(i).last() == digit((i % 10) as int));
            assert(decimal(j).last() == digit((j % 10) as int));
        }
    } else if i < 10 {
        lemma_decimal_digits(j / 10);
        assert(decimal(j).len() >= 2);
    } else {
        lemma_decimal_digits(i / 10);
        assert(decimal(i).len() >= 2);
    }
}

/// A number is written with at least one character.
pub proof fn lemma_decimal_digits(n: nat)
    ensures
        decimal(n).len() >= 1,
        n >= 10 ==> decimal(n).len() == decimal(n / 10).len() + 1,
    decreases n,
{
    if n >= 10 {
        lemma_decimal_digits(n / 10);
    }
}

} // verus!
