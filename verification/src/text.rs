//! Decimal numbers and the messages built from them.

#[allow(unused_imports)]
use vstd::prelude::*;
#[allow(unused_imports)]
use vstd::string::StringExecFns;

verus! {

/// The decimal digit for a number below ten.
pub open spec fn digit(value: nat) -> char {
    ('0' as nat + value) as char
}

/// A number in decimal, without leading zeros.
pub open spec fn decimal(value: nat) -> Seq<char>
    decreases value,
{
    if value < 10 {
        seq![digit(value)]
    } else {
        decimal(value / 10).push(digit(value % 10))
    }
}

/// Different numbers have different decimals.
pub proof fn lemma_decimal_is_injective(first: nat, second: nat)
    requires
        decimal(first) == decimal(second),
    ensures
        first == second,
    decreases first,
{
    lemma_decimal_is_not_empty(first / 10);
    lemma_decimal_is_not_empty(second / 10);
    assert(decimal(first).last() == digit(first % 10));
    assert(decimal(second).last() == digit(second % 10));
    if first >= 10 && second >= 10 {
        assert(decimal(first / 10) =~= decimal(first).drop_last());
        assert(decimal(second / 10) =~= decimal(second).drop_last());
        lemma_decimal_is_injective(first / 10, second / 10);
    }
}

/// Every number has a digit.
pub proof fn lemma_decimal_is_not_empty(value: nat)
    ensures
        decimal(value).len() > 0,
{
}

/// A number below ten is its digit, and each further digit is put behind the number before it.
pub proof fn law_decimals_grow_by_a_digit(value: nat, last: nat)
    requires
        last < 10,
    ensures
        decimal(last) == seq![(0x30 + last) as char],
        value > 0 ==> decimal(10 * value + last) == decimal(value).push((0x30 + last) as char),
{
    assert((10 * value + last) / 10 == value);
    assert((10 * value + last) % 10 == last);
}

fn digit_text(value: usize) -> (text: &'static str)
    requires
        value < 10,
    ensures
        text@ == seq![digit(value as nat)],
{
    proof {
        reveal_strlit("0");
        reveal_strlit("1");
        reveal_strlit("2");
        reveal_strlit("3");
        reveal_strlit("4");
        reveal_strlit("5");
        reveal_strlit("6");
        reveal_strlit("7");
        reveal_strlit("8");
        reveal_strlit("9");
    }
    match value {
        0 => "0",
        1 => "1",
        2 => "2",
        3 => "3",
        4 => "4",
        5 => "5",
        6 => "6",
        7 => "7",
        8 => "8",
        _ => "9",
    }
}

/// Appends a number in decimal.
pub(crate) fn append_decimal(text: &mut String, value: usize)
    ensures
        final(text)@ == old(text)@ + decimal(value as nat),
    decreases value,
{
    if value >= 10 {
        append_decimal(text, value / 10);
    }
    text.append(digit_text(value % 10));
    assert(text@ =~= old(text)@ + decimal(value as nat));
}

/// Returns the two texts, one behind the other.
pub(crate) fn join(first: &str, second: &str) -> (text: String)
    ensures
        text@ == first@ + second@,
{
    let mut text = first.to_owned();
    text.append(second);
    text
}

} // verus!
