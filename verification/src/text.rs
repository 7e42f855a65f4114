//! Texts put together from parts.

use vstd::prelude::*;

verus! {

/// Puts `middle` between `before` and `after`.
pub(crate) fn between(before: &str, middle: &str, after: &str) -> (text: String)
    ensures
        text@ == before@ + middle@ + after@,
{
    before.to_owned().concat(middle).concat(after)
}

/// Whether two texts are the same.
pub(crate) fn same(a: &str, b: &str) -> (equal: bool)
    ensures
        equal == (a@ == b@),
{
    a.to_owned() == b.to_owned()
}

/// The decimal digit for `value`.
pub open spec fn digit(value: nat) -> char {
    (value + 48) as char
}

/// The decimal digits of `value`, most significant first, without leading zeros.
pub open spec fn decimal(value: nat) -> Seq<char>
    decreases value,
{
    if value < 10 {
        seq![digit(value)]
    } else {
        decimal(value / 10).push(digit(value % 10))
    }
}

/// The decimal digits of `value`, with a minus sign in front when it is negative.
pub open spec fn signed_decimal(value: int) -> Seq<char> {
    if value < 0 {
        seq!['-'] + decimal((-value) as nat)
    } else {
        decimal(value as nat)
    }
}

fn digit_text(value: u64) -> (text: &'static str)
    requires
        value < 10,
    ensures
        text@ == seq![digit(value as nat)],
{
    proof {
        reveal_strlit("0");
        reveal_strlit("1");
        reveal_strlit("2");
        reveal_strlit("3");
        reveal_strlit("4");
        reveal_strlit("5");
        reveal_strlit("6");
        reveal_strlit("7");
        reveal_strlit("8");
        reveal_strlit("9");
    }
    let text = match value {
        0 => "0",
        1 => "1",
        2 => "2",
        3 => "3",
        4 => "4",
        5 => "5",
        6 => "6",
        7 => "7",
        8 => "8",
        _ => "9",
    };
    assert(text@ =~= seq![digit(value as nat)]);
    text
}

/// Writes `value` in decimal.
pub(crate) fn unsigned_text(value: u64) -> (text: String)
    ensures
        text@ == decimal(value as nat),
    decreases value,
{
    if value < 10 {
        digit_text(value).to_owned()
    } else {
        let text = unsigned_text(value / 10).concat(digit_text(value % 10));
        assert(text@ =~= decimal(value as nat));
        text
    }
}

/// Writes `value` in decimal, with a minus sign in front when it is negative.
pub(crate) fn signed_text(value: i32) -> (text: String)
    ensures
        text@ == signed_decimal(value as int),
{
    let wide: i64 = value as i64;
    if wide < 0 {
        let magnitude: u64 = (-wide) as u64;
        let text = "-".to_owned().concat(unsigned_text(magnitude).as_str());
        proof {
            reveal_strlit("-");
            assert("-"@ =~= seq!['-']);
        }
        text
    } else {
        unsigned_text(wide as u64)
    }
}

} // verus!
