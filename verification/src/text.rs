//! Decimal rendering of numbers.

use vstd::prelude::*;

verus! {

/// The character of one decimal digit.
pub open spec fn digit(d: nat) -> char
    recommends
        d < 10,
{
    (48 + d) as char
}

/// The decimal digits of `n`, most significant first, without leading zeros.
pub open spec fn digits(n: nat) -> Seq<char>
    decreases n,
{
    if n < 10 {
        seq![digit(n)]
    } else {
        digits(n / 10).push(digit(n % 10))
    }
}

/// The number that a sequence of decimal digits denotes.
pub open spec fn value(s: Seq<char>) -> int
    decreases s.len(),
{
    if s.len() == 0 {
        0
    } else {
        10 * value(s.drop_last()) + (s.last() as int - 48)
    }
}

/// Reading a rendered number back gives the number.
pub proof fn rendering_is_faithful(n: nat)
    ensures
        value(digits(n)) == n,
    decreases n,
{
    if n < 10 {
        assert(digits(n).drop_last() =~= Seq::<char>::empty());
        assert(value(Seq::<char>::empty()) == 0);
    } else {
        rendering_is_faithful(n / 10);
        assert(digits(n).drop_last() =~= digits(n / 10));
    }
}

/// A rendered number is made of decimal digits, has no leading zero unless it is zero
/// itself, and read from left to right, each digit counting ten times the next, gives the number.
pub proof fn rendering_is_decimal_notation(n: nat)
    ensures
        digits(n).len() > 0,
        forall|i: int| 0 <= i < digits(n).len() ==> '0' <= #[trigger] digits(n)[i] <= '9',
        digits(n)[0] == '0' <==> n == 0,
        digits(n).fold_left(0int, |sum: int, c: char| 10 * sum + (c as int - '0' as int)) == n,
    decreases n,
{
    let step = |sum: int, c: char| 10 * sum + (c as int - '0' as int);
    let all = digits(n);
    reveal_with_fuel(Seq::fold_left, 2);
    if n < 10 {
        assert(all.drop_last() =~= Seq::<char>::empty());
    } else {
        rendering_is_decimal_notation(n / 10);
        let front = digits(n / 10);
        assert(all.drop_last() =~= front);
        assert(all.last() == digit(n % 10));
        assert forall|i: int| 0 <= i < all.len() implies '0' <= #[trigger] all[i] <= '9' by {
            if i < front.len() {
                assert(all[i] == front[i]);
            }
        }
        assert(all[0] == front[0]);
    }
}

/// Appending a digit to a rendered number renders ten times the number and the digit.
pub proof fn rendering_grows_digit_by_digit(m: nat, d: nat)
    requires
        m > 0,
        d < 10,
    ensures
        digits(10 * m + d) == digits(m).push((48 + d) as char),
        digits(d) == seq![(48 + d) as char],
{
    assert((10 * m + d) / 10 == m);
    assert((10 * m + d) % 10 == d);
}

/// Different numbers are rendered differently.
pub proof fn rendering_is_injective(m: nat, n: nat)
    ensures
        digits(m) == digits(n) ==> m == n,
{
    rendering_is_faithful(m);
    rendering_is_faithful(n);
}

fn digit_text(d: u64) -> (text: &'static str)
    requires
        d < 10,
    ensures
        text@ == seq![digit(d as nat)],
{
    proof {
        reveal_strlit("0");
        reveal_strlit("1");
        reveal_strlit("2");
        reveal_strlit("3");
        reveal_strlit("4");
        reveal_strlit("5");
        reveal_strlit("6");
        reveal_strlit("7");
        reveal_strlit("8");
        reveal_strlit("9");
    }
    let text = match d {
        0 => "0",
        1 => "1",
        2 => "2",
        3 => "3",
        4 => "4",
        5 => "5",
        6 => "6",
        7 => "7",
        8 => "8",
        _ => "9",
    };
    assert(text@ =~= seq![digit(d as nat)]);
    text
}

/// The decimal rendering of `n`.
pub fn decimal(n: u64) -> (text: String)
    ensures
        text@ == digits(n as nat),
    decreases n,
{
    if n < 10 {
        digit_text(n).to_owned()
    } else {
        let mut text = decimal(n / 10);
        text.append(digit_text(n % 10));
        assert(text@ =~= digits(n as nat));
        text
    }
}

} // verus!
