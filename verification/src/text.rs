//! Numbers as text.

use vstd::prelude::*;

verus! {

/// The character of a decimal digit.
pub open spec fn digit_char(digit: nat) -> char {
    (48 + digit) as char
}

/// `n` in decimal, without leading zeros.
pub open spec fn decimal(n: nat) -> Seq<char>
    decreases n,
{
    if n < 10 {
        seq![digit_char(n)]
    } else {
        decimal(n / 10).push(digit_char(n % 10))
    }
}

/// The number that a text of decimal digits stands for.
pub open spec fn decimal_value(text: Seq<char>) -> int
    decreases text.len(),
{
    if text.len() == 0 {
        0
    } else {
        10 * decimal_value(text.drop_last()) + (text.last() as int - 48)
    }
}

fn digit_text(digit: u32) -> (text: &'static str)
    requires
        digit < 10,
    ensures
        text@ == seq![digit_char(digit as nat)],
{
    proof {
        reveal_strlit("0");
        reveal_strlit("1");
        reveal_strlit("2");
        reveal_strlit("3");
        reveal_strlit("4");
        reveal_strlit("5");
        reveal_strlit("6");
        reveal_strlit("7");
        reveal_strlit("8");
        reveal_strlit("9");
    }
    match digit {
        0 => "0",
        1 => "1",
        2 => "2",
        3 => "3",
        4 => "4",
        5 => "5",
        6 => "6",
        7 => "7",
        8 => "8",
        _ => "9",
    }
}

/// Appends `n` in decimal to `text`.
pub fn append_decimal(text: &mut String, n: u32)
    ensures
        final(text)@ == old(text)@ + decimal(n as nat),
    decreases n,
{
    if n < 10 {
        text.append(digit_text(n));
    } else {
        append_decimal(text, n / 10);
        text.append(digit_text(n % 10));
    }
}

/// A number in decimal consists of digits, stands for itself, and has no leading zero.
pub proof fn law_decimal_reads_back(n: nat)
    ensures
        decimal_value(decimal(n)) == n,
        decimal(n).len() > 0,
        forall|i: int| 0 <= i < decimal(n).len() ==> '0' <= #[trigger] decimal(n)[i] <= '9',
        n > 0 ==> decimal(n)[0] != '0',
    decreases n,
{
    if n < 10 {
        assert(decimal(n).drop_last() =~= Seq::<char>::empty());
        assert(decimal_value(Seq::<char>::empty()) == 0);
    } else {
        law_decimal_reads_back(n / 10);
        assert(decimal(n).drop_last() =~= decimal(n / 10));
        assert(decimal(n)[0] == decimal(n / 10)[0]);
    }
}

/// Read from its end, the text of a number holds its ones, its tens, its hundreds, and so
/// on, one digit for each, and it has no more digits than that takes; 0 is the one digit 0.
pub proof fn law_decimal_digits(n: nat, place: nat)
    ensures
        place < decimal(n).len() ==> decimal(n)[decimal(n).len() - 1 - place] as int == 48 + (n
            as int / vstd::arithmetic::power::pow(10, place)) % 10,
        n < vstd::arithmetic::power::pow(10, decimal(n).len()),
        n > 0 ==> vstd::arithmetic::power::pow(10, (decimal(n).len() - 1) as nat) <= n,
        n == 0 ==> decimal(n) == seq!['0'],
    decreases n,
{
    vstd::arithmetic::power::lemma_pow0(10);
    vstd::arithmetic::power::lemma_pow1(10);
    vstd::arithmetic::div_mod::lemma_div_basics(n as int);
    if n >= 10 {
        let digits = decimal(n / 10).len();
        law_decimal_digits(n / 10, (place - 1) as nat);
        law_decimal_reads_back(n / 10);
        vstd::arithmetic::power::lemma_pow_adds(10, 1, digits);
        vstd::arithmetic::power::lemma_pow_adds(10, 1, (digits - 1) as nat);
        if place > 0 {
            let below = vstd::arithmetic::power::pow(10, (place - 1) as nat);
            vstd::arithmetic::power::lemma_pow_positive(10, (place - 1) as nat);
            vstd::arithmetic::power::lemma_pow_adds(10, 1, (place - 1) as nat);
            vstd::arithmetic::div_mod::lemma_div_denominator(n as int, 10, below);
            assert(n as int / vstd::arithmetic::power::pow(10, place) == (n / 10) as int / below);
        }
    }
}

/// A number is put after the text, which is kept; what is put there consists of digits and
/// reads as the number.
pub proof fn law_number_is_appended(text: &mut String, n: u32)
    requires
        call_ensures(append_decimal, (text, n), ()),
    ensures
        final(text)@.len() > old(text)@.len(),
        final(text)@.take(old(text)@.len() as int) == old(text)@,
        decimal_value(final(text)@.skip(old(text)@.len() as int)) == n,
        forall|i: int|
            old(text)@.len() <= i < final(text)@.len() ==> '0' <= #[trigger] final(text)@[i]
                <= '9',
{
    law_decimal_reads_back(n as nat);
    assert(final(text)@.take(old(text)@.len() as int) =~= old(text)@);
    assert(final(text)@.skip(old(text)@.len() as int) =~= decimal(n as nat));
    assert forall|i: int| old(text)@.len() <= i < final(text)@.len() implies '0'
        <= #[trigger] final(text)@[i] <= '9' by {
        assert(final(text)@[i] == decimal(n as nat)[i - old(text)@.len()]);
    }
}

} // verus!
