//! Laws of numbers as texts.
use vstd::prelude::*;
use vstd::string::*;

use crate::number;
use crate::number::NumberFault;

verus! {

/// A number is written with its highest digit first.
pub proof fn numbers_are_written_from_the_left(n: nat, d: nat)
    requires
        d < 10,
    ensures
        number::decimal(d) == seq![(48 + d) as char],
        n > 0 ==> number::decimal(10 * n + d) == number::decimal(n).push((48 + d) as char),
        number::signed_decimal(n as int) == number::decimal(n),
        n > 0 ==> number::signed_decimal(-(n as int)) == seq!['-'] + number::decimal(n),
{
    reveal_strlit("-");
    assert("-"@ =~= seq!['-']);
    if n > 0 {
        assert((10 * n + d) / 10 == n && (10 * n + d) % 10 == d);
    }
}

/// One digit more multiplies a number by ten and adds the digit, up to the largest number; a
/// character that is no digit spoils it.
pub proof fn digits_are_read_from_the_left(
    s: Seq<char>,
    c: char,
    value: nat,
    max: nat,
    over: NumberFault,
)
    requires
        number::digits_value(s, max, over) == Ok::<nat, NumberFault>(value),
    ensures
        ({
            let read = number::digits_value(s.push(c), max, over);
            let digit = c as nat - 48;
            &&& '0' <= c <= '9' && value * 10 + digit <= max ==> read == Ok::<nat, NumberFault>(
                (value * 10 + digit) as nat,
            )
            &&& '0' <= c <= '9' && value * 10 + digit > max ==> read == Err::<nat, NumberFault>(over)
            &&& !('0' <= c <= '9') ==> read == Err::<nat, NumberFault>(NumberFault::InvalidDigit)
        }),
        number::digits_value(Seq::empty(), max, over) == Ok::<nat, NumberFault>(0),
{
    assert(s.push(c).drop_last() =~= s);
}

/// A text whose front cannot be read cannot be read, for the same reason.
pub proof fn faults_stay(s: Seq<char>, c: char, fault: NumberFault, max: nat, over: NumberFault)
    requires
        number::digits_value(s, max, over) == Err::<nat, NumberFault>(fault),
    ensures
        number::digits_value(s.push(c), max, over) == Err::<nat, NumberFault>(fault),
{
    assert(s.push(c).drop_last() =~= s);
}

/// A sign changes a number as it says; alone it is no number, and neither is nothing. A number
/// without a sign may have a plus before it and no minus.
pub proof fn signs_count(s: Seq<char>, value: nat, max: nat)
    requires
        s.len() > 0,
        number::is_digit(s[0]),
    ensures
        number::unsigned_value(s, max) == number::digits_value(s, max, NumberFault::TooLarge),
        number::unsigned_value(seq!['+'] + s, max) == number::unsigned_value(s, max),
        number::unsigned_value(seq!['-'] + s, max) is Err,
        number::unsigned_value(Seq::empty(), max) == Err::<nat, NumberFault>(NumberFault::Empty),
        number::unsigned_value(seq!['+'], max) == Err::<nat, NumberFault>(
            NumberFault::InvalidDigit,
        ),
        number::unsigned_value(seq!['-'], max) == Err::<nat, NumberFault>(
            NumberFault::InvalidDigit,
        ),
        number::signed_value(Seq::empty()) == Err::<int, NumberFault>(NumberFault::Empty),
        number::signed_value(seq!['-']) == Err::<int, NumberFault>(NumberFault::InvalidDigit),
        number::signed_value(seq!['+']) == Err::<int, NumberFault>(NumberFault::InvalidDigit),
        number::digits_value(s, 0x8000_0000, NumberFault::TooSmall) == Ok::<nat, NumberFault>(value)
            ==> number::signed_value(seq!['-'] + s) == Ok::<int, NumberFault>(-(value as int)),
        number::digits_value(s, 0x7fff_ffff, NumberFault::TooLarge) == Ok::<nat, NumberFault>(value)
            ==> number::signed_value(s) == Ok::<int, NumberFault>(value as int)
            && number::signed_value(seq!['+'] + s) == Ok::<int, NumberFault>(value as int),
{
    assert((seq!['+'] + s).drop_first() =~= s);
    assert((seq!['-'] + s).drop_first() =~= s);
    lemma_bad_start(seq!['-'] + s, max);
}

proof fn lemma_bad_start(s: Seq<char>, max: nat)
    requires
        s.len() > 0,
        !number::is_digit(s[0]),
    ensures
        number::digits_value(s, max, NumberFault::TooLarge) is Err,
    decreases s.len(),
{
    if s.len() > 1 {
        assert(s.drop_last()[0] == s[0]);
        lemma_bad_start(s.drop_last(), max);
    } else {
        assert(s.last() == s[0]);
    }
}

/// A number of 32 bits that was written with its sign is read back.
pub proof fn signed_numbers_are_read_back(n: i32)
    ensures
        number::signed_value(number::signed_decimal(n as int)) == Ok::<int, NumberFault>(n as int),
{
    reveal_strlit("-");
    if n >= 0 {
        number::written_numbers_are_read_back(n as nat, 0x7fff_ffff);
    } else {
        let digits = number::decimal((-n) as nat);
        number::written_numbers_are_read_back((-n) as nat, 0x8000_0000);
        assert("-"@ =~= seq!['-']);
        number::lemma_digits_read_back((-n) as nat, 0x8000_0000, NumberFault::TooSmall);
        signs_count(digits, (-n) as nat, 0);
    }
}

/// Each fault has a message of its own.
pub proof fn faults_are_told_apart()
    ensures
        number::fault_message(NumberFault::Empty) == "cannot parse integer from empty string"@,
        number::fault_message(NumberFault::InvalidDigit) == "invalid digit found in string"@,
        number::fault_message(NumberFault::TooLarge) == "number too large to fit in target type"@,
        number::fault_message(NumberFault::TooSmall) == "number too small to fit in target type"@,
{
}

} // verus!
