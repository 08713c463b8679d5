//! Integers as decimal text.
use vstd::prelude::*;
use vstd::string::*;
use crate::text;

verus! {

// ---------------------------------------------------------------------------
// What the text of a number is
// ---------------------------------------------------------------------------
/// The character of the digit `d`.
pub open spec fn digit_char(d: nat) -> char {
    (48 + d) as char
}

/// The decimal text of `n`.
pub open spec fn decimal(n: nat) -> Seq<char>
    decreases n,
{
    if n < 10 {
        seq![digit_char(n)]
    } else {
        decimal(n / 10).push(digit_char(n % 10))
    }
}

/// Why a text is not the text of a number.
#[derive(Debug, Clone, Copy, PartialEq, Eq, Structural)]
pub enum NumberFault {
    Empty,
    InvalidDigit,
    TooLarge,
    TooSmall,
}

pub open spec fn is_digit(c: char) -> bool {
    '0' <= c <= '9'
}

/// The value of the digits in `s`, read from the left and held to `max`.
pub open spec fn digits_value(s: Seq<char>, max: nat, over: NumberFault) -> Result<nat, NumberFault>
    decreases s.len(),
{
    if s.len() == 0 {
        Ok(0)
    } else {
        match digits_value(s.drop_last(), max, over) {
            Err(fault) => Err(fault),
            Ok(value) => {
                let next = value * 10 + (s.last() as nat - 48) as nat;
                if !is_digit(s.last()) {
                    Err(NumberFault::InvalidDigit)
                } else if next > max {
                    Err(over)
                } else {
                    Ok(next)
                }
            },
        }
    }
}

/// A sign with nothing behind it.
pub open spec fn lone_sign(s: Seq<char>) -> bool {
    s.len() == 1 && (s[0] == '+' || s[0] == '-')
}

/// The number up to `max` that `s` writes: digits, with an optional `+` before them.
pub open spec fn unsigned_value(s: Seq<char>, max: nat) -> Result<nat, NumberFault> {
    if s.len() == 0 {
        Err(NumberFault::Empty)
    } else if lone_sign(s) {
        Err(NumberFault::InvalidDigit)
    } else if s[0] == '+' {
        digits_value(s.drop_first(), max, NumberFault::TooLarge)
    } else {
        digits_value(s, max, NumberFault::TooLarge)
    }
}

/// The 32-bit number that `s` writes: digits, with an optional sign before them.
pub open spec fn signed_value(s: Seq<char>) -> Result<int, NumberFault> {
    if s.len() > 0 && !lone_sign(s) && s[0] == '-' {
        match digits_value(s.drop_first(), 0x8000_0000, NumberFault::TooSmall) {
            Ok(value) => Ok(-(value as int)),
            Err(fault) => Err(fault),
        }
    } else {
        match unsigned_value(s, 0x7fff_ffff) {
            Ok(value) => Ok(value as int),
            Err(fault) => Err(fault),
        }
    }
}

/// How a fault is reported.
pub open spec fn fault_message(fault: NumberFault) -> Seq<char> {
    match fault {
        NumberFault::Empty => "cannot parse integer from empty string"@,
        NumberFault::InvalidDigit => "invalid digit found in string"@,
        NumberFault::TooLarge => "number too large to fit in target type"@,
        NumberFault::TooSmall => "number too small to fit in target type"@,
    }
}

// ---------------------------------------------------------------------------
// The operations
// ---------------------------------------------------------------------------
/// How a fault is reported.
pub fn fault_text(fault: NumberFault) -> (r: String)
    ensures
        r@ == fault_message(fault),
{
    match fault {
        NumberFault::Empty => "cannot parse integer from empty string".to_owned(),
        NumberFault::InvalidDigit => "invalid digit found in string".to_owned(),
        NumberFault::TooLarge => "number too large to fit in target type".to_owned(),
        NumberFault::TooSmall => "number too small to fit in target type".to_owned(),
    }
}

/// The decimal text of `n`.
pub fn decimal_text(n: u64) -> (r: String)
    ensures
        r@ == decimal(n as nat),
    decreases n,
{
    let digit: char = (48u8 + (n % 10) as u8) as char;
    if n < 10 {
        let mut out = String::new();
        out.push(digit);
        assert(out@ == seq![digit_char(n as nat)]);
        out
    } else {
        let mut out = decimal_text(n / 10);
        out.push(digit);
        out
    }
}

/// The decimal form of a number, with its sign where it is negative.
pub open spec fn signed_decimal(n: int) -> Seq<char> {
    if n < 0 {
        "-"@ + decimal((-n) as nat)
    } else {
        decimal(n as nat)
    }
}

/// Writes a number with its sign.
pub fn signed_text(n: i32) -> (r: String)
    ensures
        r@ == signed_decimal(n as int),
{
    if n < 0 {
        text::join2("-", &decimal_text((-(n as i64)) as u64))
    } else {
        decimal_text(n as u64)
    }
}

/// The value of the digits in `chars[from..]`, held to `max`.
fn read_digits(chars: &[char], from: usize, max: u64, over: NumberFault) -> (r: Result<
    u64,
    NumberFault,
>)
    requires
        from <= chars@.len(),
    ensures
        match r {
            Ok(v) => digits_value(chars@.skip(from as int), max as nat, over) == Ok::<
                nat,
                NumberFault,
            >(v as nat),
            Err(f) => digits_value(chars@.skip(from as int), max as nat, over) == Err::<
                nat,
                NumberFault,
            >(f),
        },
{
    let ghost all = chars@.skip(from as int);
    let mut value: u64 = 0;
    let mut at: usize = from;
    assert(all.take(0) =~= Seq::<char>::empty());
    while at < chars.len()
        invariant
            from <= at <= chars@.len(),
            all == chars@.skip(from as int),
            value <= max,
            digits_value(all.take(at - from), max as nat, over) == Ok::<nat, NumberFault>(
                value as nat,
            ),
        decreases chars@.len() - at,
    {
        let c = chars[at];
        let ghost longer = all.take(at + 1 - from);
        assert(longer.drop_last() == all.take(at - from));
        assert(longer.last() == c);
        if !('0' <= c && c <= '9') {
            proof {
                lemma_fault_stays(all, at + 1 - from, max as nat, over);
            }
            return Err(NumberFault::InvalidDigit);
        }
        let digit: u64 = c as u64 - 48;
        let too_large = match value.checked_mul(10) {
            None => true,
            Some(tens) => match tens.checked_add(digit) {
                None => true,
                Some(next) => {
                    value = next;
                    next > max
                },
            },
        };
        if too_large {
            proof {
                lemma_fault_stays(all, at + 1 - from, max as nat, over);
            }
            return Err(over);
        }
        at = at + 1;
    }
    assert(all.take(all.len() as int) == all);
    Ok(value)
}

/// A fault found in the first characters is the fault of the whole.
proof fn lemma_fault_stays(s: Seq<char>, n: int, max: nat, over: NumberFault)
    requires
        0 <= n <= s.len(),
        digits_value(s.take(n), max, over) is Err,
    ensures
        digits_value(s, max, over) == digits_value(s.take(n), max, over),
    decreases s.len(),
{
    if n < s.len() {
        assert(s.drop_last().take(n) == s.take(n));
        lemma_fault_stays(s.drop_last(), n, max, over);
    } else {
        assert(s.take(n) == s);
    }
}

/// The number up to `max` that `s` writes.
pub fn parse_unsigned(s: &str, max: u64) -> (r: Result<u64, NumberFault>)
    ensures
        match r {
            Ok(v) => unsigned_value(s@, max as nat) == Ok::<nat, NumberFault>(v as nat),
            Err(f) => unsigned_value(s@, max as nat) == Err::<nat, NumberFault>(f),
        },
        r matches Ok(v) ==> v <= max,
{
    let chars = text::chars_of(s);
    if chars.len() == 0 {
        return Err(NumberFault::Empty);
    }
    if chars.len() == 1 && (chars[0] == '+' || chars[0] == '-') {
        return Err(NumberFault::InvalidDigit);
    }
    let from: usize = if chars[0] == '+' { 1 } else { 0 };
    assert(chars@.skip(0) == s@);
    assert(chars@.skip(1) == s@.drop_first());
    proof {
        lemma_digits_bounded(chars@.skip(from as int), max as nat, NumberFault::TooLarge);
    }
    read_digits(&chars, from, max, NumberFault::TooLarge)
}

proof fn lemma_digits_bounded(s: Seq<char>, max: nat, over: NumberFault)
    ensures
        digits_value(s, max, over) matches Ok(v) ==> v <= max,
    decreases s.len(),
{
    if s.len() > 0 {
        lemma_digits_bounded(s.drop_last(), max, over);
    }
}

/// The 32-bit number that `s` writes.
pub fn parse_signed(s: &str) -> (r: Result<i32, NumberFault>)
    ensures
        match r {
            Ok(v) => signed_value(s@) == Ok::<int, NumberFault>(v as int),
            Err(f) => signed_value(s@) == Err::<int, NumberFault>(f),
        },
{
    let chars = text::chars_of(s);
    if chars.len() > 1 && chars[0] == '-' {
        assert(chars@.skip(1) == s@.drop_first());
        proof {
            lemma_digits_bounded(chars@.skip(1), 0x8000_0000, NumberFault::TooSmall);
        }
        match read_digits(&chars, 1, 0x8000_0000, NumberFault::TooSmall) {
            Ok(value) => Ok((0i64 - value as i64) as i32),
            Err(fault) => Err(fault),
        }
    } else {
        match parse_unsigned(s, 0x7fff_ffff) {
            Ok(value) => Ok(value as i32),
            Err(fault) => Err(fault),
        }
    }
}

// ---------------------------------------------------------------------------
// Laws
// ---------------------------------------------------------------------------
pub(crate) proof fn lemma_digits_read_back(n: nat, max: nat, over: NumberFault)
    requires
        n <= max,
    ensures
        decimal(n).len() > 0,
        is_digit(decimal(n)[0]),
        digits_value(decimal(n), max, over) == Ok::<nat, NumberFault>(n),
    decreases n,
{
    reveal_with_fuel(digits_value, 2);
    let s = decimal(n);
    if n < 10 {
        assert(s.drop_last() =~= Seq::<char>::empty());
    } else {
        lemma_digits_read_back(n / 10, max, over);
        assert(s.drop_last() =~= decimal(n / 10));
        assert(s[0] == decimal(n / 10)[0]);
    }
}

/// A number that was written is read back.
pub proof fn written_numbers_are_read_back(n: nat, max: nat)
    requires
        n <= max,
    ensures
        decimal(n).len() > 0,
        is_digit(decimal(n)[0]),
        unsigned_value(decimal(n), max) == Ok::<nat, NumberFault>(n),
{
    lemma_digits_read_back(n, max, NumberFault::TooLarge);
}

} // verus!
