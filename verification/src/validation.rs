//! Reading a port number from text.

use crate::text::{decimal, digit_char};
use vstd::prelude::*;

verus! {

/// Whether `c` is one of the ten decimal digits.
pub open spec fn is_digit(c: char) -> bool {
    '0' <= c && c <= '9'
}

/// The number that the digit `c` writes.
pub open spec fn digit_value(c: char) -> nat
    recommends
        is_digit(c),
{
    (c as int - '0' as int) as nat
}

/// Whether every character of `s` is a decimal digit.
pub open spec fn all_digits(s: Seq<char>) -> bool {
    forall|i: int| 0 <= i < s.len() ==> is_digit(#[trigger] s[i])
}

/// The number that the digits `s` write in base ten; zero for no digits.
pub open spec fn digits_value(s: Seq<char>) -> nat
    decreases s.len(),
{
    if s.len() == 0 {
        0
    } else {
        digits_value(s.drop_last()) * 10 + digit_value(s.last())
    }
}

/// `s` without the plus sign that may stand in front of a number.
pub open spec fn without_plus(s: Seq<char>) -> Seq<char> {
    if s.len() > 0 && s[0] == '+' {
        s.subrange(1, s.len() as int)
    } else {
        s
    }
}

/// The 16-bit number that the text `s` writes, if it writes one: an optional
/// plus sign, then at least one decimal digit and nothing else, with a value of
/// at most 65535. Leading zeros are allowed; spaces and a minus sign are not.
pub open spec fn parse_u16(s: Seq<char>) -> Option<u16> {
    let digits = without_plus(s);
    if digits.len() > 0 && all_digits(digits) && digits_value(digits) <= u16::MAX {
        Some(digits_value(digits) as u16)
    } else {
        None
    }
}

/// The message for a text that writes no 16-bit number.
pub open spec fn not_a_number_message(s: Seq<char>) -> Seq<char> {
    "Port must be a valid number, got: "@ + s
}

/// The message for the port number zero.
pub open spec fn out_of_range_message() -> Seq<char> {
    "Port must be between 1 and 65535, got: 0"@
}

/// What `validate_port` answers for the text `s`.
pub open spec fn validated(s: Seq<char>) -> Result<u16, Seq<char>> {
    match parse_u16(s) {
        None => Err(not_a_number_message(s)),
        Some(port) => if port == 0 {
            Err(out_of_range_message())
        } else {
            Ok(port)
        },
    }
}

/// A longer run of digits never writes a smaller number than its beginning.
pub proof fn lemma_digits_value_grows(s: Seq<char>, k: int)
    requires
        0 <= k <= s.len(),
    ensures
        digits_value(s.take(k)) <= digits_value(s),
    decreases s.len(),
{
    if k == s.len() {
        assert(s.take(k) =~= s);
    } else {
        lemma_digits_value_grows(s.drop_last(), k);
        assert(s.drop_last().take(k) =~= s.take(k));
    }
}

/// The number that `digits` writes, if it is a run of digits, not empty, that
/// writes a number of at most 65535.
fn read_digits(digits: &str) -> (r: Option<u16>)
    ensures
        r == if digits@.len() > 0 && all_digits(digits@) && digits_value(digits@) <= u16::MAX {
            Some(digits_value(digits@) as u16)
        } else {
            None
        },
{
    let mut value: u32 = 0;
    let mut empty = true;
    for c in it: digits.chars()
        invariant
            it.seq() == digits@,
            empty <==> it.index() == 0,
            all_digits(digits@.take(it.index() as int)),
            value == digits_value(digits@.take(it.index() as int)),
            value <= u16::MAX,
    {
        let ghost k = it.index() as int;
        let ghost read = digits@.take(k + 1);
        assert(read.drop_last() =~= digits@.take(k));
        assert(read.last() == c);
        if !(c >= '0' && c <= '9') {
            assert(!is_digit(digits@[k]));
            return None;
        }
        let next: u32 = value * 10 + (c as u32 - '0' as u32);
        if next > 65535 {
            proof {
                lemma_digits_value_grows(digits@, k + 1);
            }
            return None;
        }
        assert forall|j: int| 0 <= j < read.len() implies is_digit(#[trigger] read[j]) by {
            if j < k {
                assert(read[j] == digits@.take(k)[j]);
            }
        }
        value = next;
        empty = false;
    }
    assert(digits@.take(digits@.len() as int) =~= digits@);
    if empty {
        None
    } else {
        Some(value as u16)
    }
}

/// Reads a 16-bit number from `text`.
pub fn read_u16(text: &str) -> (r: Option<u16>)
    ensures
        r == parse_u16(text@),
{
    let length = text.unicode_len();
    if length > 0 && text.get_char(0) == '+' {
        read_digits(text.substring_char(1, length))
    } else {
        read_digits(text)
    }
}

/// Checks that `port_str` writes a port number from 1 to 65535 and returns it.
///
/// A text that writes no 16-bit number is turned down with a message that
/// repeats the text; the number zero is turned down as out of range.
pub fn validate_port(port_str: &str) -> (r: Result<u16, String>)
    ensures
        match validated(port_str@) {
            Ok(port) => r == Ok::<u16, String>(port),
            Err(message) => r is Err && r->Err_0@ == message,
        },
        r matches Ok(port) ==> 1 <= port <= 65535,
{
    match read_u16(port_str) {
        None => {
            let message = String::from_str("Port must be a valid number, got: ").concat(port_str);
            Err(message)
        },
        Some(port) => {
            if port == 0 {
                Err(String::from_str("Port must be between 1 and 65535, got: 0"))
            } else {
                Ok(port)
            }
        },
    }
}

/// The decimal notation of a number is a run of digits that writes that number.
pub proof fn lemma_decimal_writes_number(n: nat)
    ensures
        decimal(n).len() > 0,
        all_digits(decimal(n)),
        digits_value(decimal(n)) == n,
    decreases n,
{
    let s = decimal(n);
    if n < 10 {
        assert(s.drop_last() =~= Seq::<char>::empty());
        assert(digits_value(s.drop_last()) == 0);
        assert(s.last() == digit_char(n));
    } else {
        lemma_decimal_writes_number(n / 10);
        assert(s.drop_last() =~= decimal(n / 10));
        assert(s.last() == digit_char(n % 10));
        assert forall|i: int| 0 <= i < s.len() implies is_digit(#[trigger] s[i]) by {
            if i < s.len() - 1 {
                assert(s[i] == decimal(n / 10)[i]);
            }
        }
    }
}

/// Writing a number in decimal and validating that text gives the number back
/// when it is a port number from 1 to 65535, and is turned down otherwise: zero
/// as out of range, anything above 65535 as no valid number.
pub proof fn lemma_validate_decimal(n: nat)
    ensures
        validated(decimal(n)) == if n == 0 {
            Err::<u16, Seq<char>>(out_of_range_message())
        } else if n <= u16::MAX {
            Ok(n as u16)
        } else {
            Err(not_a_number_message(decimal(n)))
        },
{
    lemma_decimal_writes_number(n);
    assert(is_digit(decimal(n)[0]));
    assert(without_plus(decimal(n)) == decimal(n));
}

/// A text with a character that is neither a digit nor a plus sign in front is
/// turned down as no valid number.
pub proof fn lemma_validate_rejects_non_digit(s: Seq<char>, i: int)
    requires
        0 <= i < s.len(),
        !is_digit(s[i]),
        !(i == 0 && s[0] == '+'),
    ensures
        validated(s) == Err::<u16, Seq<char>>(not_a_number_message(s)),
{
    let digits = without_plus(s);
    if s[0] == '+' {
        assert(!is_digit(digits[i - 1]));
    } else {
        assert(!is_digit(digits[i]));
    }
}

} // verus!
