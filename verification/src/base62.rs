//! Base-62 encoding of unsigned integers, as used for compact identifiers
//! in query strings and URL path segments.
//!
//! The alphabet is `0`–`9`, then `A`–`Z`, then `a`–`z`, with the most
//! significant digit first and no leading zeroes (zero itself encodes as a
//! single `0`).

use vstd::arithmetic::div_mod::{
    lemma_basic_div, lemma_div_decreases, lemma_fundamental_div_mod, lemma_small_mod,
};
use core::marker::PhantomData;

use vstd::prelude::*;

use crate::push_char;

verus! {

/// The character standing for one base-62 digit value (below 62): `0`–`9`
/// for 0–9, `A`–`Z` for 10–35, `a`–`z` for 36–61.
pub open spec fn base62_digit_char(digit: int) -> char {
    if digit < 10 {
        ((digit + 48) as u8) as char
    } else if digit < 36 {
        ((digit + 55) as u8) as char
    } else {
        ((digit + 61) as u8) as char
    }
}

/// The value of one base-62 digit character, or -1 for a character outside
/// the alphabet.
pub open spec fn base62_digit_value(c: char) -> int {
    let code = c as int;
    if 48 <= code && code <= 57 {
        code - 48
    } else if 65 <= code && code <= 90 {
        code - 55
    } else if 97 <= code && code <= 122 {
        code - 61
    } else {
        -1
    }
}

/// Whether a character belongs to the base-62 alphabet.
pub open spec fn is_base62_digit(c: char) -> bool {
    base62_digit_value(c) >= 0
}

/// Whether every character of a string belongs to the base-62 alphabet.
pub open spec fn all_base62_digits(s: Seq<char>) -> bool {
    forall|i: int| 0 <= i < s.len() ==> is_base62_digit(s[i])
}

/// The base-62 encoding of a value: its digits in base 62, most significant
/// first, one character each.
pub open spec fn base62_encoding(value: nat) -> Seq<char>
    decreases value,
{
    if value < 62 {
        seq![base62_digit_char(value as int)]
    } else {
        base62_encoding(value / 62) + seq![base62_digit_char((value % 62) as int)]
    }
}

/// The encoding of a value, or nothing for zero: the digits that stand in
/// front of the ones already produced while an encoding is being built.
pub open spec fn base62_leading_digits(value: nat) -> Seq<char> {
    if value == 0 {
        Seq::empty()
    } else {
        base62_encoding(value)
    }
}

/// The numeric value of a base-62 digit string (of any length, leading
/// zeroes included), assuming every character is a base-62 digit.
pub open spec fn base62_value(s: Seq<char>) -> int
    decreases s.len(),
{
    if s.len() == 0 {
        0
    } else {
        base62_value(s.drop_last()) * 62 + base62_digit_value(s.last())
    }
}

/// Marker for a value that travels base-62 encoded: serialization adapters
/// built around this library use it to pick the base-62 encoding for the
/// type it is parameterized with.
pub struct Base62<T>(PhantomData<T>);

/// Why decoding a base-62 string failed.
#[derive(Copy, Clone, Debug, PartialEq, Eq, Structural)]
pub enum Base62DecodeError {
    /// The input was empty; zero encodes as `"0"`, not as `""`.
    EmptyInput,
    /// The character, at the given index, is outside the base-62 alphabet.
    /// The index is the first invalid one.
    InvalidCharacter(char, usize),
    /// The digits are valid but their value does not fit in a `u128`.
    Overflow,
}

/// Encodes a value in base 62, most significant digit first, without
/// leading zeroes.
pub fn base62_encode(value: u128) -> (r: String)
    ensures
        r@ == base62_encoding(value as nat),
{
    let mut digits: Vec<char> = Vec::new();
    // Produce the digits least significant first.
    let first = (value % 62) as u8;
    digits.push(digit_to_char(first));
    let mut remaining: u128 = value / 62;
    proof {
        if value < 62 {
            lemma_small_mod(value as nat, 62);
            lemma_basic_div(value as int, 62);
            assert(digits@.reverse() =~= seq![base62_digit_char(value as int)]);
        } else {
            assert(digits@.reverse() =~= seq![base62_digit_char((value % 62) as int)]);
        }
    }
    while remaining != 0
        invariant
            digits@.len() >= 1,
            base62_encoding(value as nat) == base62_leading_digits(remaining as nat)
                + digits@.reverse(),
        decreases remaining,
    {
        let ghost digits_before = digits@;
        let ghost remaining_before = remaining as nat;
        let digit = (remaining % 62) as u8;
        digits.push(digit_to_char(digit));
        remaining = remaining / 62;
        proof {
            assert(digits@.reverse() =~= seq![base62_digit_char((remaining_before % 62) as int)]
                + digits_before.reverse());
            if remaining_before < 62 {
                lemma_small_mod(remaining_before, 62);
                lemma_basic_div(remaining_before as int, 62);
            }
            assert(base62_leading_digits((remaining_before / 62) as nat) + seq![
                base62_digit_char((remaining_before % 62) as int),
            ] =~= base62_leading_digits(remaining_before));
            assert(base62_encoding(value as nat) =~= base62_leading_digits(remaining as nat)
                + digits@.reverse());
            lemma_div_decreases(remaining_before as int, 62);
        }
    }
    // Assemble the string most significant digit first.
    let total = digits.len();
    let mut encoded = String::new();
    let mut index: usize = 0;
    while index < total
        invariant
            total == digits@.len(),
            index <= total,
            encoded@ == digits@.reverse().subrange(0, index as int),
        decreases total - index,
    {
        push_char(&mut encoded, digits[total - 1 - index]);
        index = index + 1;
        proof {
            assert(encoded@ =~= digits@.reverse().subrange(0, index as int));
        }
    }
    proof {
        assert(digits@.reverse().subrange(0, total as int) =~= digits@.reverse());
    }
    encoded
}

/// The value of one base-62 digit character, if it is one.
fn char_digit(c: char) -> (r: Option<u8>)
    ensures
        r is Some <==> is_base62_digit(c),
        r matches Some(digit) ==> digit == base62_digit_value(c) && digit < 62,
{
    let code = c as u32;
    if 48 <= code && code <= 57 {
        Some((code - 48) as u8)
    } else if 65 <= code && code <= 90 {
        Some((code - 55) as u8)
    } else if 97 <= code && code <= 122 {
        Some((code - 61) as u8)
    } else {
        None
    }
}

/// The character standing for one base-62 digit value.
fn digit_to_char(digit: u8) -> (r: char)
    requires
        digit < 62,
    ensures
        r == base62_digit_char(digit as int),
{
    if digit < 10 {
        (digit + 48) as char
    } else if digit < 36 {
        (digit + 55) as char
    } else {
        (digit + 61) as char
    }
}

/// Decodes a base-62 digit string into the value it stands for.
///
/// The input must be non-empty, every character must belong to the base-62
/// alphabet, and the value must fit in a `u128`; each failure is reported by
/// its own error, invalid characters taking precedence, at their first
/// index, over overflow.
pub fn base62_decode(encoded: &str) -> (r: Result<u128, Base62DecodeError>)
    ensures
        r is Ok <==> encoded@.len() > 0 && all_base62_digits(encoded@) && base62_value(encoded@)
            <= u128::MAX,
        r is Ok ==> r->Ok_0 == base62_value(encoded@),
        r == Err::<u128, Base62DecodeError>(Base62DecodeError::EmptyInput) <==> encoded@.len()
            == 0,
        r matches Err(e) ==> (e matches Base62DecodeError::InvalidCharacter(c, i)
            ==> i < encoded@.len() && encoded@[i as int] == c && !is_base62_digit(c) && (forall|
            j: int,
        |
            0 <= j < i ==> is_base62_digit(encoded@[j]))),
        encoded@.len() > 0 && !all_base62_digits(encoded@) ==> r matches Err(
            Base62DecodeError::InvalidCharacter(..),
        ),
        r == Err::<u128, Base62DecodeError>(Base62DecodeError::Overflow) <==> encoded@.len() > 0
            && all_base62_digits(encoded@) && base62_value(encoded@) > u128::MAX,
{
    let length = encoded.unicode_len();
    if length == 0 {
        return Err(Base62DecodeError::EmptyInput);
    }
    // First pass: the whole string must consist of base-62 digits.
    let mut index: usize = 0;
    while index < length
        invariant
            length == encoded@.len(),
            index <= length,
            forall|j: int| 0 <= j < index ==> is_base62_digit(encoded@[j]),
        decreases length - index,
    {
        let c = encoded.get_char(index);
        if char_digit(c).is_none() {
            return Err(Base62DecodeError::InvalidCharacter(c, index));
        }
        index = index + 1;
    }
    // Second pass: accumulate the value, watching for overflow.
    let mut acc: u128 = 0;
    let mut index: usize = 0;
    while index < length
        invariant
            length == encoded@.len(),
            index <= length,
            all_base62_digits(encoded@),
            acc == base62_value(encoded@.take(index as int)),
        decreases length - index,
    {
        let c = encoded.get_char(index);
        let digit = match char_digit(c) {
            Some(digit) => digit,
            None => unreached(),
        };
        proof {
            assert(encoded@.take(index + 1).drop_last() =~= encoded@.take(index as int));
            assert(encoded@.take(index + 1).last() == encoded@[index as int]);
        }
        let shifted = match acc.checked_mul(62) {
            Some(shifted) => shifted,
            None => {
                proof {
                    lemma_base62_value_nonneg(encoded@.take(index as int));
                    assert(base62_value(encoded@.take(index + 1)) > u128::MAX);
                    lemma_base62_prefix_bounds_value(encoded@, index + 1);
                }
                return Err(Base62DecodeError::Overflow);
            },
        };
        acc = match shifted.checked_add(digit as u128) {
            Some(next) => next,
            None => {
                proof {
                    assert(base62_value(encoded@.take(index + 1)) > u128::MAX);
                    lemma_base62_prefix_bounds_value(encoded@, index + 1);
                }
                return Err(Base62DecodeError::Overflow);
            },
        };
        index = index + 1;
    }
    proof {
        assert(encoded@.take(length as int) =~= encoded@);
    }
    Ok(acc)
}

/// The value of a base-62 digit string is never negative.
pub proof fn lemma_base62_value_nonneg(s: Seq<char>)
    requires
        all_base62_digits(s),
    ensures
        base62_value(s) >= 0,
    decreases s.len(),
{
    if s.len() > 0 {
        assert(all_base62_digits(s.drop_last()));
        lemma_base62_value_nonneg(s.drop_last());
    }
}

/// The value of a base-62 digit string is at least the value of any of its
/// prefixes: appending digits never shrinks the value.
pub proof fn lemma_base62_prefix_bounds_value(s: Seq<char>, i: int)
    requires
        all_base62_digits(s),
        0 <= i <= s.len(),
    ensures
        base62_value(s.take(i)) <= base62_value(s),
    decreases s.len() - i,
{
    if i < s.len() {
        assert(s.take(i + 1).drop_last() =~= s.take(i));
        assert(s.take(i + 1).last() == s[i]);
        lemma_base62_value_nonneg(s.take(i));
        lemma_base62_prefix_bounds_value(s, i + 1);
    } else {
        assert(s.take(i) =~= s);
    }
}

/// The character of a base-62 digit value stands for that value.
pub proof fn lemma_base62_digit_round_trip(digit: int)
    requires
        0 <= digit < 62,
    ensures
        is_base62_digit(base62_digit_char(digit)),
        base62_digit_value(base62_digit_char(digit)) == digit,
{
}

/// Round trip: the encoding of any value is a non-empty base-62 digit
/// string, and decoding it returns exactly that value.
pub proof fn lemma_base62_round_trip(value: u128)
    ensures
        base62_encoding(value as nat).len() > 0,
        all_base62_digits(base62_encoding(value as nat)),
        base62_value(base62_encoding(value as nat)) == value,
    decreases value,
{
    if value < 62 {
        lemma_base62_digit_round_trip(value as int);
        let single = base62_encoding(value as nat);
        assert(single.drop_last() =~= Seq::<char>::empty());
        assert(base62_value(single.drop_last()) == 0);
        assert(base62_value(single) == base62_digit_value(single.last()));
    } else {
        let prefix = base62_encoding((value / 62) as nat);
        let whole = base62_encoding(value as nat);
        lemma_div_decreases(value as int, 62);
        lemma_base62_round_trip(value / 62);
        lemma_base62_digit_round_trip((value % 62) as int);
        assert(whole.drop_last() =~= prefix);
        assert(whole.last() == base62_digit_char((value % 62) as int));
        assert(forall|i: int| 0 <= i < whole.len() ==> is_base62_digit(whole[i]));
        lemma_fundamental_div_mod(value as int, 62);
        assert(base62_value(whole) == base62_value(prefix) * 62 + base62_digit_value(whole.last()));
        assert(base62_value(prefix) == value as int / 62);
        assert(base62_digit_value(whole.last()) == value as int % 62);
        assert(value as int == 62 * (value as int / 62) + value as int % 62);
    }
}

} // verus!
