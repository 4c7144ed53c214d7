//! Reading the answers to the start-up questions.
//!
//! An answer is a line of text with the white space around it already
//! removed. Numbers are written in decimal: an optional sign, then one or
//! more digits, and nothing else.

use vstd::prelude::*;
use vstd::string::StringSliceAdditionalSpecFns;
use crate::quantum::admissible;

verus! {

/// The principal number that an empty answer selects.
pub const DEFAULT_N: i32 = 2;

/// The azimuthal number that an empty answer selects.
pub const DEFAULT_L: i32 = 1;

/// The magnetic number that an empty answer selects.
pub const DEFAULT_M: i32 = 0;

/// The particle count of the menu's first entry.
pub const LOW_COUNT: usize = 10_000;

/// The particle count of the menu's second entry.
pub const DEFAULT_COUNT: usize = 100_000;

/// The particle count of the menu's third entry.
pub const HIGH_COUNT: usize = 500_000;

/// The menu entry that an empty answer selects.
pub const DEFAULT_ENTRY: u32 = 2;

/// The byte `+`.
pub const PLUS: u8 = 43;

/// The byte `-`.
pub const MINUS: u8 = 45;

/// The byte `0`.
pub const ZERO: u8 = 48;

/// The byte `9`.
pub const NINE: u8 = 57;

/// Whether a byte is a decimal digit.
pub open spec fn is_digit(byte: u8) -> bool {
    ZERO <= byte <= NINE
}

/// Whether every byte is a decimal digit.
pub open spec fn all_digits(bytes: Seq<u8>) -> bool {
    forall|i: int| 0 <= i < bytes.len() ==> is_digit(#[trigger] bytes[i])
}

/// The number that a run of digits denotes; the empty run denotes zero.
pub open spec fn decimal(digits: Seq<u8>) -> nat
    decreases digits.len(),
{
    if digits.len() == 0 {
        0
    } else {
        10 * decimal(digits.drop_last()) + (digits.last() - ZERO) as nat
    }
}

/// The number that one or more digits denote, and nothing for anything
/// else.
pub open spec fn magnitude(bytes: Seq<u8>) -> Option<nat> {
    if bytes.len() > 0 && all_digits(bytes) {
        Some(decimal(bytes))
    } else {
        None
    }
}

/// The number that an unsigned literal denotes: digits, with or without a
/// `+` in front.
pub open spec fn unsigned_value(bytes: Seq<u8>) -> Option<nat> {
    if bytes.len() > 0 && bytes[0] == PLUS {
        magnitude(bytes.drop_first())
    } else {
        magnitude(bytes)
    }
}

/// The number that a signed literal denotes: digits, with or without a
/// `+` or a `-` in front.
pub open spec fn signed_value(bytes: Seq<u8>) -> Option<int> {
    if bytes.len() > 0 && bytes[0] == MINUS {
        match magnitude(bytes.drop_first()) {
            Some(value) => Some(-(value as int)),
            None => None,
        }
    } else {
        match unsigned_value(bytes) {
            Some(value) => Some(value as int),
            None => None,
        }
    }
}

/// A number, if there is one and it is at most `limit`.
pub open spec fn at_most(value: Option<nat>, limit: nat) -> Option<nat> {
    match value {
        Some(v) => if v <= limit {
            Some(v)
        } else {
            None
        },
        None => None,
    }
}

/// More digits never denote a smaller number.
pub proof fn lemma_decimal_grows(digits: Seq<u8>, k: int)
    requires
        0 <= k <= digits.len(),
        all_digits(digits),
    ensures
        decimal(digits.take(k)) <= decimal(digits),
    decreases digits.len(),
{
    if k == digits.len() {
        assert(digits.take(k) =~= digits);
    } else {
        assert(digits.drop_last().take(k) =~= digits.take(k));
        assert(is_digit(digits.last()));
        lemma_decimal_grows(digits.drop_last(), k);
    }
}

/// Reads the digits of `bytes` from `start` to the end.
fn read_magnitude(bytes: &[u8], start: usize, limit: u64) -> (value: Option<u64>)
    requires
        start <= bytes@.len(),
    ensures
        match value {
            Some(v) => at_most(magnitude(bytes@.skip(start as int)), limit as nat) == Some(
                v as nat,
            ),
            None => at_most(magnitude(bytes@.skip(start as int)), limit as nat) is None,
        },
{
    let ghost digits = bytes@.skip(start as int);
    if start == bytes.len() {
        return None;
    }
    let mut value: u64 = 0;
    let mut i: usize = start;
    assert(digits.take(0) =~= Seq::<u8>::empty());
    while i < bytes.len()
        invariant
            start <= i <= bytes@.len(),
            digits == bytes@.skip(start as int),
            digits.len() > 0,
            all_digits(digits.take(i - start)),
            decimal(digits.take(i - start)) == value,
            value <= limit,
        decreases bytes@.len() - i,
    {
        let byte: u8 = bytes[i];
        assert(digits[i - start] == byte);
        if byte < ZERO || byte > NINE {
            return None;
        }
        let next: u128 = value as u128 * 10 + (byte - ZERO) as u128;
        proof {
            let longer = digits.take(i - start + 1);
            assert(longer.drop_last() =~= digits.take(i - start));
            assert(longer.last() == byte);
            assert(decimal(longer) == next);
            assert forall|k: int| 0 <= k < longer.len() implies is_digit(#[trigger] longer[k]) by {
                if k < longer.len() - 1 {
                    assert(longer[k] == digits.take(i - start)[k]);
                }
            }
            if next > limit && all_digits(digits) {
                lemma_decimal_grows(digits, i - start + 1);
            }
        }
        if next > limit as u128 {
            return None;
        }
        value = next as u64;
        i += 1;
    }
    assert(digits.take(i - start) =~= digits);
    Some(value)
}

/// Reads a 32-bit signed number. `None` if the text is no signed literal
/// or its number does not fit.
pub fn parse_i32(text: &str) -> (value: Option<i32>)
    ensures
        match value {
            Some(v) => signed_value(text.spec_bytes()) == Some(v as int),
            None => match signed_value(text.spec_bytes()) {
                Some(v) => v < i32::MIN || v > i32::MAX,
                None => true,
            },
        },
{
    let bytes = text.as_bytes();
    if bytes.len() == 0 {
        return None;
    }
    let first: u8 = bytes[0];
    assert(bytes@.skip(1) =~= bytes@.drop_first());
    assert(bytes@.skip(0) =~= bytes@);
    if first == MINUS {
        match read_magnitude(bytes, 1, 0x8000_0000) {
            Some(v) => Some((0 - (v as i64)) as i32),
            None => None,
        }
    } else {
        let start: usize = if first == PLUS {
            1
        } else {
            0
        };
        match read_magnitude(bytes, start, 0x7fff_ffff) {
            Some(v) => Some(v as i32),
            None => None,
        }
    }
}

/// Reads an unsigned number of at most `limit`.
fn parse_unsigned(text: &str, limit: u64) -> (value: Option<u64>)
    ensures
        match value {
            Some(v) => at_most(unsigned_value(text.spec_bytes()), limit as nat) == Some(v as nat),
            None => at_most(unsigned_value(text.spec_bytes()), limit as nat) is None,
        },
{
    let bytes = text.as_bytes();
    if bytes.len() == 0 {
        return None;
    }
    let first: u8 = bytes[0];
    assert(bytes@.skip(1) =~= bytes@.drop_first());
    assert(bytes@.skip(0) =~= bytes@);
    let start: usize = if first == PLUS {
        1
    } else {
        0
    };
    read_magnitude(bytes, start, limit)
}

/// Reads a 32-bit unsigned number. `None` if the text is no unsigned
/// literal or its number does not fit.
pub fn parse_u32(text: &str) -> (value: Option<u32>)
    ensures
        match value {
            Some(v) => unsigned_value(text.spec_bytes()) == Some(v as nat),
            None => match unsigned_value(text.spec_bytes()) {
                Some(v) => v > u32::MAX,
                None => true,
            },
        },
{
    match parse_unsigned(text, 0xffff_ffff) {
        Some(v) => Some(v as u32),
        None => None,
    }
}

/// Reads a number of the machine's word size. `None` if the text is no
/// unsigned literal or its number does not fit.
pub fn parse_usize(text: &str) -> (value: Option<usize>)
    ensures
        match value {
            Some(v) => unsigned_value(text.spec_bytes()) == Some(v as nat),
            None => match unsigned_value(text.spec_bytes()) {
                Some(v) => v > usize::MAX,
                None => true,
            },
        },
{
    match parse_unsigned(text, usize::MAX as u64) {
        Some(v) => Some(v as usize),
        None => None,
    }
}

/// What an answer to the particle-count menu stands for.
#[derive(Clone, Copy, Debug, PartialEq, Eq, Structural)]
pub enum MenuChoice {
    /// One of the three fixed counts.
    Preset(usize),
    /// The count is asked for next.
    Custom,
    /// A number, but the menu has no such entry.
    NoSuchEntry,
    /// Not a number at all.
    Unreadable,
}

/// What entry `entry` of the menu stands for.
pub open spec fn menu_entry(entry: int) -> MenuChoice {
    if entry == 1 {
        MenuChoice::Preset(LOW_COUNT)
    } else if entry == 2 {
        MenuChoice::Preset(DEFAULT_COUNT)
    } else if entry == 3 {
        MenuChoice::Preset(HIGH_COUNT)
    } else if entry == 4 {
        MenuChoice::Custom
    } else {
        MenuChoice::NoSuchEntry
    }
}

/// What an answer to the menu stands for: nothing selects the default
/// entry, a number that fits 32 bits selects its entry, and anything else
/// cannot be read.
pub open spec fn menu_reading(answer: Seq<u8>) -> MenuChoice {
    if answer.len() == 0 {
        menu_entry(DEFAULT_ENTRY as int)
    } else {
        match at_most(unsigned_value(answer), u32::MAX as nat) {
            Some(entry) => menu_entry(entry as int),
            None => MenuChoice::Unreadable,
        }
    }
}

/// What an answer to a question for a quantum number stands for: nothing
/// means the default, a number that fits 32 bits means itself, and for
/// anything else the question is asked again.
pub open spec fn number_reading(answer: Seq<u8>, default: i32) -> Option<i32> {
    if answer.len() == 0 {
        Some(default)
    } else {
        match signed_value(answer) {
            Some(v) => if i32::MIN <= v <= i32::MAX {
                Some(v as i32)
            } else {
                None
            },
            None => None,
        }
    }
}

/// What an answer to the question for a custom count stands for: a
/// number above zero that fits the machine's word, or nothing.
pub open spec fn count_reading(answer: Seq<u8>) -> Option<usize> {
    match unsigned_value(answer) {
        Some(v) => if 0 < v <= usize::MAX {
            Some(v as usize)
        } else {
            None
        },
        None => None,
    }
}

/// Reads an entry of the particle-count menu: entries 1 to 3 are the
/// fixed counts, entry 4 asks for a custom one, and there are no others.
pub fn menu_choice(entry: u32) -> (choice: MenuChoice)
    ensures
        choice == menu_entry(entry as int),
{
    if entry == 1 {
        MenuChoice::Preset(LOW_COUNT)
    } else if entry == 2 {
        MenuChoice::Preset(DEFAULT_COUNT)
    } else if entry == 3 {
        MenuChoice::Preset(HIGH_COUNT)
    } else if entry == 4 {
        MenuChoice::Custom
    } else {
        MenuChoice::NoSuchEntry
    }
}

/// Reads an answer to the particle-count menu.
pub fn menu_answer(answer: &str) -> (choice: MenuChoice)
    ensures
        choice == menu_reading(answer.spec_bytes()),
{
    if answer.as_bytes().len() == 0 {
        menu_choice(DEFAULT_ENTRY)
    } else {
        match parse_u32(answer) {
            Some(entry) => menu_choice(entry),
            None => MenuChoice::Unreadable,
        }
    }
}

/// Reads an answer to a question for a quantum number. `None` means that
/// the question has to be asked again.
pub fn number_answer(answer: &str, default: i32) -> (value: Option<i32>)
    ensures
        value == number_reading(answer.spec_bytes(), default),
{
    if answer.as_bytes().len() == 0 {
        Some(default)
    } else {
        parse_i32(answer)
    }
}

/// Reads an answer to the question for a custom particle count. `None`
/// means that the question has to be asked again.
pub fn count_answer(answer: &str) -> (count: Option<usize>)
    ensures
        count == count_reading(answer.spec_bytes()),
{
    match parse_usize(answer) {
        Some(n) => if n > 0 {
            Some(n)
        } else {
            None
        },
        None => None,
    }
}

/// Three empty answers name an orbital, and an empty answer to the menu
/// selects a count that a request accepts.
pub proof fn lemma_defaults_are_valid()
    ensures
        admissible(DEFAULT_N as int, DEFAULT_L as int, DEFAULT_M as int),
        menu_reading(Seq::empty()) == MenuChoice::Preset(DEFAULT_COUNT),
        DEFAULT_COUNT > 0,
{
}

} // verus!
