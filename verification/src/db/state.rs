//! Reading the settings that the service is started with.
//!
//! A key pair is given as the list of its bytes in decimal, separated by
//! commas, with or without square brackets around it: `[12, 0, 255]`. A time
//! is given as a number of seconds in decimal.

use crate::text::{
    characters, decimal_byte, decimal_number, find_position, lemma_position_in_range, parse_byte,
    parse_number, position, trim, trimmed, CharClass,
};
use vstd::prelude::*;

verus! {

/// The bytes that a list of decimal numbers between `from` and `to` stands
/// for: the numbers are separated by commas and may have white space around
/// them. `None` where one of them is no byte; this holds of an empty list
/// too, and of a list that ends in a comma.
pub open spec fn listed_bytes(text: Seq<char>, from: int, to: int) -> Option<Seq<u8>>
    decreases to - from,
{
    let comma = position(text, from, to, CharClass::Exactly(','), true);
    let kept = trimmed(text, from, comma, CharClass::Space);
    match decimal_byte(text.subrange(kept.0, kept.1)) {
        None => None,
        Some(byte) => if comma >= to {
            Some(seq![byte])
        } else {
            proof {
                lemma_position_in_range(text, from, to, CharClass::Exactly(','), true);
            }
            match listed_bytes(text, comma + 1, to) {
                Some(rest) => Some(seq![byte] + rest),
                None => None,
            }
        },
    }
}

/// The bytes of a key pair that is written as a list, with the square
/// brackets at its two ends left out of account.
pub open spec fn key_bytes(text: Seq<char>) -> Option<Seq<u8>> {
    let kept = trimmed(text, 0, text.len() as int, CharClass::Bracket);
    listed_bytes(text, kept.0, kept.1)
}

/// A setting that cannot be used.
#[derive(Clone, Copy, Debug, PartialEq, Eq, Structural)]
pub enum ConfigError {
    /// A key pair is not a list of bytes.
    InvalidKeyBytes,
}

/// Reads a key pair from its list of bytes.
pub fn parse_key_bytes(text: &str) -> (bytes: Result<Vec<u8>, ConfigError>)
    ensures
        match key_bytes(text@) {
            Some(listed) => bytes matches Ok(read) && read@ == listed,
            None => bytes == Err::<Vec<u8>, ConfigError>(ConfigError::InvalidKeyBytes),
        },
{
    let chars = characters(text);
    let (begin, end) = trim(&chars, 0, chars.len(), CharClass::Bracket);
    let mut bytes: Vec<u8> = Vec::new();
    let mut from: usize = begin;
    loop
        invariant
            begin <= from <= end <= chars.len(),
            key_bytes(text@) == listed_bytes(chars@, begin as int, end as int),
            listed_bytes(chars@, begin as int, end as int) == match listed_bytes(
                chars@,
                from as int,
                end as int,
            ) {
                Some(rest) => Some(bytes@ + rest),
                None => None,
            },
        decreases end - from,
    {
        let comma: usize = find_position(&chars, from, end, CharClass::Exactly(','), true);
        let (low, high) = trim(&chars, from, comma, CharClass::Space);
        match parse_byte(&chars, low, high) {
            None => {
                return Err(ConfigError::InvalidKeyBytes);
            },
            Some(byte) => {
                bytes.push(byte);
                if comma >= end {
                    return Ok(bytes);
                }
                from = comma + 1;
            },
        }
    }
}

/// The seconds that a text stands for: a decimal number that fits 64 bits,
/// with or without white space around it.
pub open spec fn seconds(text: Seq<char>) -> Option<u64> {
    let kept = trimmed(text, 0, text.len() as int, CharClass::Space);
    decimal_number(text.subrange(kept.0, kept.1), u64::MAX)
}

/// Reads a number of seconds.
pub fn parse_seconds(text: &str) -> (read: Option<u64>)
    ensures
        read == seconds(text@),
{
    let chars = characters(text);
    let (begin, end) = trim(&chars, 0, chars.len(), CharClass::Space);
    parse_number(&chars, begin, end, u64::MAX)
}

/// The seconds that a setting gives: what it stands for, or `default` where
/// the setting is missing or is no number of seconds.
pub fn seconds_setting(setting: Option<&str>, default: u64) -> (secs: u64)
    ensures
        secs == match setting {
            Some(text) => match seconds(text@) {
                Some(read) => read,
                None => default,
            },
            None => default,
        },
{
    match setting {
        Some(text) => match parse_seconds(text) {
            Some(read) => read,
            None => default,
        },
        None => default,
    }
}

} // verus!
