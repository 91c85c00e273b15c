//! Reading text by the character: finding places, trimming, and decimal
//! numbers.

use vstd::prelude::*;

verus! {

/// White space, as Unicode defines it.
pub open spec fn is_space(c: char) -> bool {
    ||| '\u{9}' <= c <= '\u{d}'
    ||| c == ' '
    ||| c == '\u{85}'
    ||| c == '\u{a0}'
    ||| c == '\u{1680}'
    ||| '\u{2000}' <= c <= '\u{200a}'
    ||| c == '\u{2028}'
    ||| c == '\u{2029}'
    ||| c == '\u{202f}'
    ||| c == '\u{205f}'
    ||| c == '\u{3000}'
}

/// Whether a character is white space.
pub fn is_whitespace(c: char) -> (space: bool)
    ensures
        space == is_space(c),
{
    ('\u{9}' <= c && c <= '\u{d}') || c == ' ' || c == '\u{85}' || c == '\u{a0}' || c
        == '\u{1680}' || ('\u{2000}' <= c && c <= '\u{200a}') || c == '\u{2028}' || c
        == '\u{2029}' || c == '\u{202f}' || c == '\u{205f}' || c == '\u{3000}'
}

/// A kind of character to look for.
#[derive(Clone, Copy, Debug)]
pub enum CharClass {
    /// This very character.
    Exactly(char),
    /// White space.
    Space,
    /// A square bracket, opening or closing.
    Bracket,
}

impl CharClass {
    /// Whether a character is of this kind.
    pub open spec fn holds(self, c: char) -> bool {
        match self {
            CharClass::Exactly(sought) => c == sought,
            CharClass::Space => is_space(c),
            CharClass::Bracket => c == '[' || c == ']',
        }
    }

    /// Whether a character is of this kind.
    pub fn test(&self, c: char) -> (held: bool)
        ensures
            held == self.holds(c),
    {
        match self {
            CharClass::Exactly(sought) => c == *sought,
            CharClass::Space => is_whitespace(c),
            CharClass::Bracket => c == '[' || c == ']',
        }
    }
}

/// The first place from `from` up to, not including, `to` where `text` has a
/// character that is of the class if `wanted` is set, or that is not if
/// `wanted` is unset; `to` where there is no such place.
pub open spec fn position(text: Seq<char>, from: int, to: int, class: CharClass, wanted: bool)
    -> int
    decreases to - from,
{
    if from >= to {
        to
    } else if class.holds(text[from]) == wanted {
        from
    } else {
        position(text, from + 1, to, class, wanted)
    }
}

/// The place down to which `text` can be cut back from `to` by dropping
/// characters of the class from its end, without going below `from`.
pub open spec fn cut_back(text: Seq<char>, from: int, to: int, class: CharClass) -> int
    decreases to - from,
{
    if to <= from {
        from
    } else if class.holds(text[to - 1]) {
        cut_back(text, from, to - 1, class)
    } else {
        to
    }
}

/// The part of `text` between `from` and `to` without the characters of the
/// class at its two ends, as the places where what is left begins and ends.
pub open spec fn trimmed(text: Seq<char>, from: int, to: int, class: CharClass) -> (int, int) {
    let begin = position(text, from, to, class, false);
    (begin, cut_back(text, begin, to, class))
}

/// What is found is where it was looked for.
pub proof fn lemma_position_in_range(
    text: Seq<char>,
    from: int,
    to: int,
    class: CharClass,
    wanted: bool,
)
    requires
        from <= to,
    ensures
        from <= position(text, from, to, class, wanted) <= to,
    decreases to - from,
{
    if from < to && class.holds(text[from]) != wanted {
        lemma_position_in_range(text, from + 1, to, class, wanted);
    }
}

/// The place that is found is the first of its kind: where nothing of the
/// kind stands between `from` and `place`, and `place` is of the kind or is
/// `to`, the place found is `place`.
pub proof fn lemma_position_is_first(
    text: Seq<char>,
    from: int,
    to: int,
    class: CharClass,
    wanted: bool,
    place: int,
)
    requires
        from <= place <= to,
        forall|i: int| from <= i < place ==> class.holds(#[trigger] text[i]) != wanted,
        place == to || class.holds(text[place]) == wanted,
    ensures
        position(text, from, to, class, wanted) == place,
    decreases place - from,
{
    if from < place {
        lemma_position_is_first(text, from + 1, to, class, wanted, place);
    }
}

/// The characters of a text, one by one.
pub fn characters(text: &str) -> (chars: Vec<char>)
    ensures
        chars@ == text@,
{
    let mut chars: Vec<char> = Vec::new();
    for c in it: text.chars()
        invariant
            it.seq() == text@,
            chars@ == text@.take(it.index() as int),
    {
        chars.push(c);
    }
    chars
}

/// Finds the first place between `from` and `to` with a character that is of
/// the class, or that is not.
pub fn find_position(chars: &Vec<char>, from: usize, to: usize, class: CharClass, wanted: bool)
    -> (place: usize)
    requires
        from <= to <= chars.len(),
    ensures
        place == position(chars@, from as int, to as int, class, wanted),
        from <= place <= to,
{
    let mut place: usize = from;
    while place < to && class.test(chars[place]) != wanted
        invariant
            from <= place <= to <= chars.len(),
            position(chars@, from as int, to as int, class, wanted) == position(
                chars@,
                place as int,
                to as int,
                class,
                wanted,
            ),
        decreases to - place,
    {
        place = place + 1;
    }
    place
}

/// Trims the characters of a class off both ends of a part of a text.
pub fn trim(chars: &Vec<char>, from: usize, to: usize, class: CharClass) -> (kept: (usize, usize))
    requires
        from <= to <= chars.len(),
    ensures
        kept.0 == trimmed(chars@, from as int, to as int, class).0,
        kept.1 == trimmed(chars@, from as int, to as int, class).1,
        from <= kept.0 <= kept.1 <= to,
{
    let begin: usize = find_position(chars, from, to, class, false);
    let mut end: usize = to;
    while end > begin && class.test(chars[end - 1])
        invariant
            begin <= end <= to <= chars.len(),
            cut_back(chars@, begin as int, to as int, class) == cut_back(
                chars@,
                begin as int,
                end as int,
                class,
            ),
        decreases end - begin,
    {
        end = end - 1;
    }
    (begin, end)
}

/// The number that a decimal digit stands for.
pub open spec fn digit_value(c: char) -> Option<nat> {
    if '0' <= c <= '9' {
        Some((c as int - '0' as int) as nat)
    } else {
        None
    }
}

/// The number that a run of decimal digits stands for; zero for the empty
/// run, and `None` where something else than a digit is among them.
pub open spec fn decimal(digits: Seq<char>) -> Option<nat>
    decreases digits.len(),
{
    if digits.len() == 0 {
        Some(0)
    } else {
        match (decimal(digits.drop_last()), digit_value(digits.last())) {
            (Some(value), Some(digit)) => Some(value * 10 + digit),
            _ => None,
        }
    }
}

/// The number that a text stands for in decimal: digits, after at most one
/// plus sign, that give a number up to `max`. Anything else is no number.
pub open spec fn decimal_number(text: Seq<char>, max: u64) -> Option<u64> {
    let digits = if text.len() > 0 && text[0] == '+' {
        text.skip(1)
    } else {
        text
    };
    if digits.len() == 0 {
        None
    } else {
        match decimal(digits) {
            Some(value) => if value <= max {
                Some(value as u64)
            } else {
                None
            },
            None => None,
        }
    }
}

/// The byte that a text stands for in decimal: a number up to 255.
pub open spec fn decimal_byte(text: Seq<char>) -> Option<u8> {
    match decimal_number(text, 255) {
        Some(value) => Some(value as u8),
        None => None,
    }
}

/// More digits never give a smaller number.
proof fn lemma_decimal_grows(digits: Seq<char>, shorter: int)
    requires
        0 <= shorter <= digits.len(),
    ensures
        decimal(digits) matches Some(value) ==> decimal(digits.take(shorter)) matches Some(part)
            && part <= value,
    decreases digits.len(),
{
    if shorter < digits.len() {
        assert(digits.drop_last().take(shorter) =~= digits.take(shorter));
        lemma_decimal_grows(digits.drop_last(), shorter);
    } else {
        assert(digits.take(shorter) =~= digits);
    }
}

/// Reads the part of a text between `from` and `to` as a number in decimal
/// that is no greater than `max`.
pub fn parse_number(chars: &Vec<char>, from: usize, to: usize, max: u64) -> (number: Option<u64>)
    requires
        from <= to <= chars.len(),
    ensures
        number == decimal_number(chars@.subrange(from as int, to as int), max),
{
    let ghost text = chars@.subrange(from as int, to as int);
    let begin: usize = if from < to && chars[from] == '+' {
        from + 1
    } else {
        from
    };
    let ghost digits = chars@.subrange(begin as int, to as int);
    assert(digits =~= if text.len() > 0 && text[0] == '+' {
        text.skip(1)
    } else {
        text
    });
    if begin == to {
        return None;
    }
    let mut value: u64 = 0;
    let mut place: usize = begin;
    while place < to
        invariant
            from <= begin <= place <= to <= chars.len(),
            begin < to,
            text == chars@.subrange(from as int, to as int),
            digits == chars@.subrange(begin as int, to as int),
            decimal_number(text, max) == match decimal(digits) {
                Some(value) => if value <= max {
                    Some(value as u64)
                } else {
                    None
                },
                None => None,
            },
            decimal(digits.take(place - begin)) == Some(value as nat),
            value <= max,
        decreases to - place,
    {
        let c = chars[place];
        let ghost longer = digits.take(place - begin + 1);
        assert(longer.drop_last() =~= digits.take(place - begin));
        proof {
            lemma_decimal_grows(digits, place - begin + 1);
        }
        if !('0' <= c && c <= '9') {
            return None;
        }
        let digit: u64 = (c as u8 - '0' as u8) as u64;
        if digit > max || value > (max - digit) / 10 {
            return None;
        }
        value = value * 10 + digit;
        place = place + 1;
    }
    assert(digits.take(to - begin) =~= digits);
    Some(value)
}

/// Reads the part of a text between `from` and `to` as a byte in decimal.
pub fn parse_byte(chars: &Vec<char>, from: usize, to: usize) -> (byte: Option<u8>)
    requires
        from <= to <= chars.len(),
    ensures
        byte == decimal_byte(chars@.subrange(from as int, to as int)),
{
    match parse_number(chars, from, to, 255) {
        Some(value) => Some(value as u8),
        None => None,
    }
}

} // verus!
