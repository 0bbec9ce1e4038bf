use vstd::prelude::*;
use vstd::string::*;
use crate::commands::process::texts;

verus! {

/// What the user's answer to a pending confirmation comes to.
#[derive(Debug)]
pub enum Answer {
    /// The user chose to write a response: ask for it.
    AskCustom,
    /// Send this response.
    Respond(String),
    /// The number names no choice: skip the confirmation.
    Invalid,
    /// The response is empty: skip the confirmation.
    Empty,
}

/// An answer, with the response as text.
pub enum Reading {
    AskCustom,
    Respond(Seq<char>),
    Invalid,
    Empty,
}

impl View for Answer {
    type V = Reading;

    open spec fn view(&self) -> Reading {
        match *self {
            Answer::AskCustom => Reading::AskCustom,
            Answer::Respond(text) => Reading::Respond(text@),
            Answer::Invalid => Reading::Invalid,
            Answer::Empty => Reading::Empty,
        }
    }
}

/// The value of a decimal digit.
pub open spec fn digit_value(c: char) -> Option<nat> {
    if '0' <= c <= '9' {
        Some((c as nat - '0' as nat) as nat)
    } else {
        None
    }
}

/// The number that a run of decimal digits stands for.
pub open spec fn digits_value(digits: Seq<char>) -> Option<nat>
    decreases digits.len(),
{
    if digits.len() == 0 {
        Some(0)
    } else {
        match (digits_value(digits.drop_last()), digit_value(digits.last())) {
            (Some(high), Some(low)) => Some(high * 10 + low),
            _ => None,
        }
    }
}

/// The number that `text` is: decimal digits, at least one, after an
/// optional plus sign, with a value that fits 64 bits.
pub open spec fn number_of(text: Seq<char>) -> Option<u64> {
    let digits = if text.len() > 0 && text[0] == '+' {
        text.drop_first()
    } else {
        text
    };
    if digits.len() == 0 {
        None
    } else {
        match digits_value(digits) {
            Some(value) => if value <= u64::MAX {
                Some(value as u64)
            } else {
                None
            },
            None => None,
        }
    }
}

/// A response, unless it is empty.
pub open spec fn response(text: Seq<char>) -> Reading {
    if text.len() == 0 {
        Reading::Empty
    } else {
        Reading::Respond(text)
    }
}

/// What the answer `input` to a confirmation with the given choices comes
/// to.
///
/// Zero asks for a free response. A number from one to the number of
/// choices picks that choice. Any other number is invalid. Anything that is
/// not a number is the response itself. An empty response is never sent.
pub open spec fn reading(input: Seq<char>, choices: Seq<Seq<char>>) -> Reading {
    match number_of(input) {
        Some(number) => if number == 0 {
            Reading::AskCustom
        } else if number <= choices.len() {
            response(choices[number - 1])
        } else {
            Reading::Invalid
        },
        None => response(input),
    }
}

/// A run of digits that starts with digits of a value too large has a value
/// too large.
proof fn lemma_value_grows(digits: Seq<char>, upto: int)
    requires
        0 <= upto <= digits.len(),
        digits_value(digits) is Some,
    ensures
        digits_value(digits.take(upto)) is Some,
        digits_value(digits.take(upto))->0 <= digits_value(digits)->0,
    decreases digits.len(),
{
    if upto == digits.len() {
        assert(digits.take(upto) =~= digits);
    } else {
        assert(digits.drop_last().take(upto) =~= digits.take(upto));
        lemma_value_grows(digits.drop_last(), upto);
    }
}

/// Reads `text` as a number.
pub fn parse_number(text: &str) -> (number: Option<u64>)
    ensures
        number == number_of(text@),
{
    let len = text.unicode_len();
    let start: usize = if len > 0 && text.get_char(0) == '+' {
        1
    } else {
        0
    };
    if start == len {
        return None;
    }
    let ghost digits = text@.subrange(start as int, len as int);
    assert(digits =~= if start == 1 {
        text@.drop_first()
    } else {
        text@
    });
    let mut value: u64 = 0;
    let mut i: usize = start;
    while i < len
        invariant
            start <= i <= len,
            len == text@.len(),
            digits.len() > 0,
            digits == (if text@.len() > 0 && text@[0] == '+' {
                text@.drop_first()
            } else {
                text@
            }),
            digits == text@.subrange(start as int, len as int),
            digits_value(digits.take(i - start)) == Some(value as nat),
        decreases len - i,
    {
        let c = text.get_char(i);
        proof {
            let seen = digits.take(i - start + 1);
            assert(seen.drop_last() =~= digits.take(i - start));
            assert(seen.last() == c);
            if digits_value(digits) is Some {
                lemma_value_grows(digits, i - start + 1);
            }
        }
        if c < '0' || c > '9' {
            return None;
        }
        let digit: u64 = (c as u32 - '0' as u32) as u64;
        assert(digit_value(c) == Some(digit as nat));
        if value > (u64::MAX - digit) / 10 {
            assert(value * 10 + digit > u64::MAX);
            return None;
        }
        value = value * 10 + digit;
        i += 1;
    }
    assert(digits.take(len - start) =~= digits);
    Some(value)
}

/// The free response that the user wrote, unless it is empty.
pub fn custom_response(text: String) -> (answer: Answer)
    ensures
        answer@ == response(text@),
{
    if text.as_str().unicode_len() == 0 {
        Answer::Empty
    } else {
        Answer::Respond(text)
    }
}

/// Decides what the user's answer to a pending confirmation comes to.
pub fn confirm_command(input: &str, choices: &Vec<String>) -> (answer: Answer)
    ensures
        answer@ == reading(input@, texts(choices@)),
{
    match parse_number(input) {
        Some(0) => Answer::AskCustom,
        Some(number) => {
            if number <= choices.len() as u64 {
                custom_response(choices[(number - 1) as usize].clone())
            } else {
                Answer::Invalid
            }
        },
        None => custom_response(String::from_str(input)),
    }
}

} // verus!
