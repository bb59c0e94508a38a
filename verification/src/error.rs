//! Why a datagram was not applied, and the words for it.

use crate::room::ConnectionIndex;
use vstd::prelude::*;

verus! {

/// Why a datagram that came in was not applied to its room.
#[derive(Debug, Clone, Copy, PartialEq, Eq, Structural)]
pub enum Error {
    /// The room holds no connection under the index the datagram was
    /// received for.
    UnknownConnection(ConnectionIndex),
    /// The first octet of the datagram names no command.
    UnknownCommandType(u8),
    /// The datagram ends before the command it names does.
    MalformedPayload,
}

/// The character that stands for a decimal digit.
pub open spec fn digit_char(digit: nat) -> char
    recommends
        digit < 10,
{
    (48 + digit) as u8 as char
}

/// A number written in decimal, without leading zeros.
pub open spec fn decimal(number: nat) -> Seq<char>
    decreases number,
{
    if number < 10 {
        seq![digit_char(number)]
    } else {
        decimal(number / 10).push(digit_char(number % 10))
    }
}

/// Calls `String::push`, which appends one character.
#[verifier::external_body]
fn push_char(text: &mut String, character: char)
    ensures
        final(text)@ == old(text)@.push(character),
{
    text.push(character);
}

fn push_digit(text: &mut String, digit: u8)
    requires
        digit < 10,
    ensures
        final(text)@ == old(text)@.push(digit_char(digit as nat)),
{
    push_char(text, (48u8 + digit) as char);
}

/// Appends `number` in decimal to `text`.
pub fn push_decimal(text: &mut String, number: u8)
    ensures
        final(text)@ == old(text)@ + decimal(number as nat),
{
    proof {
        reveal_with_fuel(decimal, 3);
    }
    if number >= 100 {
        push_digit(text, number / 100);
    }
    if number >= 10 {
        push_digit(text, (number / 10) % 10);
    }
    push_digit(text, number % 10);
}

impl Error {
    /// The words that describe the error.
    pub open spec fn text(self) -> Seq<char> {
        match self {
            Error::UnknownConnection(id) => "there is no connection "@ + decimal(id as nat),
            Error::UnknownCommandType(tag) => "unknown command type "@ + decimal(tag as nat),
            Error::MalformedPayload => "malformed payload"@,
        }
    }

    /// Describes the error in words.
    pub fn message(&self) -> (text: String)
        ensures
            text@ == self.text(),
    {
        match self {
            Error::UnknownConnection(id) => {
                let mut text = "there is no connection ".to_owned();
                push_decimal(&mut text, *id);
                text
            },
            Error::UnknownCommandType(tag) => {
                let mut text = "unknown command type ".to_owned();
                push_decimal(&mut text, *tag);
                text
            },
            Error::MalformedPayload => "malformed payload".to_owned(),
        }
    }
}

} // verus!
