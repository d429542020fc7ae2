use vstd::prelude::*;

use crate::error::{result_view, ParseError, ParseErrorView};

verus! {

/// Suit of a card.
#[derive(Debug, Clone, Copy, PartialEq, Eq, Structural)]
pub enum Suit {
    Clubs,
    Hearts,
    Diamonds,
    Spades,
}

/// What the suit notation `s` denotes: one of the single characters
/// `C`, `H`, `D`, `S`, matched exactly.
pub open spec fn parse_suit(s: Seq<char>) -> Result<Suit, ParseErrorView> {
    if s.len() == 1 && s[0] == 'C' {
        Ok(Suit::Clubs)
    } else if s.len() == 1 && s[0] == 'H' {
        Ok(Suit::Hearts)
    } else if s.len() == 1 && s[0] == 'D' {
        Ok(Suit::Diamonds)
    } else if s.len() == 1 && s[0] == 'S' {
        Ok(Suit::Spades)
    } else {
        Err(ParseErrorView::InvalidSuit(s))
    }
}

impl Default for Suit {
    /// Spades, the placeholder suit.
    fn default() -> (r: Suit)
        ensures
            r == Suit::Spades,
    {
        Suit::Spades
    }
}

impl<'a> TryFrom<&'a str> for Suit {
    type Error = ParseError;

    fn try_from(s: &'a str) -> (r: Result<Suit, ParseError>)
        ensures
            result_view(r) == parse_suit(s@),
    {
        if s.unicode_len() == 1 {
            let c = s.get_char(0);
            if c == 'C' {
                return Ok(Suit::Clubs);
            } else if c == 'H' {
                return Ok(Suit::Hearts);
            } else if c == 'D' {
                return Ok(Suit::Diamonds);
            } else if c == 'S' {
                return Ok(Suit::Spades);
            }
        }
        Err(ParseError::InvalidSuit(s.to_owned()))
    }
}

/// The error of a failed parse holds a fresh `String`, which no spec term can
/// name; the contract is therefore stated on `try_from` itself, over views.
impl<'a> vstd::std_specs::convert::TryFromSpecImpl<&'a str> for Suit {
    open spec fn obeys_try_from_spec() -> bool {
        false
    }

    open spec fn try_from_spec(s: &'a str) -> Result<Suit, ParseError> {
        arbitrary()
    }
}

} // verus!
