use vstd::prelude::*;

use core::cmp::Ordering;

use crate::error::{result_view, ParseError, ParseErrorView};
use crate::rank::{parse_rank, Rank};
use crate::suit::{parse_suit, Suit};

verus! {

/// Playing card with rank and suit.
#[derive(Debug, Clone, Copy)]
pub struct Card {
    pub rank: Rank,
    pub suit: Suit,
}

/// What the card notation `s` denotes. Only texts of two or three characters
/// are considered; all but the last character are the rank, the last is the
/// suit, and an error of either part is passed on as it is.
pub open spec fn parse_card(s: Seq<char>) -> Result<Card, ParseErrorView> {
    if s.len() < 2 || s.len() > 3 {
        Err(ParseErrorView::InvalidCardLength(s))
    } else {
        match parse_rank(s.subrange(0, s.len() - 1)) {
            Err(e) => Err(e),
            Ok(rank) => match parse_suit(s.subrange(s.len() - 1, s.len() as int)) {
                Err(e) => Err(e),
                Ok(suit) => Ok(Card { rank, suit }),
            },
        }
    }
}

impl Card {
    /// A card is well formed when its rank is.
    pub open spec fn wf(self) -> bool {
        self.rank.wf()
    }

    /// The card of the given rank and suit.
    pub fn new(rank: Rank, suit: Suit) -> (c: Card)
        ensures
            c.rank == rank,
            c.suit == suit,
    {
        Card { rank, suit }
    }

    /// Total comparison of cards by rank alone, an Ace counting as highest.
    pub fn cmp(&self, other: &Card) -> (r: Ordering)
        ensures
            r == self.rank.total_cmp_spec(other.rank),
    {
        self.rank.cmp(&other.rank)
    }
}

impl Default for Card {
    /// The Ace of Spades, the placeholder card.
    fn default() -> (c: Card)
        ensures
            c.rank == Rank::Ace,
            c.suit == Suit::Spades,
    {
        Card { rank: Rank::default(), suit: Suit::default() }
    }
}

impl<'a> TryFrom<&'a str> for Card {
    type Error = ParseError;

    fn try_from(s: &'a str) -> (r: Result<Card, ParseError>)
        ensures
            result_view(r) == parse_card(s@),
    {
        let ns = s.unicode_len();
        if ns < 2 || ns > 3 {
            return Err(ParseError::InvalidCardLength(s.to_owned()));
        }
        let rs = s.substring_char(0, ns - 1);
        let ss = s.substring_char(ns - 1, ns);
        let rank = match Rank::try_from(rs) {
            Ok(rank) => rank,
            Err(e) => return Err(e),
        };
        let suit = match Suit::try_from(ss) {
            Ok(suit) => suit,
            Err(e) => return Err(e),
        };
        Ok(Card { rank, suit })
    }
}

/// The error of a failed parse holds a fresh `String`, which no spec term can
/// name; the contract is therefore stated on `try_from` itself, over views.
impl<'a> vstd::std_specs::convert::TryFromSpecImpl<&'a str> for Card {
    open spec fn obeys_try_from_spec() -> bool {
        false
    }

    open spec fn try_from_spec(s: &'a str) -> Result<Card, ParseError> {
        arbitrary()
    }
}

impl PartialEq for Card {
    fn eq(&self, other: &Card) -> (r: bool) {
        self.rank == other.rank && self.suit == other.suit
    }
}

impl vstd::std_specs::cmp::PartialEqSpecImpl for Card {
    open spec fn obeys_eq_spec() -> bool {
        true
    }

    open spec fn eq_spec(&self, other: &Card) -> bool {
        self.rank == other.rank && self.suit == other.suit
    }
}

impl Eq for Card {

}

impl PartialOrd for Card {
    fn partial_cmp(&self, other: &Card) -> (r: Option<Ordering>) {
        self.rank.partial_cmp(&other.rank)
    }
}

impl vstd::std_specs::cmp::PartialOrdSpecImpl for Card {
    open spec fn obeys_partial_cmp_spec() -> bool {
        true
    }

    open spec fn partial_cmp_spec(&self, other: &Card) -> Option<Ordering> {
        self.rank.partial_cmp_rank(other.rank)
    }
}

} // verus!
