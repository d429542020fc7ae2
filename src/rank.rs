use vstd::prelude::*;

use core::cmp::Ordering;

use crate::error::{result_view, ParseError, ParseErrorView};

verus! {

/// Rank of a card.
///
/// When doing a partial-ordered comparison between ranks, Aces are treated
/// as unordered with respect to other ranks, since they might be high or low.
/// Since ace-high is so common, this is the order of the total comparison
/// `cmp`.
#[derive(Debug, Clone, Copy, PartialEq, Eq, Structural)]
pub enum Rank {
    Ace,
    King,
    Queen,
    Jack,
    Ten,
    /// A spot card, with its value from 2 to 9.
    Spot(u8),
}

impl Rank {
    /// A rank is well formed when a spot card's value lies in 2..=9.
    pub open spec fn wf(self) -> bool {
        self matches Rank::Spot(n) ==> 2 <= n <= 9
    }

    /// The numeric strength of a rank: Ace 14, King 13, Queen 12, Jack 11,
    /// Ten 10, a spot card its value.
    pub open spec fn strength(self) -> u8 {
        match self {
            Rank::Ace => 14,
            Rank::King => 13,
            Rank::Queen => 12,
            Rank::Jack => 11,
            Rank::Ten => 10,
            Rank::Spot(n) => n,
        }
    }

    /// The total order: strengths compared, so that an Ace is highest.
    pub open spec fn total_cmp_spec(self, other: Rank) -> Ordering {
        compare_u8(self.strength(), other.strength())
    }

    /// The partial order: two Aces are equal, an Ace and another rank are
    /// unordered, other ranks compare by strength.
    pub open spec fn partial_cmp_rank(self, other: Rank) -> Option<Ordering> {
        match (self, other) {
            (Rank::Ace, Rank::Ace) => Some(Ordering::Equal),
            (Rank::Ace, _) => None,
            (_, Rank::Ace) => None,
            _ => Some(compare_u8(self.strength(), other.strength())),
        }
    }

    /// Total comparison of ranks by strength, an Ace counting as highest.
    pub fn cmp(&self, other: &Rank) -> (r: Ordering)
        ensures
            r == self.total_cmp_spec(*other),
    {
        let a: u8 = u8::from(*self);
        let b: u8 = u8::from(*other);
        if a < b {
            Ordering::Less
        } else if a == b {
            Ordering::Equal
        } else {
            Ordering::Greater
        }
    }
}

/// The usual comparison of two integers.
pub open spec fn compare_u8(a: u8, b: u8) -> Ordering {
    if a < b {
        Ordering::Less
    } else if a == b {
        Ordering::Equal
    } else {
        Ordering::Greater
    }
}

/// The rank that a single character denotes, if any: `A`, `K`, `Q`, `J`, `T`,
/// or a digit from `2` to `9`.
pub open spec fn rank_of_char(c: char) -> Option<Rank> {
    if c == 'A' {
        Some(Rank::Ace)
    } else if c == 'K' {
        Some(Rank::King)
    } else if c == 'Q' {
        Some(Rank::Queen)
    } else if c == 'J' {
        Some(Rank::Jack)
    } else if c == 'T' {
        Some(Rank::Ten)
    } else if '2' <= c && c <= '9' {
        Some(Rank::Spot((c as u32 - '0' as u32) as u8))
    } else {
        None
    }
}

/// What the rank notation `s` denotes. The length is checked before the
/// content: empty text is `EmptyRank`; text of two or more characters other
/// than `10` is `OverlongRank`; a single character that names no rank is
/// `InvalidRank`.
pub open spec fn parse_rank(s: Seq<char>) -> Result<Rank, ParseErrorView> {
    if s.len() == 0 {
        Err(ParseErrorView::EmptyRank)
    } else if s.len() == 2 && s[0] == '1' && s[1] == '0' {
        Ok(Rank::Ten)
    } else if s.len() >= 2 {
        Err(ParseErrorView::OverlongRank(s))
    } else {
        match rank_of_char(s[0]) {
            Some(r) => Ok(r),
            None => Err(ParseErrorView::InvalidRank(s)),
        }
    }
}

impl Default for Rank {
    /// Ace, the placeholder rank.
    fn default() -> (r: Rank)
        ensures
            r == Rank::Ace,
    {
        Rank::Ace
    }
}

impl From<Rank> for u8 {
    fn from(r: Rank) -> (v: u8)
        ensures
            v == r.strength(),
    {
        match r {
            Rank::Ace => 14,
            Rank::King => 13,
            Rank::Queen => 12,
            Rank::Jack => 11,
            Rank::Ten => 10,
            Rank::Spot(n) => n,
        }
    }
}

impl vstd::std_specs::convert::FromSpecImpl<Rank> for u8 {
    open spec fn obeys_from_spec() -> bool {
        true
    }

    open spec fn from_spec(r: Rank) -> u8 {
        r.strength()
    }
}

/// The rank that the digit `c` denotes, for `c` from `2` to `9`.
fn spot_of_digit(c: char) -> (r: Option<Rank>)
    ensures
        r == (if '2' <= c && c <= '9' {
            Some(Rank::Spot((c as u32 - '0' as u32) as u8))
        } else {
            None
        }),
{
    match c {
        '2' => Some(Rank::Spot(2)),
        '3' => Some(Rank::Spot(3)),
        '4' => Some(Rank::Spot(4)),
        '5' => Some(Rank::Spot(5)),
        '6' => Some(Rank::Spot(6)),
        '7' => Some(Rank::Spot(7)),
        '8' => Some(Rank::Spot(8)),
        '9' => Some(Rank::Spot(9)),
        _ => None,
    }
}

impl<'a> TryFrom<&'a str> for Rank {
    type Error = ParseError;

    fn try_from(s: &'a str) -> (r: Result<Rank, ParseError>)
        ensures
            result_view(r) == parse_rank(s@),
    {
        let n = s.unicode_len();
        if n == 0 {
            return Err(ParseError::EmptyRank);
        }
        if n >= 2 {
            if n == 2 && s.get_char(0) == '1' && s.get_char(1) == '0' {
                return Ok(Rank::Ten);
            }
            return Err(ParseError::OverlongRank(s.to_owned()));
        }
        let c = s.get_char(0);
        if c == 'A' {
            Ok(Rank::Ace)
        } else if c == 'K' {
            Ok(Rank::King)
        } else if c == 'Q' {
            Ok(Rank::Queen)
        } else if c == 'J' {
            Ok(Rank::Jack)
        } else if c == 'T' {
            Ok(Rank::Ten)
        } else {
            match spot_of_digit(c) {
                Some(r) => Ok(r),
                None => Err(ParseError::InvalidRank(s.to_owned())),
            }
        }
    }
}

/// The error of a failed parse holds a fresh `String`, which no spec term can
/// name; the contract is therefore stated on `try_from` itself, over views.
impl<'a> vstd::std_specs::convert::TryFromSpecImpl<&'a str> for Rank {
    open spec fn obeys_try_from_spec() -> bool {
        false
    }

    open spec fn try_from_spec(s: &'a str) -> Result<Rank, ParseError> {
        arbitrary()
    }
}

impl PartialOrd for Rank {
    fn partial_cmp(&self, other: &Rank) -> (r: Option<Ordering>) {
        match (*self, *other) {
            (Rank::Ace, Rank::Ace) => Some(Ordering::Equal),
            (Rank::Ace, _) => None,
            (_, Rank::Ace) => None,
            (c1, c2) => Some(c1.cmp(&c2)),
        }
    }
}

impl vstd::std_specs::cmp::PartialOrdSpecImpl for Rank {
    open spec fn obeys_partial_cmp_spec() -> bool {
        true
    }

    open spec fn partial_cmp_spec(&self, other: &Rank) -> Option<Ordering> {
        self.partial_cmp_rank(*other)
    }
}

} // verus!
