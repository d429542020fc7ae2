//! Facts about parsing and ordering that relate several operations.

use vstd::prelude::*;

use core::cmp::Ordering;
use vstd::std_specs::cmp::PartialOrdSpec;

use crate::card::parse_card;
use crate::error::ParseErrorView;
use crate::rank::{parse_rank, rank_of_char, Rank};

verus! {

/// Each rank code parses to the rank whose strength is the code's value:
/// `A` 14, `K` 13, `Q` 12, `J` 11, `T` and `10` both 10, and a digit from `2`
/// to `9` its own value.
pub proof fn lemma_rank_code_strength()
    ensures
        parse_rank(seq!['A']) matches Ok(r) && r.strength() == 14,
        parse_rank(seq!['K']) matches Ok(r) && r.strength() == 13,
        parse_rank(seq!['Q']) matches Ok(r) && r.strength() == 12,
        parse_rank(seq!['J']) matches Ok(r) && r.strength() == 11,
        parse_rank(seq!['T']) matches Ok(r) && r.strength() == 10,
        parse_rank(seq!['1', '0']) matches Ok(r) && r.strength() == 10,
        forall|c: char|
            '2' <= c && c <= '9' ==> (#[trigger] parse_rank(seq![c]) matches Ok(r)
                && r.strength() == c as u32 - '0' as u32),
{
    assert forall|c: char|
        '2' <= c && c <= '9' implies (#[trigger] parse_rank(seq![c]) matches Ok(r)
            && r.strength() == c as u32 - '0' as u32) by {
        assert(seq![c][0] == c);
    }
}

/// Rank parsing is total: every text gives a well-formed rank or exactly one
/// of three errors, and which one is fixed by the text's length and content.
pub proof fn lemma_parse_rank_total(s: Seq<char>)
    ensures
        match parse_rank(s) {
            Ok(r) => r.wf(),
            Err(e) => e is EmptyRank || e is OverlongRank || e is InvalidRank,
        },
        (parse_rank(s) matches Err(ParseErrorView::EmptyRank)) <==> s.len() == 0,
        (parse_rank(s) matches Err(ParseErrorView::OverlongRank(t))) <==> (s.len() >= 2 && !(
        s.len() == 2 && s[0] == '1' && s[1] == '0')),
        (parse_rank(s) matches Err(ParseErrorView::InvalidRank(t))) <==> (s.len() == 1
            && rank_of_char(s[0]) is None),
        parse_rank(s) matches Err(ParseErrorView::OverlongRank(t)) ==> t == s,
        parse_rank(s) matches Err(ParseErrorView::InvalidRank(t)) ==> t == s,
{
}

/// In the partial order an Ace is equal to an Ace and unordered with respect
/// to every other rank, in either direction.
pub proof fn lemma_partial_cmp_ace(r: Rank)
    requires
        r != Rank::Ace,
    ensures
        Rank::Ace.partial_cmp_spec(&r) is None,
        r.partial_cmp_spec(&Rank::Ace) is None,
        Rank::Ace.partial_cmp_spec(&Rank::Ace) == Some(Ordering::Equal),
{
}

/// In the total order an Ace is greater than every other well-formed rank.
pub proof fn lemma_total_cmp_ace(r: Rank)
    requires
        r.wf(),
        r != Rank::Ace,
    ensures
        Rank::Ace.total_cmp_spec(r) == Ordering::Greater,
        r.total_cmp_spec(Rank::Ace) == Ordering::Less,
{
}

/// The partial and the total order agree on a pair of ranks exactly when
/// both or neither of them is an Ace.
pub proof fn lemma_orders_disagree_on_ace(a: Rank, b: Rank)
    ensures
        (a.partial_cmp_spec(&b) == Some(a.total_cmp_spec(b))) <==> ((a is Ace) == (b is Ace)),
{
}

/// A card text fails with `InvalidCardLength` exactly when it is not two or
/// three characters long; that error then carries the whole text.
pub proof fn lemma_card_length(s: Seq<char>)
    ensures
        (parse_card(s) matches Err(ParseErrorView::InvalidCardLength(t))) <==> (s.len() < 2
            || s.len() > 3),
        parse_card(s) matches Err(ParseErrorView::InvalidCardLength(t)) ==> t == s,
{
}

} // verus!
