//! Playing cards, as used in poker: suits, ranks and cards, their short
//! textual notation, and the two orderings of ranks (one where an Ace stands
//! apart from the other ranks, one where it is highest).

mod card;
mod error;
mod laws;
mod rank;
mod suit;

pub use card::{parse_card, Card};
pub use error::{result_view, ParseError, ParseErrorView};
pub use rank::{compare_u8, parse_rank, rank_of_char, Rank};
pub use suit::{parse_suit, Suit};
pub use laws::{
    lemma_card_length, lemma_orders_disagree_on_ace, lemma_parse_rank_total,
    lemma_partial_cmp_ace, lemma_rank_code_strength, lemma_total_cmp_ace,
};
