use std::cmp::Ordering;
use std::convert::TryFrom;

use cards::{Card, ParseError, Rank, Suit};

fn card(s: &str) -> Card {
    Card::try_from(s).unwrap()
}

#[test]
fn rank_codes_give_their_strength() {
    let cases: Vec<(&str, u8)> = vec![
        ("A", 14),
        ("K", 13),
        ("Q", 12),
        ("J", 11),
        ("T", 10),
        ("10", 10),
        ("2", 2),
        ("3", 3),
        ("4", 4),
        ("5", 5),
        ("6", 6),
        ("7", 7),
        ("8", 8),
        ("9", 9),
    ];
    for (code, value) in cases {
        let r = Rank::try_from(code).unwrap();
        assert_eq!(u8::from(r), value, "code {}", code);
    }
    assert_eq!(Rank::try_from("7").unwrap(), Rank::Spot(7));
    assert_eq!(Rank::try_from("10").unwrap(), Rank::Ten);
}

#[test]
fn rank_parse_errors() {
    assert_eq!(Rank::try_from(""), Err(ParseError::EmptyRank));
    assert_eq!(
        Rank::try_from("XY"),
        Err(ParseError::OverlongRank("XY".to_string()))
    );
    assert_eq!(
        Rank::try_from("11"),
        Err(ParseError::OverlongRank("11".to_string()))
    );
    assert_eq!(
        Rank::try_from("100"),
        Err(ParseError::OverlongRank("100".to_string()))
    );
    assert_eq!(
        Rank::try_from("0"),
        Err(ParseError::InvalidRank("0".to_string()))
    );
    assert_eq!(
        Rank::try_from("1"),
        Err(ParseError::InvalidRank("1".to_string()))
    );
    assert_eq!(
        Rank::try_from("a"),
        Err(ParseError::InvalidRank("a".to_string()))
    );
}

#[test]
fn rank_parse_is_total_on_nonempty_text() {
    let inputs = ["A", "Z", "1", "9", "10", "AK", "abc", " "];
    for s in inputs {
        match Rank::try_from(s) {
            Ok(r) => assert!(u8::from(r) >= 2 && u8::from(r) <= 14),
            Err(ParseError::OverlongRank(t)) | Err(ParseError::InvalidRank(t)) => {
                assert_eq!(t, s)
            }
            Err(e) => panic!("unexpected error {:?} for {:?}", e, s),
        }
    }
}

#[test]
fn suit_parse() {
    assert_eq!(Suit::try_from("C"), Ok(Suit::Clubs));
    assert_eq!(Suit::try_from("H"), Ok(Suit::Hearts));
    assert_eq!(Suit::try_from("D"), Ok(Suit::Diamonds));
    assert_eq!(Suit::try_from("S"), Ok(Suit::Spades));
    for bad in ["", "s", "SS", " S", "X"] {
        assert_eq!(
            Suit::try_from(bad),
            Err(ParseError::InvalidSuit(bad.to_string()))
        );
    }
}

#[test]
fn defaults() {
    assert_eq!(Suit::default(), Suit::Spades);
    assert_eq!(Rank::default(), Rank::Ace);
    let c = Card::default();
    assert_eq!(c.rank, Rank::Ace);
    assert_eq!(c.suit, Suit::Spades);
}

#[test]
fn partial_order_ace_is_unordered() {
    let others = [
        Rank::King,
        Rank::Queen,
        Rank::Jack,
        Rank::Ten,
        Rank::Spot(2),
        Rank::Spot(9),
    ];
    for r in others {
        assert_eq!(Rank::Ace.partial_cmp(&r), None);
        assert_eq!(r.partial_cmp(&Rank::Ace), None);
        assert!(!(Rank::Ace < r));
        assert!(!(Rank::Ace > r));
    }
    assert_eq!(Rank::Ace.partial_cmp(&Rank::Ace), Some(Ordering::Equal));
    assert_eq!(Rank::King.partial_cmp(&Rank::Queen), Some(Ordering::Greater));
    assert_eq!(Rank::Spot(3).partial_cmp(&Rank::Ten), Some(Ordering::Less));
    assert_eq!(Rank::Spot(5).partial_cmp(&Rank::Spot(5)), Some(Ordering::Equal));
}

#[test]
fn total_order_ace_is_highest() {
    let others = [
        Rank::King,
        Rank::Queen,
        Rank::Jack,
        Rank::Ten,
        Rank::Spot(2),
        Rank::Spot(9),
    ];
    for r in others {
        assert_eq!(Rank::Ace.cmp(&r), Ordering::Greater);
        assert_eq!(r.cmp(&Rank::Ace), Ordering::Less);
        assert_ne!(Rank::Ace.partial_cmp(&r), Some(Rank::Ace.cmp(&r)));
    }
    assert_eq!(Rank::Ace.cmp(&Rank::Ace), Ordering::Equal);
    assert_eq!(Rank::Jack.cmp(&Rank::Ten), Ordering::Greater);
    assert_eq!(Rank::Spot(2).cmp(&Rank::Spot(8)), Ordering::Less);
    assert_eq!(
        Rank::Jack.partial_cmp(&Rank::Ten),
        Some(Rank::Jack.cmp(&Rank::Ten))
    );
}

#[test]
fn card_length_boundary() {
    for bad in ["", "A", "10DS", "AAAA"] {
        assert_eq!(
            Card::try_from(bad),
            Err(ParseError::InvalidCardLength(bad.to_string()))
        );
    }
    let ten = card("10D");
    assert_eq!(ten.rank, Rank::Ten);
    assert_eq!(ten.suit, Suit::Diamonds);
    let nine = card("9H");
    assert_eq!(nine.rank, Rank::Spot(9));
    assert_eq!(nine.suit, Suit::Hearts);
}

#[test]
fn ace_and_king_of_spades() {
    let a = card("AS");
    let k = card("KS");
    assert!(a == Card::new(Rank::Ace, Suit::Spades));
    assert!(k == Card::new(Rank::King, Suit::Spades));
    assert_eq!(a.cmp(&k), Ordering::Greater);
    assert_eq!(k.cmp(&a), Ordering::Less);
}

#[test]
fn empty_card_text() {
    assert_eq!(
        Card::try_from(""),
        Err(ParseError::InvalidCardLength(String::new()))
    );
}

#[test]
fn unknown_rank_in_card() {
    assert_eq!(
        Card::try_from("XH"),
        Err(ParseError::InvalidRank("X".to_string()))
    );
}

#[test]
fn ten_of_clubs_and_rank_one() {
    let c = card("10C");
    assert!(c == Card::new(Rank::Ten, Suit::Clubs));
    assert_eq!(
        Card::try_from("1C"),
        Err(ParseError::InvalidRank("1".to_string()))
    );
}

#[test]
fn ace_and_deuce_are_unordered() {
    assert_eq!(card("AS").partial_cmp(&card("2H")), None);
    assert_eq!(card("2H").partial_cmp(&card("AS")), None);
}

#[test]
fn card_errors_are_passed_on() {
    assert_eq!(
        Card::try_from("AX"),
        Err(ParseError::InvalidSuit("X".to_string()))
    );
    assert_eq!(
        Card::try_from("KSS"),
        Err(ParseError::OverlongRank("KS".to_string()))
    );
    assert_eq!(
        Card::try_from("10d"),
        Err(ParseError::InvalidSuit("d".to_string()))
    );
}

#[test]
fn card_equality_and_order_ignore_suit_only_in_order() {
    let kh = card("KH");
    let ks = card("KS");
    assert!(kh != ks);
    assert!(kh == card("KH"));
    assert_eq!(kh.partial_cmp(&ks), Some(Ordering::Equal));
    assert_eq!(kh.cmp(&ks), Ordering::Equal);
    assert_eq!(card("2C").cmp(&card("TC")), Ordering::Less);
    assert!(card("QD") > card("JD"));
}

#[test]
fn error_messages() {
    assert_eq!(
        ParseError::InvalidSuit("X".to_string()).message(),
        "invalid suit: X"
    );
    assert_eq!(ParseError::EmptyRank.message(), "empty rank");
    assert_eq!(
        ParseError::OverlongRank("XY".to_string()).message(),
        "overlong rank: XY"
    );
    assert_eq!(
        ParseError::InvalidRank("1".to_string()).message(),
        "invalid rank: 1"
    );
    assert_eq!(
        ParseError::InvalidCardLength("AAAA".to_string()).message(),
        "invalid card description length: AAAA"
    );
}
