use vstd::prelude::*;

verus! {

/// Why a piece of card notation was rejected. Each variant that has a payload
/// carries the offending text.
#[derive(Debug, Clone, PartialEq, Eq)]
pub enum ParseError {
    /// The text is not one of the suit codes `C`, `H`, `D`, `S`.
    InvalidSuit(String),
    /// The rank text is empty.
    EmptyRank,
    /// The rank text is two or more characters long and not `10`.
    OverlongRank(String),
    /// The rank text is a single character that names no rank.
    InvalidRank(String),
    /// The card text is not two or three characters long.
    InvalidCardLength(String),
}

/// The mathematical model of a `ParseError`: the same variants, with the
/// offending text as a sequence of characters.
pub enum ParseErrorView {
    InvalidSuit(Seq<char>),
    EmptyRank,
    OverlongRank(Seq<char>),
    InvalidRank(Seq<char>),
    InvalidCardLength(Seq<char>),
}

impl View for ParseError {
    type V = ParseErrorView;

    open spec fn view(&self) -> ParseErrorView {
        match self {
            ParseError::InvalidSuit(s) => ParseErrorView::InvalidSuit(s@),
            ParseError::EmptyRank => ParseErrorView::EmptyRank,
            ParseError::OverlongRank(s) => ParseErrorView::OverlongRank(s@),
            ParseError::InvalidRank(s) => ParseErrorView::InvalidRank(s@),
            ParseError::InvalidCardLength(s) => ParseErrorView::InvalidCardLength(s@),
        }
    }
}

impl ParseError {
    /// A human-readable description of the error that names the stage that
    /// failed and echoes the offending text.
    pub fn message(&self) -> (m: String)
        ensures
            m@ == match self@ {
                ParseErrorView::InvalidSuit(t) => "invalid suit: "@ + t,
                ParseErrorView::EmptyRank => "empty rank"@,
                ParseErrorView::OverlongRank(t) => "overlong rank: "@ + t,
                ParseErrorView::InvalidRank(t) => "invalid rank: "@ + t,
                ParseErrorView::InvalidCardLength(t) => "invalid card description length: "@ + t,
            },
    {
        match self {
            ParseError::InvalidSuit(t) => String::from_str("invalid suit: ").concat(t.as_str()),
            ParseError::EmptyRank => String::from_str("empty rank"),
            ParseError::OverlongRank(t) => String::from_str("overlong rank: ").concat(t.as_str()),
            ParseError::InvalidRank(t) => String::from_str("invalid rank: ").concat(t.as_str()),
            ParseError::InvalidCardLength(t) => String::from_str(
                "invalid card description length: ",
            ).concat(t.as_str()),
        }
    }
}

/// The model of a parse result: the value on success, the error's view on
/// failure.
pub open spec fn result_view<T>(r: Result<T, ParseError>) -> Result<T, ParseErrorView> {
    match r {
        Ok(v) => Ok(v),
        Err(e) => Err(e@),
    }
}

} // verus!
