//! The two ways a token can be turned down.

use vstd::prelude::*;
use vstd::string::StringExecFns;

verus! {

/// A token that matched no form of its grammar. Each kind carries the token
/// as it was given, so that a message can show it.
#[derive(Debug)]
pub enum ParseError {
    /// The `in=` token names no request source.
    InvalidSource(String),
    /// The `out=` token names no request sink.
    InvalidSink(String),
}

/// What a [`ParseError`] stands for.
pub enum ParseErrorView {
    InvalidSource(Seq<char>),
    InvalidSink(Seq<char>),
}

impl ParseErrorView {
    /// The token that was turned down.
    pub open spec fn token(self) -> Seq<char> {
        match self {
            ParseErrorView::InvalidSource(token) => token,
            ParseErrorView::InvalidSink(token) => token,
        }
    }

    /// The line shown to the user: the option's name, then the token in
    /// single quotes.
    pub open spec fn message(self) -> Seq<char> {
        match self {
            ParseErrorView::InvalidSource(token) => "Invalid in= option '"@ + token + "'"@,
            ParseErrorView::InvalidSink(token) => "Invalid out= option '"@ + token + "'"@,
        }
    }
}

impl View for ParseError {
    type V = ParseErrorView;

    open spec fn view(&self) -> ParseErrorView {
        match self {
            ParseError::InvalidSource(token) => ParseErrorView::InvalidSource(token@),
            ParseError::InvalidSink(token) => ParseErrorView::InvalidSink(token@),
        }
    }
}

impl ParseError {
    /// The token that was turned down, unchanged.
    pub fn token(&self) -> (token: &str)
        ensures
            token@ == self@.token(),
    {
        match self {
            ParseError::InvalidSource(token) => token.as_str(),
            ParseError::InvalidSink(token) => token.as_str(),
        }
    }

    /// The message for the user.
    pub fn to_string(&self) -> (line: String)
        ensures
            line@ == self@.message(),
    {
        match self {
            ParseError::InvalidSource(token) => String::from_str("Invalid in= option '").concat(
                token.as_str(),
            ).concat("'"),
            ParseError::InvalidSink(token) => String::from_str("Invalid out= option '").concat(
                token.as_str(),
            ).concat("'"),
        }
    }
}

impl PartialEq for ParseError {
    fn eq(&self, other: &ParseError) -> (same: bool) {
        match (self, other) {
            (ParseError::InvalidSource(a), ParseError::InvalidSource(b)) => *a == *b,
            (ParseError::InvalidSink(a), ParseError::InvalidSink(b)) => *a == *b,
            _ => false,
        }
    }
}

impl vstd::std_specs::cmp::PartialEqSpecImpl for ParseError {
    open spec fn obeys_eq_spec() -> bool {
        true
    }

    open spec fn eq_spec(&self, other: &ParseError) -> bool {
        self@ == other@
    }
}

} // verus!
