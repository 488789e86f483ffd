//! Where requests come from: the `in=` token.

use vstd::prelude::*;
use std::io::IsTerminal;
use crate::error::{ParseError, ParseErrorView};
use crate::scheme::{BATCH_PREFIX, ENDPOINT_SCHEME};
use crate::text::{starts_with, str_eq, strip_prefix};

verus! {

/// The source of requests.
#[derive(Debug)]
pub enum Input {
    /// Run an OpenAI compatible HTTP server
    Http,
    /// Single prompt on stdin
    Stdin,
    /// Interactive chat
    Text,
    /// Pull requests from a namespace/component/endpoint path.
    Endpoint(String),
    /// Batch mode. Run all the prompts, write the outputs, exit.
    Batch(String),
}

/// What an [`Input`] stands for.
pub enum InputView {
    Http,
    Stdin,
    Text,
    /// The address, scheme included.
    Endpoint(Seq<char>),
    /// The path of the file of prompts.
    Batch(Seq<char>),
}

impl InputView {
    /// Whether the mode holds text taken from its token.
    pub open spec fn has_payload(self) -> bool {
        self is Endpoint || self is Batch
    }

    /// The grammar of the `in=` token: three keywords, an endpoint address
    /// kept whole, or `batch:` and a path. Every other token names nothing.
    pub open spec fn parse(token: Seq<char>) -> Option<InputView> {
        if token == "http"@ {
            Some(InputView::Http)
        } else if token == "text"@ {
            Some(InputView::Text)
        } else if token == "stdin"@ {
            Some(InputView::Stdin)
        } else if ENDPOINT_SCHEME@.is_prefix_of(token) {
            Some(InputView::Endpoint(token))
        } else if BATCH_PREFIX@.is_prefix_of(token) {
            Some(InputView::Batch(token.skip(BATCH_PREFIX@.len() as int)))
        } else {
            None
        }
    }

    /// The text shown for a mode: its keyword, or the text it holds.
    pub open spec fn render(self) -> Seq<char> {
        match self {
            InputView::Http => "http"@,
            InputView::Text => "text"@,
            InputView::Stdin => "stdin"@,
            InputView::Endpoint(address) => address,
            InputView::Batch(path) => path,
        }
    }

    /// The mode taken when no token is given: a chat where a person is at
    /// the terminal, one prompt from the pipe where none is.
    pub open spec fn fallback(terminal: bool) -> InputView {
        if terminal {
            InputView::Text
        } else {
            InputView::Stdin
        }
    }
}

impl View for Input {
    type V = InputView;

    open spec fn view(&self) -> InputView {
        match self {
            Input::Http => InputView::Http,
            Input::Stdin => InputView::Stdin,
            Input::Text => InputView::Text,
            Input::Endpoint(address) => InputView::Endpoint(address@),
            Input::Batch(path) => InputView::Batch(path@),
        }
    }
}

impl Input {
    /// Reads an `in=` token. A token of the grammar gives its mode; any
    /// other comes back in [`ParseError::InvalidSource`].
    pub fn try_from(s: &str) -> (parsed: Result<Input, ParseError>)
        ensures
            match parsed {
                Ok(mode) => InputView::parse(s@) == Some(mode@),
                Err(e) => InputView::parse(s@) is None && e@ == ParseErrorView::InvalidSource(s@),
            },
    {
        if str_eq(s, "http") {
            Ok(Input::Http)
        } else if str_eq(s, "text") {
            Ok(Input::Text)
        } else if str_eq(s, "stdin") {
            Ok(Input::Stdin)
        } else if starts_with(s, ENDPOINT_SCHEME) {
            Ok(Input::Endpoint(s.to_string()))
        } else {
            match strip_prefix(s, BATCH_PREFIX) {
                Some(path) => Ok(Input::Batch(path.to_string())),
                None => Err(ParseError::InvalidSource(s.to_string())),
            }
        }
    }

    /// The mode taken when no token is given, from whether standard input
    /// is a terminal.
    pub fn from_terminal(terminal: bool) -> (mode: Input)
        ensures
            mode@ == InputView::fallback(terminal),
    {
        if terminal {
            Input::Text
        } else {
            Input::Stdin
        }
    }

    /// The text shown for this mode.
    pub fn to_string(&self) -> (text: String)
        ensures
            text@ == self@.render(),
    {
        match self {
            Input::Http => "http".to_string(),
            Input::Text => "text".to_string(),
            Input::Stdin => "stdin".to_string(),
            Input::Endpoint(address) => address.clone(),
            Input::Batch(path) => path.clone(),
        }
    }
}

impl Default for Input {
    /// The mode taken when no token is given: asks once whether standard
    /// input is a terminal, and goes by [`Input::from_terminal`].
    fn default() -> (mode: Input)
        ensures
            mode@ == InputView::fallback(true) || mode@ == InputView::fallback(false),
    {
        Input::from_terminal(std::io::stdin().is_terminal())
    }
}

impl PartialEq for Input {
    fn eq(&self, other: &Input) -> (same: bool) {
        match (self, other) {
            (Input::Http, Input::Http) => true,
            (Input::Stdin, Input::Stdin) => true,
            (Input::Text, Input::Text) => true,
            (Input::Endpoint(a), Input::Endpoint(b)) => *a == *b,
            (Input::Batch(a), Input::Batch(b)) => *a == *b,
            _ => false,
        }
    }
}

impl vstd::std_specs::cmp::PartialEqSpecImpl for Input {
    open spec fn obeys_eq_spec() -> bool {
        true
    }

    open spec fn eq_spec(&self, other: &Input) -> bool {
        self@ == other@
    }
}

} // verus!
