//! Mode resolution for the launcher: turns the `in=` and `out=` tokens into
//! typed request sources and request sinks.
//!
//! [`Input`] says where requests come from, [`Output`] which engine takes
//! them. Both are read from a token by `try_from` and shown by `to_string`;
//! the grammar of each is a spec function on the token's characters, and
//! [`laws`] proves what the two grammars promise.

pub mod error;
pub mod input;
pub mod laws;
pub mod output;
pub mod scheme;
pub mod terminal;
pub mod text;

pub use error::{ParseError, ParseErrorView};
pub use input::{Input, InputView};
pub use output::{Capabilities, Output, OutputView};
pub use scheme::{BATCH_PREFIX, ENDPOINT_SCHEME, PYTHON_STR_SCHEME};
