//! What the process can tell of its standard input.
//!
//! Verified code calls `std::io::stdin().is_terminal()` as it stands. The
//! answer is the operating system's, so nothing is claimed of it here: the
//! caller has to be right for both answers.

use vstd::prelude::*;

verus! {

/// `std::io::Stdin`, the handle to standard input, carried as it is.
#[verifier::external_type_specification]
#[verifier::external_body]
pub struct ExStdin(std::io::Stdin);

/// `std::io::stdin` gives a handle to the standard input of the process.
/// Nothing is claimed of the handle.
pub assume_specification[ std::io::stdin ]() -> (handle: std::io::Stdin);

/// `IsTerminal::is_terminal` asks the operating system whether the handle
/// is a terminal. Nothing is claimed of the answer.
pub assume_specification[ <std::io::Stdin as std::io::IsTerminal>::is_terminal ](
    handle: &std::io::Stdin,
) -> (attached: bool);

} // verus!
