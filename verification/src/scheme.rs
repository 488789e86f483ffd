//! The fixed prefixes of the token grammar.

use vstd::prelude::*;

verus! {

/// The scheme of an endpoint address: what follows it is a
/// namespace/component/endpoint path.
pub const ENDPOINT_SCHEME: &'static str = "dyn://";

/// The prefix of an `in=` token that names a file of prompts.
pub const BATCH_PREFIX: &'static str = "batch:";

/// The prefix of an `out=` token that names a script to run as the engine.
pub const PYTHON_STR_SCHEME: &'static str = "pystr:";

} // verus!
