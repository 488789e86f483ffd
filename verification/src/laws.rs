//! What holds of the two grammars, for every token and every build.

use vstd::prelude::*;
use crate::input::InputView;
use crate::output::{Capabilities, OutputView};
use crate::scheme::{BATCH_PREFIX, ENDPOINT_SCHEME, PYTHON_STR_SCHEME};

verus! {

/// How many forms of the `in=` grammar the token has.
pub open spec fn input_forms_matched(token: Seq<char>) -> int {
    (if token == "http"@ { 1int } else { 0int })
    + (if token == "text"@ { 1int } else { 0int })
    + (if token == "stdin"@ { 1int } else { 0int })
    + (if ENDPOINT_SCHEME@.is_prefix_of(token) { 1int } else { 0int })
    + (if BATCH_PREFIX@.is_prefix_of(token) { 1int } else { 0int })
}

/// How many forms of the `out=` grammar the token has, in a build that
/// holds every engine.
pub open spec fn output_forms_matched(token: Seq<char>) -> int {
    (if token == "mistralrs"@ { 1int } else { 0int })
    + (if token == "llamacpp"@ { 1int } else { 0int })
    + (if token == "llama_cpp"@ { 1int } else { 0int })
    + (if token == "sglang"@ { 1int } else { 0int })
    + (if token == "vllm"@ { 1int } else { 0int })
    + (if token == "echo_full"@ { 1int } else { 0int })
    + (if token == "echo_core"@ { 1int } else { 0int })
    + (if ENDPOINT_SCHEME@.is_prefix_of(token) { 1int } else { 0int })
    + (if PYTHON_STR_SCHEME@.is_prefix_of(token) { 1int } else { 0int })
}

proof fn reveal_input_literals()
    ensures
        "http"@ == seq!['h', 't', 't', 'p'],
        "text"@ == seq!['t', 'e', 'x', 't'],
        "stdin"@ == seq!['s', 't', 'd', 'i', 'n'],
        ENDPOINT_SCHEME@ == seq!['d', 'y', 'n', ':', '/', '/'],
        BATCH_PREFIX@ == seq!['b', 'a', 't', 'c', 'h', ':'],
{
    reveal_strlit("http");
    reveal_strlit("text");
    reveal_strlit("stdin");
    reveal_strlit("dyn://");
    reveal_strlit("batch:");
}

/// No `in=` token has two forms of the grammar, and the tokens that name a
/// mode are those that have one.
pub proof fn input_forms_exclusive(token: Seq<char>)
    ensures
        input_forms_matched(token) <= 1,
        InputView::parse(token) is Some <==> input_forms_matched(token) == 1,
{
    reveal_input_literals();
}

/// A keyword of the `in=` grammar shows as itself: where a token names a
/// mode that holds no text of its own, the mode's text is the token.
pub proof fn input_render_inverts_parse(token: Seq<char>, mode: InputView)
    requires
        InputView::parse(token) == Some(mode),
        !mode.has_payload(),
    ensures
        mode.render() == token,
{
}

/// The text of a mode that holds no text of its own names that mode again.
pub proof fn input_parse_inverts_render(mode: InputView)
    requires
        !mode.has_payload(),
    ensures
        InputView::parse(mode.render()) == Some(mode),
{
    reveal_input_literals();
}

/// An endpoint address given as `in=` is kept whole: it is the token, it
/// begins with the scheme, and so it is never empty.
pub proof fn input_endpoint_keeps_token(token: Seq<char>, address: Seq<char>)
    requires
        InputView::parse(token) == Some(InputView::Endpoint(address)),
    ensures
        address == token,
        ENDPOINT_SCHEME@.is_prefix_of(address),
        address.len() > 0,
        InputView::Endpoint(address).render() == token,
{
    reveal_input_literals();
}

/// The path of a batch file is what follows `batch:` in the token. It shows
/// without the prefix, and what it shows never names the mode again.
pub proof fn input_batch_drops_prefix(token: Seq<char>, path: Seq<char>)
    requires
        InputView::parse(token) == Some(InputView::Batch(path)),
    ensures
        token == BATCH_PREFIX@ + path,
        InputView::Batch(path).render() == path,
        InputView::parse(path) != Some(InputView::Batch(path)),
{
    reveal_input_literals();
}

proof fn reveal_output_literals()
    ensures
        "mistralrs"@ == seq!['m', 'i', 's', 't', 'r', 'a', 'l', 'r', 's'],
        "llamacpp"@ == seq!['l', 'l', 'a', 'm', 'a', 'c', 'p', 'p'],
        "llama_cpp"@ == seq!['l', 'l', 'a', 'm', 'a', '_', 'c', 'p', 'p'],
        "sglang"@ == seq!['s', 'g', 'l', 'a', 'n', 'g'],
        "vllm"@ == seq!['v', 'l', 'l', 'm'],
        "echo_full"@ == seq!['e', 'c', 'h', 'o', '_', 'f', 'u', 'l', 'l'],
        "echo_core"@ == seq!['e', 'c', 'h', 'o', '_', 'c', 'o', 'r', 'e'],
        "pystr"@ == seq!['p', 'y', 's', 't', 'r'],
        ENDPOINT_SCHEME@ == seq!['d', 'y', 'n', ':', '/', '/'],
        PYTHON_STR_SCHEME@ == seq!['p', 'y', 's', 't', 'r', ':'],
{
    reveal_strlit("mistralrs");
    reveal_strlit("llamacpp");
    reveal_strlit("llama_cpp");
    reveal_strlit("sglang");
    reveal_strlit("vllm");
    reveal_strlit("echo_full");
    reveal_strlit("echo_core");
    reveal_strlit("pystr");
    reveal_strlit("dyn://");
    reveal_strlit("pystr:");
}

/// No `out=` token has two forms of the grammar. A token that names a mode
/// has one form, and in a build that holds every engine each token of one
/// form names a mode.
pub proof fn output_forms_exclusive(token: Seq<char>, caps: Capabilities)
    ensures
        output_forms_matched(token) <= 1,
        OutputView::parse(token, caps) is Some ==> output_forms_matched(token) == 1,
        caps.mistralrs && caps.llamacpp && caps.python ==> (OutputView::parse(token, caps) is Some
            <==> output_forms_matched(token) == 1),
{
    reveal_output_literals();
}

/// The name of an engine shows as itself: where a token names a mode that
/// holds no text of its own, the mode's text is the token. The one token
/// left out is `llama_cpp`, a second spelling of `llamacpp`.
pub proof fn output_render_inverts_parse(token: Seq<char>, caps: Capabilities, mode: OutputView)
    requires
        OutputView::parse(token, caps) == Some(mode),
        !mode.has_payload(),
        token != "llama_cpp"@,
    ensures
        mode.render() == token,
{
}

/// In a build that holds the mode, the text of a mode that holds no text of
/// its own names that mode again.
pub proof fn output_parse_inverts_render(mode: OutputView, caps: Capabilities)
    requires
        !mode.has_payload(),
        caps.enables(mode),
    ensures
        OutputView::parse(mode.render(), caps) == Some(mode),
{
    reveal_output_literals();
}

/// A token names only modes that the build holds.
pub proof fn output_parse_enabled(token: Seq<char>, caps: Capabilities, mode: OutputView)
    requires
        OutputView::parse(token, caps) == Some(mode),
    ensures
        caps.enables(mode),
{
}

/// An endpoint address given as `out=` loses the scheme: the token is the
/// scheme and then the address. The address shows without the scheme, and
/// what it shows never names the mode again.
pub proof fn output_endpoint_drops_scheme(
    token: Seq<char>,
    caps: Capabilities,
    address: Seq<char>,
)
    requires
        OutputView::parse(token, caps) == Some(OutputView::Endpoint(address)),
    ensures
        token == ENDPOINT_SCHEME@ + address,
        OutputView::Endpoint(address).render() == address,
        OutputView::parse(address, caps) != Some(OutputView::Endpoint(address)),
{
    reveal_output_literals();
}

/// The path of a script is what follows the script scheme in the token,
/// and only a build that holds the scripts reads such a token. Whatever
/// the path, the mode shows as `pystr`, which is no token of any build.
pub proof fn output_script_drops_scheme(token: Seq<char>, caps: Capabilities, path: Seq<char>)
    requires
        OutputView::parse(token, caps) == Some(OutputView::PythonStr(path)),
    ensures
        caps.python,
        token == PYTHON_STR_SCHEME@ + path,
        OutputView::PythonStr(path).render() == "pystr"@,
        OutputView::parse("pystr"@, caps) is None,
{
    reveal_output_literals();
}

/// No name is offered twice.
pub proof fn engines_distinct(caps: Capabilities)
    ensures
        OutputView::available_engines(caps).no_duplicates(),
{
    reveal_output_literals();
}

/// Every name that is offered, but `pystr`, is a token of the build: it
/// names a mode that holds no text of its own, and that mode shows as the
/// name.
pub proof fn engines_parse(caps: Capabilities, i: int)
    requires
        0 <= i < OutputView::available_engines(caps).len(),
        OutputView::available_engines(caps)[i] != "pystr"@,
    ensures
        OutputView::parse(OutputView::available_engines(caps)[i], caps) is Some,
        !OutputView::parse(OutputView::available_engines(caps)[i], caps).unwrap().has_payload(),
        OutputView::parse(OutputView::available_engines(caps)[i], caps).unwrap().render()
            == OutputView::available_engines(caps)[i],
{
    reveal_output_literals();
}

/// Every mode that a token can name and that holds no text of its own is
/// offered under the text it shows.
pub proof fn parsed_engine_listed(token: Seq<char>, caps: Capabilities, mode: OutputView)
    requires
        OutputView::parse(token, caps) == Some(mode),
        !mode.has_payload(),
    ensures
        OutputView::available_engines(caps).contains(mode.render()),
{
    let names = OutputView::available_engines(caps);
    assert(names[0] == "echo_core"@);
    assert(names[1] == "echo_full"@);
    assert(names[names.len() - 1] == "vllm"@ || names[names.len() - 2] == "vllm"@);
    assert(names[names.len() - 2] == "sglang"@ || names[names.len() - 3] == "sglang"@);
    if caps.mistralrs {
        assert(names[2] == "mistralrs"@);
    }
    if caps.llamacpp {
        assert(names[2] == "llamacpp"@ || names[3] == "llamacpp"@);
    }
}

/// A prefix and any text after it make a token of the `in=` grammar: a
/// batch file of that path, or the endpoint of that whole address.
pub proof fn input_payload_tokens(text: Seq<char>)
    ensures
        InputView::parse(BATCH_PREFIX@ + text) == Some(InputView::Batch(text)),
        InputView::parse(ENDPOINT_SCHEME@ + text) == Some(
            InputView::Endpoint(ENDPOINT_SCHEME@ + text),
        ),
{
    reveal_input_literals();
    let batch = BATCH_PREFIX@ + text;
    assert(batch.skip(BATCH_PREFIX@.len() as int) =~= text);
}

/// The endpoint scheme and any address after it make a token of the `out=`
/// grammar in every build, and the script scheme and any path after it make
/// one in the builds that hold the scripts.
pub proof fn output_payload_tokens(text: Seq<char>, caps: Capabilities)
    ensures
        OutputView::parse(ENDPOINT_SCHEME@ + text, caps) == Some(OutputView::Endpoint(text)),
        caps.python ==> OutputView::parse(PYTHON_STR_SCHEME@ + text, caps) == Some(
            OutputView::PythonStr(text),
        ),
{
    reveal_output_literals();
    let endpoint = ENDPOINT_SCHEME@ + text;
    let script = PYTHON_STR_SCHEME@ + text;
    assert(endpoint.skip(ENDPOINT_SCHEME@.len() as int) =~= text);
    assert(script.skip(PYTHON_STR_SCHEME@.len() as int) =~= text);
}

/// A capability gates its engine on both sides at once. Some token names a
/// mode exactly in the builds that hold the mode; and, endpoints apart,
/// which are never offered, the text of a mode is offered exactly in those
/// builds too. So an engine that a build leaves out is neither read nor
/// offered there.
pub proof fn capability_gates_engine(caps: Capabilities, mode: OutputView)
    ensures
        (exists|token: Seq<char>| OutputView::parse(token, caps) == Some(mode)) <==> caps.enables(
            mode,
        ),
        !(mode is Endpoint) ==> (OutputView::available_engines(caps).contains(mode.render())
            <==> caps.enables(mode)),
{
    reveal_output_literals();
    let names = OutputView::available_engines(caps);
    if caps.enables(mode) {
        match mode {
            OutputView::Endpoint(address) => {
                output_payload_tokens(address, caps);
            },
            OutputView::PythonStr(path) => {
                output_payload_tokens(path, caps);
                assert(names[names.len() - 1] == "pystr"@);
            },
            _ => {
                output_parse_inverts_render(mode, caps);
                parsed_engine_listed(mode.render(), caps, mode);
            },
        }
    }
}

} // verus!
