//! Where requests go: the `out=` token, and the engines a build holds.

use vstd::prelude::*;
use crate::error::{ParseError, ParseErrorView};
use crate::scheme::{ENDPOINT_SCHEME, PYTHON_STR_SCHEME};
use crate::text::{str_eq, strip_prefix};

verus! {

/// The engines that a build may leave out. The echo engines, endpoints,
/// sglang and vllm are in every build.
#[derive(Debug, Clone, Copy, PartialEq, Eq, Structural)]
pub struct Capabilities {
    /// Inference with mistral.rs, in process.
    pub mistralrs: bool,
    /// Inference with llama.cpp, in process.
    pub llamacpp: bool,
    /// Engines given as a Python script.
    pub python: bool,
}

/// The sink of requests.
#[derive(Debug)]
pub enum Output {
    /// Accept un-preprocessed requests, echo the prompt back as the response
    EchoFull,
    /// Accept preprocessed requests, echo the tokens back as the response
    EchoCore,
    /// Publish requests to a namespace/component/endpoint path.
    Endpoint(String),
    /// Run inference on a model in a GGUF file using mistralrs w/ candle
    MistralRs,
    /// Run inference using llama.cpp
    LlamaCpp,
    /// Run inference using sglang
    SgLang,
    /// Run inference using vllm, started in a sub-process
    Vllm,
    /// Run inference using a user supplied python file that accepts and
    /// returns strings. It does its own pre-processing.
    PythonStr(String),
}

/// What an [`Output`] stands for.
pub enum OutputView {
    EchoFull,
    EchoCore,
    /// The address, without the scheme.
    Endpoint(Seq<char>),
    MistralRs,
    LlamaCpp,
    SgLang,
    Vllm,
    /// The path of the script.
    PythonStr(Seq<char>),
}

impl Capabilities {
    /// Whether a build with these capabilities holds the mode.
    pub open spec fn enables(self, mode: OutputView) -> bool {
        match mode {
            OutputView::MistralRs => self.mistralrs,
            OutputView::LlamaCpp => self.llamacpp,
            OutputView::PythonStr(_) => self.python,
            _ => true,
        }
    }
}

impl OutputView {
    /// Whether the mode holds text taken from its token.
    pub open spec fn has_payload(self) -> bool {
        self is Endpoint || self is PythonStr
    }

    /// The grammar of the `out=` token in a build with the capabilities
    /// `caps`: the name of an engine of that build, an endpoint address,
    /// of which the scheme is dropped, or the script scheme and a path.
    /// Every other token names nothing, the name of an engine that the
    /// build leaves out too.
    pub open spec fn parse(token: Seq<char>, caps: Capabilities) -> Option<OutputView> {
        if caps.mistralrs && token == "mistralrs"@ {
            Some(OutputView::MistralRs)
        } else if caps.llamacpp && (token == "llamacpp"@ || token == "llama_cpp"@) {
            Some(OutputView::LlamaCpp)
        } else if token == "sglang"@ {
            Some(OutputView::SgLang)
        } else if token == "vllm"@ {
            Some(OutputView::Vllm)
        } else if token == "echo_full"@ {
            Some(OutputView::EchoFull)
        } else if token == "echo_core"@ {
            Some(OutputView::EchoCore)
        } else if ENDPOINT_SCHEME@.is_prefix_of(token) {
            Some(OutputView::Endpoint(token.skip(ENDPOINT_SCHEME@.len() as int)))
        } else if caps.python && PYTHON_STR_SCHEME@.is_prefix_of(token) {
            Some(OutputView::PythonStr(token.skip(PYTHON_STR_SCHEME@.len() as int)))
        } else {
            None
        }
    }

    /// The text shown for a mode: the name of its engine, or the address of
    /// an endpoint. A script shows as `pystr`, whatever its path.
    pub open spec fn render(self) -> Seq<char> {
        match self {
            OutputView::MistralRs => "mistralrs"@,
            OutputView::LlamaCpp => "llamacpp"@,
            OutputView::SgLang => "sglang"@,
            OutputView::Vllm => "vllm"@,
            OutputView::EchoFull => "echo_full"@,
            OutputView::EchoCore => "echo_core"@,
            OutputView::Endpoint(address) => address,
            OutputView::PythonStr(_) => "pystr"@,
        }
    }

    /// The mode taken when no token is given: mistral.rs where the build
    /// holds it, else vllm.
    pub open spec fn fallback(caps: Capabilities) -> OutputView {
        if caps.mistralrs {
            OutputView::MistralRs
        } else {
            OutputView::Vllm
        }
    }

    /// The names of the engines of a build, in the order they are offered:
    /// the echo engines, the engines that run a model, then `pystr` for the
    /// scripts.
    pub open spec fn available_engines(caps: Capabilities) -> Seq<Seq<char>> {
        seq!["echo_core"@, "echo_full"@] + (if caps.mistralrs {
            seq!["mistralrs"@]
        } else {
            seq![]
        }) + (if caps.llamacpp {
            seq!["llamacpp"@]
        } else {
            seq![]
        }) + seq!["sglang"@, "vllm"@] + (if caps.python {
            seq!["pystr"@]
        } else {
            seq![]
        })
    }
}

impl View for Output {
    type V = OutputView;

    open spec fn view(&self) -> OutputView {
        match self {
            Output::EchoFull => OutputView::EchoFull,
            Output::EchoCore => OutputView::EchoCore,
            Output::Endpoint(address) => OutputView::Endpoint(address@),
            Output::MistralRs => OutputView::MistralRs,
            Output::LlamaCpp => OutputView::LlamaCpp,
            Output::SgLang => OutputView::SgLang,
            Output::Vllm => OutputView::Vllm,
            Output::PythonStr(path) => OutputView::PythonStr(path@),
        }
    }
}

impl Output {
    /// Reads an `out=` token in a build with the capabilities `caps`. A
    /// token of the grammar gives its mode; any other comes back in
    /// [`ParseError::InvalidSink`].
    pub fn try_from(s: &str, caps: Capabilities) -> (parsed: Result<Output, ParseError>)
        ensures
            match parsed {
                Ok(mode) => OutputView::parse(s@, caps) == Some(mode@),
                Err(e) => OutputView::parse(s@, caps) is None && e@ == ParseErrorView::InvalidSink(
                    s@,
                ),
            },
    {
        if caps.mistralrs && str_eq(s, "mistralrs") {
            return Ok(Output::MistralRs);
        }
        if caps.llamacpp && (str_eq(s, "llamacpp") || str_eq(s, "llama_cpp")) {
            return Ok(Output::LlamaCpp);
        }
        if str_eq(s, "sglang") {
            return Ok(Output::SgLang);
        }
        if str_eq(s, "vllm") {
            return Ok(Output::Vllm);
        }
        if str_eq(s, "echo_full") {
            return Ok(Output::EchoFull);
        }
        if str_eq(s, "echo_core") {
            return Ok(Output::EchoCore);
        }
        if let Some(path) = strip_prefix(s, ENDPOINT_SCHEME) {
            return Ok(Output::Endpoint(path.to_string()));
        }
        if caps.python {
            if let Some(path) = strip_prefix(s, PYTHON_STR_SCHEME) {
                return Ok(Output::PythonStr(path.to_string()));
            }
        }
        Err(ParseError::InvalidSink(s.to_string()))
    }

    /// The mode taken when no token is given.
    pub fn default(caps: Capabilities) -> (mode: Output)
        ensures
            mode@ == OutputView::fallback(caps),
    {
        if caps.mistralrs {
            Output::MistralRs
        } else {
            Output::Vllm
        }
    }

    /// The text shown for this mode.
    pub fn to_string(&self) -> (text: String)
        ensures
            text@ == self@.render(),
    {
        match self {
            Output::MistralRs => "mistralrs".to_string(),
            Output::LlamaCpp => "llamacpp".to_string(),
            Output::SgLang => "sglang".to_string(),
            Output::Vllm => "vllm".to_string(),
            Output::EchoFull => "echo_full".to_string(),
            Output::EchoCore => "echo_core".to_string(),
            Output::Endpoint(address) => address.clone(),
            Output::PythonStr(_) => "pystr".to_string(),
        }
    }

    /// The names of the engines of a build with the capabilities `caps`.
    pub fn available_engines(caps: Capabilities) -> (names: Vec<String>)
        ensures
            names.deep_view() == OutputView::available_engines(caps),
    {
        let mut out: Vec<String> = Vec::new();
        out.push("echo_core".to_string());
        out.push("echo_full".to_string());
        if caps.mistralrs {
            out.push(Output::MistralRs.to_string());
        }
        if caps.llamacpp {
            out.push(Output::LlamaCpp.to_string());
        }
        out.push(Output::SgLang.to_string());
        out.push(Output::Vllm.to_string());
        if caps.python {
            out.push(Output::PythonStr("file.py".to_string()).to_string());
        }
        out
    }
}

impl PartialEq for Output {
    fn eq(&self, other: &Output) -> (same: bool) {
        match (self, other) {
            (Output::EchoFull, Output::EchoFull) => true,
            (Output::EchoCore, Output::EchoCore) => true,
            (Output::Endpoint(a), Output::Endpoint(b)) => *a == *b,
            (Output::MistralRs, Output::MistralRs) => true,
            (Output::LlamaCpp, Output::LlamaCpp) => true,
            (Output::SgLang, Output::SgLang) => true,
            (Output::Vllm, Output::Vllm) => true,
            (Output::PythonStr(a), Output::PythonStr(b)) => *a == *b,
            _ => false,
        }
    }
}

impl vstd::std_specs::cmp::PartialEqSpecImpl for Output {
    open spec fn obeys_eq_spec() -> bool {
        true
    }

    open spec fn eq_spec(&self, other: &Output) -> bool {
        self@ == other@
    }
}

} // verus!
