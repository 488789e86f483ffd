use dynamo_run::{Capabilities, Output, ParseError};

const FULL: Capabilities = Capabilities { mistralrs: true, llamacpp: true, python: true };
const USUAL: Capabilities = Capabilities { mistralrs: true, llamacpp: false, python: false };
const BARE: Capabilities = Capabilities { mistralrs: false, llamacpp: false, python: false };

fn turned_down(token: &str) -> Result<Output, ParseError> {
    Err(ParseError::InvalidSink(token.to_string()))
}

#[test]
fn echo_engines_are_in_every_build() {
    for caps in [FULL, USUAL, BARE] {
        assert_eq!(Output::try_from("echo_full", caps), Ok(Output::EchoFull));
        assert_eq!(Output::try_from("echo_core", caps), Ok(Output::EchoCore));
    }
}

#[test]
fn sglang_and_vllm_are_in_every_build() {
    for caps in [FULL, USUAL, BARE] {
        assert_eq!(Output::try_from("sglang", caps), Ok(Output::SgLang));
        assert_eq!(Output::try_from("vllm", caps), Ok(Output::Vllm));
    }
}

#[test]
fn mistralrs_is_read_where_the_build_holds_it() {
    assert_eq!(Output::try_from("mistralrs", FULL), Ok(Output::MistralRs));
    assert_eq!(Output::try_from("mistralrs", USUAL), Ok(Output::MistralRs));
    assert_eq!(Output::try_from("mistralrs", BARE), turned_down("mistralrs"));
}

#[test]
fn llamacpp_has_two_spellings() {
    assert_eq!(Output::try_from("llamacpp", FULL), Ok(Output::LlamaCpp));
    assert_eq!(Output::try_from("llama_cpp", FULL), Ok(Output::LlamaCpp));
    assert_eq!(Output::try_from("llamacpp", USUAL), turned_down("llamacpp"));
    assert_eq!(Output::try_from("llama_cpp", USUAL), turned_down("llama_cpp"));
}

#[test]
fn sink_endpoint_loses_the_scheme() {
    for caps in [FULL, USUAL, BARE] {
        assert_eq!(
            Output::try_from("dyn://ns.comp.ep", caps),
            Ok(Output::Endpoint("ns.comp.ep".to_string()))
        );
    }
}

#[test]
fn sink_endpoint_of_the_scheme_alone_is_empty() {
    assert_eq!(Output::try_from("dyn://", BARE), Ok(Output::Endpoint(String::new())));
}

#[test]
fn sink_endpoint_loses_the_scheme_once() {
    assert_eq!(
        Output::try_from("dyn://dyn://a", BARE),
        Ok(Output::Endpoint("dyn://a".to_string()))
    );
}

#[test]
fn script_token_gives_the_path_after_the_scheme() {
    assert_eq!(
        Output::try_from("pystr:/opt/engine.py", FULL),
        Ok(Output::PythonStr("/opt/engine.py".to_string()))
    );
    assert_eq!(Output::try_from("pystr:", FULL), Ok(Output::PythonStr(String::new())));
}

#[test]
fn script_token_is_turned_down_without_the_capability() {
    assert_eq!(Output::try_from("pystr:/opt/engine.py", USUAL), turned_down("pystr:/opt/engine.py"));
    assert_eq!(Output::try_from("pystr:/opt/engine.py", BARE), turned_down("pystr:/opt/engine.py"));
}

#[test]
fn sink_payload_may_hold_any_characters() {
    assert_eq!(
        Output::try_from("dyn://名前.comp.ep", BARE),
        Ok(Output::Endpoint("名前.comp.ep".to_string()))
    );
    assert_eq!(
        Output::try_from("pystr:/opt/рушій.py", FULL),
        Ok(Output::PythonStr("/opt/рушій.py".to_string()))
    );
}

#[test]
fn bogus_sink_is_turned_down_with_the_token() {
    for caps in [FULL, USUAL, BARE] {
        assert_eq!(Output::try_from("bogus", caps), turned_down("bogus"));
    }
}

#[test]
fn near_misses_of_the_sink_grammar_are_turned_down() {
    for token in [
        "", "VLLM", "vllm ", " vllm", "vll", "sg_lang", "echo", "echo_", "echo_full2", "echocore",
        "mistral", "mistral_rs", "llama-cpp", "llama_cpp_", "dyn:/", "dyn:/x", "xdyn://a", "pystr",
        "pystr/x", "PYSTR:x", "pytok:x", "http", "stdin", "text", "batch:x",
    ] {
        assert_eq!(Output::try_from(token, FULL), turned_down(token));
    }
}

#[test]
fn engine_names_show_as_themselves() {
    for token in ["echo_full", "echo_core", "mistralrs", "llamacpp", "sglang", "vllm"] {
        let mode = Output::try_from(token, FULL).unwrap();
        assert_eq!(mode.to_string(), token);
        assert_eq!(Output::try_from(&mode.to_string(), FULL), Ok(mode));
    }
}

#[test]
fn second_spelling_of_llamacpp_shows_as_the_first() {
    let mode = Output::try_from("llama_cpp", FULL).unwrap();
    assert_eq!(mode.to_string(), "llamacpp");
}

#[test]
fn sink_modes_show_their_name_or_their_address() {
    assert_eq!(Output::EchoFull.to_string(), "echo_full");
    assert_eq!(Output::EchoCore.to_string(), "echo_core");
    assert_eq!(Output::MistralRs.to_string(), "mistralrs");
    assert_eq!(Output::LlamaCpp.to_string(), "llamacpp");
    assert_eq!(Output::SgLang.to_string(), "sglang");
    assert_eq!(Output::Vllm.to_string(), "vllm");
    assert_eq!(Output::Endpoint("ns.comp.ep".to_string()).to_string(), "ns.comp.ep");
}

#[test]
fn script_shows_as_pystr_whatever_its_path() {
    assert_eq!(Output::PythonStr("/opt/engine.py".to_string()).to_string(), "pystr");
    assert_eq!(Output::PythonStr(String::new()).to_string(), "pystr");
}

#[test]
fn sink_endpoint_shown_does_not_name_the_mode_again() {
    let mode = Output::try_from("dyn://ns.comp.ep", FULL).unwrap();
    assert_eq!(mode.to_string(), "ns.comp.ep");
    assert_eq!(Output::try_from(&mode.to_string(), FULL), turned_down("ns.comp.ep"));
}

#[test]
fn the_same_address_is_kept_whole_as_source_and_stripped_as_sink() {
    let token = "dyn://ns.comp.ep";
    assert_eq!(
        dynamo_run::Input::try_from(token),
        Ok(dynamo_run::Input::Endpoint("dyn://ns.comp.ep".to_string()))
    );
    assert_eq!(Output::try_from(token, USUAL), Ok(Output::Endpoint("ns.comp.ep".to_string())));
}

#[test]
fn default_sink_is_mistralrs_where_the_build_holds_it() {
    assert_eq!(Output::default(FULL), Output::MistralRs);
    assert_eq!(Output::default(USUAL), Output::MistralRs);
    assert_eq!(
        Output::default(Capabilities { mistralrs: true, llamacpp: false, python: true }),
        Output::MistralRs
    );
}

#[test]
fn default_sink_is_vllm_without_mistralrs() {
    assert_eq!(Output::default(BARE), Output::Vllm);
    assert_eq!(
        Output::default(Capabilities { mistralrs: false, llamacpp: true, python: true }),
        Output::Vllm
    );
}

#[test]
fn sink_modes_compare_by_kind_and_text() {
    assert_eq!(Output::Vllm, Output::Vllm);
    assert_ne!(Output::Vllm, Output::SgLang);
    assert_ne!(Output::EchoFull, Output::EchoCore);
    assert_eq!(Output::Endpoint("a".to_string()), Output::Endpoint("a".to_string()));
    assert_ne!(Output::Endpoint("a".to_string()), Output::Endpoint("b".to_string()));
    assert_ne!(Output::Endpoint("a".to_string()), Output::PythonStr("a".to_string()));
}
