use js_swc_adapter::error::{AdapterError, ConfigKey, DecodeError, EncodeError, ResultList};
use js_swc_adapter::invoke::invoke;
use js_swc_adapter::native;
use js_swc_adapter::outcome::{call, settle, CallOutcome};
use js_swc_adapter::read::read_result;
use js_swc_adapter::schema::{
    Config, Dependency, Diagnostic, Diagnostics, Flags, Output, Severity,
};
use js_swc_adapter::value::HostValue;
use js_swc_adapter::wasm;
use std::cell::Cell;

fn text(s: &str) -> HostValue {
    HostValue::Text(s.to_string())
}

fn record(members: Vec<(&str, HostValue)>) -> HostValue {
    HostValue::Record(members.into_iter().map(|(k, v)| (k.to_string(), v)).collect())
}

fn source(code: &str) -> HostValue {
    record(vec![("filename", text("a.js")), ("code", text(code))])
}

/// Stands in for the transform: appends a semicolon, and reports where an
/// expression is missing after `=`.
fn fake_transform(config: Config) -> Result<Output, Diagnostics> {
    match config.code.find("= ;") {
        Some(at) => Err(Diagnostics {
            entries: vec![Diagnostic {
                message: "Expression expected".to_string(),
                severity: Severity::Error,
                offset: at as u64 + 2,
            }],
        }),
        None => Ok(Output {
            code: format!("{};\n", config.code).into_bytes(),
            map: if config.flags.source_maps { Some("{}".to_string()) } else { None },
            dependencies: vec![],
        }),
    }
}

fn unrepresentable(_config: Config) -> Result<Output, Diagnostics> {
    Ok(Output {
        code: vec![],
        map: None,
        dependencies: vec![Dependency { specifier: "x".to_string(), offset: 1 << 60 }],
    })
}

fn expected_output() -> HostValue {
    record(vec![
        ("code", HostValue::Bytes(b"const x = 1;\n".to_vec())),
        ("map", HostValue::Undefined),
        ("dependencies", HostValue::List(vec![])),
    ])
}

fn expected_diagnostics() -> HostValue {
    record(vec![(
        "diagnostics",
        HostValue::List(vec![record(vec![
            ("message", text("Expression expected")),
            ("severity", text("error")),
            ("offset", HostValue::Number(10)),
        ])]),
    )])
}

#[test]
fn invoke_hands_back_what_the_transform_returned() {
    let config = Config {
        filename: "a.js".to_string(),
        code: "const x = 1".to_string(),
        flags: Flags { is_type_script: false, is_jsx: false, decorators: false, source_maps: true },
        target: None,
    };
    assert_eq!(
        invoke(config, fake_transform),
        Ok(Output {
            code: b"const x = 1;\n".to_vec(),
            map: Some("{}".to_string()),
            dependencies: vec![],
        })
    );
}

#[test]
fn invoke_hands_the_configuration_over_unchanged() {
    let config = Config {
        filename: "dir/b.ts".to_string(),
        code: "let y".to_string(),
        flags: Flags { is_type_script: true, is_jsx: false, decorators: true, source_maps: false },
        target: Some(5),
    };
    let expected = config.clone();
    let result = invoke(config, |seen: Config| {
        assert_eq!(seen, expected);
        Err(Diagnostics { entries: vec![] })
    });
    assert_eq!(result, Err(Diagnostics { entries: vec![] }));
}

#[test]
fn the_transform_is_called_once_per_call() {
    let calls = Cell::new(0);
    let outcome = call(&source("const x = 1"), |config: Config| {
        calls.set(calls.get() + 1);
        fake_transform(config)
    });
    assert_eq!(calls.get(), 1);
    assert_eq!(outcome, CallOutcome::Success(expected_output()));
}

#[test]
fn the_transform_is_not_called_on_a_decode_error() {
    let calls = Cell::new(0);
    let outcome = call(&record(vec![("filename", text("a.js"))]), |config: Config| {
        calls.set(calls.get() + 1);
        fake_transform(config)
    });
    assert_eq!(calls.get(), 0);
    assert_eq!(
        outcome,
        CallOutcome::AdapterError(AdapterError::Decode(DecodeError::MissingField(ConfigKey::Code)))
    );
}

#[test]
fn a_call_ends_in_one_of_three_ways() {
    assert_eq!(call(&source("const x = 1"), fake_transform), CallOutcome::Success(expected_output()));
    assert_eq!(
        call(&source("const x = ;"), fake_transform),
        CallOutcome::InputDiagnostics(expected_diagnostics())
    );
    assert_eq!(
        call(&source("const x = 1"), unrepresentable),
        CallOutcome::AdapterError(AdapterError::Encode(EncodeError::NumberOutOfRange {
            list: ResultList::Dependencies,
            index: 0,
            value: 1 << 60,
        }))
    );
}

#[test]
fn settle_tells_output_from_diagnostics() {
    assert_eq!(
        settle(Ok(Output { code: b"const x = 1;\n".to_vec(), map: None, dependencies: vec![] })),
        CallOutcome::Success(expected_output())
    );
    assert_eq!(
        settle(Err(Diagnostics { entries: vec![] })),
        CallOutcome::InputDiagnostics(record(vec![("diagnostics", HostValue::List(vec![]))]))
    );
}

#[test]
fn the_same_input_twice_gives_the_same_output() {
    let first = native::transform(&source("const x = 1"), fake_transform);
    let second = native::transform(&source("const x = 1"), fake_transform);
    assert_eq!(first, Ok(expected_output()));
    assert_eq!(first, second);
    let first = wasm::transform(&source("const x = 1"), fake_transform);
    let second = wasm::transform(&source("const x = 1"), fake_transform);
    assert_eq!(first, Ok(expected_output()));
    assert_eq!(first, second);
}

#[test]
fn a_missing_source_text_raises_in_the_native_host() {
    let value = record(vec![("filename", text("a.js")), ("is_jsx", HostValue::Bool(true))]);
    assert_eq!(
        native::transform(&value, fake_transform),
        Err(AdapterError::Decode(DecodeError::MissingField(ConfigKey::Code)))
    );
}

#[test]
fn a_missing_source_text_fills_the_error_arm_in_the_wasm_host() {
    let value = record(vec![("filename", text("a.js")), ("is_jsx", HostValue::Bool(true))]);
    assert_eq!(
        wasm::transform(&value, fake_transform),
        Err(record(vec![
            ("error", text("decode")),
            ("reason", text("missing field")),
            ("key", text("code")),
        ]))
    );
}

#[test]
fn invalid_source_is_answered_with_diagnostics() {
    let native_reply = native::transform(&source("const x = ;"), fake_transform);
    assert_eq!(native_reply, Ok(expected_diagnostics()));
    let wasm_reply = wasm::transform(&source("const x = ;"), fake_transform);
    assert_eq!(wasm_reply, Ok(expected_diagnostics()));
    assert_eq!(
        read_result(&wasm_reply.unwrap()),
        Some(Err(Diagnostics {
            entries: vec![Diagnostic {
                message: "Expression expected".to_string(),
                severity: Severity::Error,
                offset: 10,
            }],
        }))
    );
}

#[test]
fn both_surfaces_hand_over_the_same_payload() {
    let inputs = vec![
        source("const x = 1"),
        source("const x = ;"),
        source(""),
        record(vec![
            ("filename", text("b.ts")),
            ("code", text("let y")),
            ("source_maps", HostValue::Bool(true)),
            ("target", HostValue::Number(2017)),
        ]),
    ];
    for input in &inputs {
        let native_reply = native::transform(input, fake_transform);
        let wasm_reply = wasm::transform(input, fake_transform);
        assert!(native_reply.is_ok());
        assert_eq!(native_reply.ok(), wasm_reply.ok());
    }
}

#[test]
fn both_surfaces_fail_on_the_same_inputs() {
    let inputs = vec![
        HostValue::Undefined,
        record(vec![]),
        record(vec![("filename", text("a.js")), ("code", HostValue::Null)]),
        record(vec![("filename", text("a.js")), ("code", text("x")), ("target", HostValue::Number(-1))]),
    ];
    for input in &inputs {
        let raised = native::transform(input, fake_transform).unwrap_err();
        let error_arm = wasm::transform(input, fake_transform).unwrap_err();
        assert_eq!(error_arm, wasm::error_to_value(raised));
    }
}

#[test]
fn an_encode_error_is_not_mistaken_for_diagnostics() {
    let raised = native::transform(&source("x"), unrepresentable);
    assert_eq!(
        raised,
        Err(AdapterError::Encode(EncodeError::NumberOutOfRange {
            list: ResultList::Dependencies,
            index: 0,
            value: 1 << 60,
        }))
    );
    assert_eq!(
        wasm::transform(&source("x"), unrepresentable),
        Err(record(vec![
            ("error", text("encode")),
            ("reason", text("number out of range")),
            ("list", text("dependencies")),
            ("index", HostValue::Number(0)),
        ]))
    );
}

#[test]
fn each_decode_error_has_its_words() {
    let words = |e: DecodeError| wasm::error_to_value(AdapterError::Decode(e));
    assert_eq!(
        words(DecodeError::NotAMapping),
        record(vec![
            ("error", text("decode")),
            ("reason", text("not a mapping")),
            ("key", HostValue::Undefined),
        ])
    );
    assert_eq!(
        words(DecodeError::TypeMismatch(ConfigKey::IsTypeScript)),
        record(vec![
            ("error", text("decode")),
            ("reason", text("type mismatch")),
            ("key", text("is_type_script")),
        ])
    );
    assert_eq!(
        words(DecodeError::OutOfRange(ConfigKey::Target)),
        record(vec![
            ("error", text("decode")),
            ("reason", text("out of range")),
            ("key", text("target")),
        ])
    );
}

#[test]
fn an_encode_error_names_its_list_and_place() {
    let e = AdapterError::Encode(EncodeError::NumberOutOfRange {
        list: ResultList::Diagnostics,
        index: 41,
        value: u64::MAX,
    });
    assert_eq!(
        wasm::error_to_value(e),
        record(vec![
            ("error", text("encode")),
            ("reason", text("number out of range")),
            ("list", text("diagnostics")),
            ("index", HostValue::Number(41)),
        ])
    );
}

#[test]
fn replies_map_each_outcome() {
    let payload = || record(vec![("diagnostics", HostValue::List(vec![]))]);
    assert_eq!(native::reply(CallOutcome::Success(HostValue::Null)), Ok(HostValue::Null));
    assert_eq!(native::reply(CallOutcome::InputDiagnostics(payload())), Ok(payload()));
    assert_eq!(
        native::reply(CallOutcome::AdapterError(AdapterError::Decode(DecodeError::NotAMapping))),
        Err(AdapterError::Decode(DecodeError::NotAMapping))
    );
    assert_eq!(wasm::reply(CallOutcome::Success(HostValue::Null)), Ok(HostValue::Null));
    assert_eq!(wasm::reply(CallOutcome::InputDiagnostics(payload())), Ok(payload()));
    assert_eq!(
        wasm::reply(CallOutcome::AdapterError(AdapterError::Decode(DecodeError::NotAMapping))),
        Err(record(vec![
            ("error", text("decode")),
            ("reason", text("not a mapping")),
            ("key", HostValue::Undefined),
        ]))
    );
}

#[test]
fn init_registers_the_one_entry_point() {
    let mut exports = native::ExportTable::new();
    assert_eq!(exports.len(), 0);
    assert!(!exports.contains("transform"));
    native::init(&mut exports);
    assert_eq!(exports.len(), 1);
    assert_eq!(exports.name(0), "transform");
    assert!(exports.contains("transform"));
    assert!(!exports.contains("init"));
}

#[test]
fn init_twice_registers_nothing_more() {
    let mut exports = native::ExportTable::new();
    native::init(&mut exports);
    native::init(&mut exports);
    assert_eq!(exports.len(), 1);
    assert_eq!(exports.name(0), "transform");
}

#[test]
fn both_surfaces_export_the_same_name() {
    assert_eq!(native::EXPORT_NAME, "transform");
    assert_eq!(wasm::EXPORT_NAME, "transform");
}

#[test]
fn each_adapter_error_has_a_one_line_message() {
    assert_eq!(AdapterError::Decode(DecodeError::NotAMapping).message(), "decode: not a mapping");
    assert_eq!(
        AdapterError::Decode(DecodeError::MissingField(ConfigKey::Code)).message(),
        "decode: missing field: code"
    );
    assert_eq!(
        AdapterError::Decode(DecodeError::TypeMismatch(ConfigKey::SourceMaps)).message(),
        "decode: type mismatch: source_maps"
    );
    assert_eq!(
        AdapterError::Decode(DecodeError::OutOfRange(ConfigKey::Target)).message(),
        "decode: out of range: target"
    );
    assert_eq!(
        AdapterError::Encode(EncodeError::NumberOutOfRange {
            list: ResultList::Diagnostics,
            index: 3,
            value: u64::MAX,
        })
        .message(),
        "encode: number out of range: diagnostics"
    );
}

#[test]
fn a_decode_error_knows_its_key_and_words() {
    assert_eq!(DecodeError::NotAMapping.config_key(), None);
    assert_eq!(DecodeError::MissingField(ConfigKey::Filename).config_key(), Some(ConfigKey::Filename));
    assert_eq!(DecodeError::TypeMismatch(ConfigKey::IsJsx).config_key(), Some(ConfigKey::IsJsx));
    assert_eq!(DecodeError::OutOfRange(ConfigKey::Target).config_key(), Some(ConfigKey::Target));
    assert_eq!(DecodeError::NotAMapping.as_str(), "not a mapping");
    assert_eq!(DecodeError::MissingField(ConfigKey::Code).as_str(), "missing field");
    assert_eq!(DecodeError::TypeMismatch(ConfigKey::Code).as_str(), "type mismatch");
    assert_eq!(DecodeError::OutOfRange(ConfigKey::Target).as_str(), "out of range");
    assert_eq!(ResultList::Dependencies.as_str(), "dependencies");
    assert_eq!(ResultList::Diagnostics.as_str(), "diagnostics");
}
