use js_swc_adapter::decode::decode;
use js_swc_adapter::encode::{encode, encode_config};
use js_swc_adapter::read::read_result;
use js_swc_adapter::schema::{
    Config, Dependency, Diagnostic, Diagnostics, Flags, Output, Severity,
};
use js_swc_adapter::value::HostValue;

fn text(s: &str) -> HostValue {
    HostValue::Text(s.to_string())
}

fn record(members: Vec<(&str, HostValue)>) -> HostValue {
    HostValue::Record(members.into_iter().map(|(k, v)| (k.to_string(), v)).collect())
}

fn flags(bits: u8) -> Flags {
    Flags {
        is_type_script: bits & 1 != 0,
        is_jsx: bits & 2 != 0,
        decorators: bits & 4 != 0,
        source_maps: bits & 8 != 0,
    }
}

#[test]
fn a_written_configuration_is_decoded_as_itself() {
    let config = Config {
        filename: "src/index.tsx".to_string(),
        code: "export const x = <a/>;".to_string(),
        flags: flags(0b1011),
        target: Some(2020),
    };
    assert_eq!(decode(&encode_config(&config)), Ok(config));
}

#[test]
fn every_flag_set_survives_the_round_trip() {
    for bits in 0u8..16 {
        for target in [None, Some(0), Some(u32::MAX)] {
            let config = Config {
                filename: "a.js".to_string(),
                code: "const x = 1".to_string(),
                flags: flags(bits),
                target,
            };
            assert_eq!(decode(&encode_config(&config)), Ok(config));
        }
    }
}

#[test]
fn text_outside_ascii_survives_the_round_trip() {
    let config = Config {
        filename: "π/données.js".to_string(),
        code: "const s = \"☃\\n\"; // ünïcödé".to_string(),
        flags: flags(0),
        target: None,
    };
    assert_eq!(decode(&encode_config(&config)), Ok(config));
}

#[test]
fn an_encoded_output_is_read_back_as_itself() {
    let output = Output {
        code: vec![0, 255, 10, 13, 104, 105],
        map: Some("{\"mappings\":\"AAAA\"}".to_string()),
        dependencies: vec![
            Dependency { specifier: "./a".to_string(), offset: 0 },
            Dependency { specifier: "b".to_string(), offset: 9007199254740991 },
        ],
    };
    let encoded = encode(Ok(output.clone())).unwrap();
    assert_eq!(read_result(&encoded), Some(Ok(output)));
}

#[test]
fn an_encoded_output_without_map_is_read_back_as_itself() {
    let output = Output { code: b"x".to_vec(), map: None, dependencies: vec![] };
    let encoded = encode(Ok(output.clone())).unwrap();
    assert_eq!(read_result(&encoded), Some(Ok(output)));
}

#[test]
fn encoded_diagnostics_are_read_back_as_themselves() {
    let diagnostics = Diagnostics {
        entries: vec![
            Diagnostic {
                message: "Expression expected".to_string(),
                severity: Severity::Error,
                offset: 10,
            },
            Diagnostic { message: "warning".to_string(), severity: Severity::Warning, offset: 0 },
        ],
    };
    let encoded = encode(Err(diagnostics.clone())).unwrap();
    assert_eq!(read_result(&encoded), Some(Err(diagnostics)));
}

#[test]
fn empty_diagnostics_are_not_read_as_an_output() {
    let encoded = encode(Err(Diagnostics { entries: vec![] })).unwrap();
    assert_eq!(read_result(&encoded), Some(Err(Diagnostics { entries: vec![] })));
}

#[test]
fn a_value_that_stands_for_no_result_is_not_read() {
    assert_eq!(read_result(&HostValue::Null), None);
    assert_eq!(read_result(&record(vec![])), None);
    assert_eq!(read_result(&record(vec![("diagnostics", text("none"))])), None);
    assert_eq!(
        read_result(&record(vec![(
            "diagnostics",
            HostValue::List(vec![record(vec![
                ("message", text("m")),
                ("severity", text("fatal")),
                ("offset", HostValue::Number(1)),
            ])])
        )])),
        None
    );
    assert_eq!(
        read_result(&record(vec![(
            "diagnostics",
            HostValue::List(vec![record(vec![
                ("message", text("m")),
                ("severity", text("error")),
                ("offset", HostValue::Number(-1)),
            ])])
        )])),
        None
    );
    assert_eq!(
        read_result(&record(vec![
            ("code", text("not bytes")),
            ("map", HostValue::Undefined),
            ("dependencies", HostValue::List(vec![])),
        ])),
        None
    );
    assert_eq!(
        read_result(&record(vec![
            ("code", HostValue::Bytes(vec![])),
            ("dependencies", HostValue::List(vec![])),
        ])),
        None
    );
}

#[test]
fn a_hand_written_output_is_read() {
    let value = record(vec![
        ("dependencies", HostValue::List(vec![record(vec![
            ("offset", HostValue::Number(4)),
            ("specifier", text("fs")),
        ])])),
        ("map", HostValue::Null),
        ("code", HostValue::Bytes(vec![59])),
    ]);
    assert_eq!(
        read_result(&value),
        Some(Ok(Output {
            code: vec![59],
            map: None,
            dependencies: vec![Dependency { specifier: "fs".to_string(), offset: 4 }],
        }))
    );
}
