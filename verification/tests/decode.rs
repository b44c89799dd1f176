use js_swc_adapter::decode::decode;
use js_swc_adapter::error::{ConfigKey, DecodeError};
use js_swc_adapter::schema::{Config, Flags};
use js_swc_adapter::value::HostValue;

fn text(s: &str) -> HostValue {
    HostValue::Text(s.to_string())
}

fn record(members: Vec<(&str, HostValue)>) -> HostValue {
    HostValue::Record(members.into_iter().map(|(k, v)| (k.to_string(), v)).collect())
}

fn no_flags() -> Flags {
    Flags { is_type_script: false, is_jsx: false, decorators: false, source_maps: false }
}

#[test]
fn decodes_the_two_required_keys_with_defaults() {
    let value = record(vec![("filename", text("a.js")), ("code", text("const x = 1"))]);
    assert_eq!(
        decode(&value),
        Ok(Config {
            filename: "a.js".to_string(),
            code: "const x = 1".to_string(),
            flags: no_flags(),
            target: None,
        })
    );
}

#[test]
fn decodes_every_key_of_the_schema() {
    let value = record(vec![
        ("target", HostValue::Number(2015)),
        ("source_maps", HostValue::Bool(true)),
        ("decorators", HostValue::Bool(false)),
        ("is_jsx", HostValue::Bool(true)),
        ("is_type_script", HostValue::Bool(true)),
        ("code", text("let a: number = <b/>")),
        ("filename", text("src/a.tsx")),
    ]);
    assert_eq!(
        decode(&value),
        Ok(Config {
            filename: "src/a.tsx".to_string(),
            code: "let a: number = <b/>".to_string(),
            flags: Flags {
                is_type_script: true,
                is_jsx: true,
                decorators: false,
                source_maps: true,
            },
            target: Some(2015),
        })
    );
}

#[test]
fn missing_source_text_is_a_decode_error() {
    let value = record(vec![("filename", text("a.js"))]);
    assert_eq!(decode(&value), Err(DecodeError::MissingField(ConfigKey::Code)));
}

#[test]
fn missing_filename_is_a_decode_error() {
    let value = record(vec![("code", text("const x = 1"))]);
    assert_eq!(decode(&value), Err(DecodeError::MissingField(ConfigKey::Filename)));
}

#[test]
fn an_empty_mapping_misses_the_first_required_key() {
    assert_eq!(decode(&record(vec![])), Err(DecodeError::MissingField(ConfigKey::Filename)));
}

#[test]
fn a_value_that_is_no_mapping_is_refused() {
    assert_eq!(decode(&HostValue::Null), Err(DecodeError::NotAMapping));
    assert_eq!(decode(&HostValue::Undefined), Err(DecodeError::NotAMapping));
    assert_eq!(decode(&text("const x = 1")), Err(DecodeError::NotAMapping));
    assert_eq!(decode(&HostValue::List(vec![])), Err(DecodeError::NotAMapping));
    assert_eq!(decode(&HostValue::Opaque), Err(DecodeError::NotAMapping));
}

#[test]
fn a_required_key_of_another_type_is_a_mismatch() {
    let value = record(vec![("filename", text("a.js")), ("code", HostValue::Number(1))]);
    assert_eq!(decode(&value), Err(DecodeError::TypeMismatch(ConfigKey::Code)));
    let value = record(vec![("filename", HostValue::Undefined), ("code", text("x"))]);
    assert_eq!(decode(&value), Err(DecodeError::TypeMismatch(ConfigKey::Filename)));
    let value = record(vec![("filename", text("a.js")), ("code", HostValue::Bytes(vec![120]))]);
    assert_eq!(decode(&value), Err(DecodeError::TypeMismatch(ConfigKey::Code)));
}

#[test]
fn a_flag_of_another_type_is_a_mismatch() {
    let value = record(vec![
        ("filename", text("a.js")),
        ("code", text("x")),
        ("is_jsx", HostValue::Number(1)),
    ]);
    assert_eq!(decode(&value), Err(DecodeError::TypeMismatch(ConfigKey::IsJsx)));
    let value = record(vec![
        ("filename", text("a.js")),
        ("code", text("x")),
        ("source_maps", HostValue::Opaque),
    ]);
    assert_eq!(decode(&value), Err(DecodeError::TypeMismatch(ConfigKey::SourceMaps)));
}

#[test]
fn undefined_and_null_flags_are_off() {
    let value = record(vec![
        ("filename", text("a.js")),
        ("code", text("x")),
        ("is_type_script", HostValue::Undefined),
        ("decorators", HostValue::Null),
        ("target", HostValue::Null),
    ]);
    assert_eq!(
        decode(&value),
        Ok(Config {
            filename: "a.js".to_string(),
            code: "x".to_string(),
            flags: no_flags(),
            target: None,
        })
    );
}

#[test]
fn target_out_of_range_is_refused() {
    let with_target = |n: i64| {
        record(vec![("filename", text("a.js")), ("code", text("x")), ("target", HostValue::Number(n))])
    };
    assert_eq!(decode(&with_target(-1)), Err(DecodeError::OutOfRange(ConfigKey::Target)));
    assert_eq!(
        decode(&with_target(4294967296)),
        Err(DecodeError::OutOfRange(ConfigKey::Target))
    );
    assert_eq!(decode(&with_target(0)).map(|c| c.target), Ok(Some(0)));
    assert_eq!(decode(&with_target(4294967295)).map(|c| c.target), Ok(Some(4294967295)));
}

#[test]
fn target_of_another_type_is_a_mismatch() {
    let value = record(vec![("filename", text("a.js")), ("code", text("x")), ("target", text("5"))]);
    assert_eq!(decode(&value), Err(DecodeError::TypeMismatch(ConfigKey::Target)));
}

#[test]
fn the_first_key_at_fault_is_reported() {
    let value = record(vec![
        ("target", HostValue::Number(-5)),
        ("is_jsx", text("yes")),
        ("filename", text("a.js")),
    ]);
    assert_eq!(decode(&value), Err(DecodeError::MissingField(ConfigKey::Code)));
    let value = record(vec![
        ("target", HostValue::Number(-5)),
        ("is_jsx", text("yes")),
        ("filename", text("a.js")),
        ("code", text("x")),
    ]);
    assert_eq!(decode(&value), Err(DecodeError::TypeMismatch(ConfigKey::IsJsx)));
}

#[test]
fn unknown_keys_are_ignored() {
    let value = record(vec![
        ("minify", HostValue::Bool(true)),
        ("filename", text("a.js")),
        ("plugins", HostValue::List(vec![HostValue::Opaque])),
        ("code", text("const x = 1")),
        ("Code", HostValue::Number(3)),
    ]);
    assert_eq!(
        decode(&value),
        Ok(Config {
            filename: "a.js".to_string(),
            code: "const x = 1".to_string(),
            flags: no_flags(),
            target: None,
        })
    );
}

#[test]
fn the_first_member_of_a_repeated_key_is_read() {
    let value = record(vec![
        ("filename", text("first.js")),
        ("filename", HostValue::Number(2)),
        ("code", text("x")),
        ("code", text("y")),
    ]);
    assert_eq!(decode(&value).map(|c| (c.filename, c.code)), Ok(("first.js".to_string(), "x".to_string())));
}

#[test]
fn config_keys_are_written_in_snake_case() {
    assert_eq!(ConfigKey::Filename.as_str(), "filename");
    assert_eq!(ConfigKey::Code.as_str(), "code");
    assert_eq!(ConfigKey::IsTypeScript.as_str(), "is_type_script");
    assert_eq!(ConfigKey::IsJsx.as_str(), "is_jsx");
    assert_eq!(ConfigKey::Decorators.as_str(), "decorators");
    assert_eq!(ConfigKey::SourceMaps.as_str(), "source_maps");
    assert_eq!(ConfigKey::Target.as_str(), "target");
}
