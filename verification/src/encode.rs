//! The result encoder: from what the transform returned to a host value.

use crate::error::{EncodeError, ResultList};
use crate::schema::{
    result_view, Config, ConfigView, Dependency, DependencyView, Diagnostic, DiagnosticView,
    Diagnostics, DiagnosticsView, Output, OutputView, Severity,
};
use crate::value::{
    is_safe_integer, list_view, members_view, push_item, push_member, HostValue, Value,
    MAX_SAFE_INTEGER,
};
use vstd::prelude::*;

verus! {

/// The word that the host reads for a severity.
pub open spec fn severity_name(severity: Severity) -> Seq<char> {
    match severity {
        Severity::Error => "error"@,
        Severity::Warning => "warning"@,
    }
}

/// The host value of one dependency: a record of its specifier and offset.
pub open spec fn dependency_value(dependency: DependencyView) -> Value {
    Value::Record(
        seq![
            ("specifier"@, Value::Text(dependency.specifier)),
            ("offset"@, Value::Number(dependency.offset as int)),
        ],
    )
}

/// The host value of one diagnostic: a record of its message, severity and
/// offset.
pub open spec fn diagnostic_value(diagnostic: DiagnosticView) -> Value {
    Value::Record(
        seq![
            ("message"@, Value::Text(diagnostic.message)),
            ("severity"@, Value::Text(severity_name(diagnostic.severity))),
            ("offset"@, Value::Number(diagnostic.offset as int)),
        ],
    )
}

/// The host value of an optional text: the text, or the host's undefined.
pub open spec fn optional_text_value(text: Option<Seq<char>>) -> Value {
    match text {
        Some(text) => Value::Text(text),
        None => Value::Undefined,
    }
}

/// The host value of an output: a record that mirrors it field by field.
pub open spec fn output_value(output: OutputView) -> Value {
    Value::Record(
        seq![
            ("code"@, Value::Bytes(output.code)),
            ("map"@, optional_text_value(output.map)),
            (
                "dependencies"@,
                Value::List(output.dependencies.map_values(|d: DependencyView| dependency_value(d))),
            ),
        ],
    )
}

/// The host value of diagnostics: a record whose one member lists the
/// entries, each a record of its own.
pub open spec fn diagnostics_value(diagnostics: DiagnosticsView) -> Value {
    Value::Record(
        seq![
            (
                "diagnostics"@,
                Value::List(diagnostics.entries.map_values(|d: DiagnosticView| diagnostic_value(d))),
            ),
        ],
    )
}

/// The offsets of the dependencies of an output, in order.
pub open spec fn dependency_offsets(output: OutputView) -> Seq<u64> {
    output.dependencies.map_values(|d: DependencyView| d.offset)
}

/// The offsets of the entries of diagnostics, in order.
pub open spec fn diagnostic_offsets(diagnostics: DiagnosticsView) -> Seq<u64> {
    diagnostics.entries.map_values(|d: DiagnosticView| d.offset)
}

/// Whether a host number holds each of `offsets` exactly.
pub open spec fn all_safe(offsets: Seq<u64>) -> bool {
    forall|i: int| 0 <= i < offsets.len() ==> is_safe_integer(#[trigger] offsets[i] as int)
}

/// Whether `index` is the place of the first of `offsets` that no host
/// number holds exactly.
pub open spec fn is_first_unsafe(offsets: Seq<u64>, index: int) -> bool {
    &&& 0 <= index < offsets.len()
    &&& !is_safe_integer(offsets[index] as int)
    &&& all_safe(offsets.take(index))
}

/// The place of the first of `offsets` that no host number holds exactly,
/// where there is one.
pub open spec fn first_unsafe(offsets: Seq<u64>) -> int {
    choose|index: int| is_first_unsafe(offsets, index)
}

/// The error that names the first of the offsets of `list` that no host
/// number holds exactly.
pub open spec fn out_of_range(list: ResultList, offsets: Seq<u64>) -> EncodeError {
    EncodeError::NumberOutOfRange {
        list,
        index: first_unsafe(offsets) as usize,
        value: offsets[first_unsafe(offsets)],
    }
}

/// `value` where a host number holds each of `offsets`; otherwise the error
/// that names the first offset of `list` that is too large.
pub open spec fn checked(list: ResultList, offsets: Seq<u64>, value: Value) -> Result<
    Value,
    EncodeError,
> {
    if all_safe(offsets) {
        Ok(value)
    } else {
        Err(out_of_range(list, offsets))
    }
}

/// The host value that stands for what a transform returned, or why there is
/// none. An output and diagnostics are told apart by their keys.
pub open spec fn encode_spec(result: Result<OutputView, DiagnosticsView>) -> Result<
    Value,
    EncodeError,
> {
    match result {
        Ok(output) => checked(
            ResultList::Dependencies,
            dependency_offsets(output),
            output_value(output),
        ),
        Err(diagnostics) => checked(
            ResultList::Diagnostics,
            diagnostic_offsets(diagnostics),
            diagnostics_value(diagnostics),
        ),
    }
}

/// Whether the host value or error `encoded` is the modelled `expected`.
pub open spec fn encoded_as(
    encoded: Result<HostValue, EncodeError>,
    expected: Result<Value, EncodeError>,
) -> bool {
    match encoded {
        Ok(value) => expected == Ok::<Value, EncodeError>(value@),
        Err(e) => expected == Err::<Value, EncodeError>(e),
    }
}

/// There is one first unsafe offset at most.
pub proof fn lemma_first_unsafe_unique(offsets: Seq<u64>, index: int)
    requires
        is_first_unsafe(offsets, index),
    ensures
        !all_safe(offsets),
        first_unsafe(offsets) == index,
{
    let other = first_unsafe(offsets);
    assert(is_first_unsafe(offsets, other));
    if other < index {
        assert(offsets.take(index)[other] == offsets[other]);
    }
    if index < other {
        assert(offsets.take(other)[index] == offsets[index]);
    }
}

/// Whether a host number holds `offset` exactly.
pub fn fits_host_number(offset: u64) -> (fits: bool)
    ensures
        fits == is_safe_integer(offset as int),
{
    offset <= MAX_SAFE_INTEGER
}

fn severity_word(severity: Severity) -> (word: &'static str)
    ensures
        word@ == severity_name(severity),
{
    match severity {
        Severity::Error => "error",
        Severity::Warning => "warning",
    }
}

fn encode_dependency(dependency: &Dependency) -> (value: HostValue)
    requires
        is_safe_integer(dependency.offset as int),
    ensures
        value@ == dependency_value(dependency@),
{
    let mut members: Vec<(String, HostValue)> = Vec::new();
    assert(members_view(members) =~= Seq::empty());
    push_member(&mut members, "specifier", HostValue::Text(dependency.specifier.clone()));
    push_member(&mut members, "offset", HostValue::Number(dependency.offset as i64));
    assert(members_view(members) =~= dependency_value(dependency@)->Record_0);
    HostValue::Record(members)
}

fn encode_diagnostic(diagnostic: &Diagnostic) -> (value: HostValue)
    requires
        is_safe_integer(diagnostic.offset as int),
    ensures
        value@ == diagnostic_value(diagnostic@),
{
    let mut members: Vec<(String, HostValue)> = Vec::new();
    assert(members_view(members) =~= Seq::empty());
    push_member(&mut members, "message", HostValue::Text(diagnostic.message.clone()));
    push_member(
        &mut members,
        "severity",
        HostValue::Text(severity_word(diagnostic.severity).to_owned()),
    );
    push_member(&mut members, "offset", HostValue::Number(diagnostic.offset as i64));
    assert(members_view(members) =~= diagnostic_value(diagnostic@)->Record_0);
    HostValue::Record(members)
}

fn encode_dependencies(dependencies: &Vec<Dependency>) -> (items: Result<
    Vec<HostValue>,
    EncodeError,
>)
    ensures
        (match items {
            Ok(items) => {
                &&& all_safe(dependencies@.map_values(|d: Dependency| d@.offset))
                &&& list_view(items) == dependencies@.map_values(
                    |d: Dependency| dependency_value(d@),
                )
            },
            Err(e) => {
                &&& !all_safe(dependencies@.map_values(|d: Dependency| d@.offset))
                &&& e == out_of_range(
                    ResultList::Dependencies,
                    dependencies@.map_values(|d: Dependency| d@.offset),
                )
            },
        }),
{
    let ghost offsets = dependencies@.map_values(|d: Dependency| d@.offset);
    let mut items: Vec<HostValue> = Vec::new();
    let mut i: usize = 0;
    while i < dependencies.len()
        invariant
            i <= dependencies.len(),
            offsets == dependencies@.map_values(|d: Dependency| d@.offset),
            all_safe(offsets.take(i as int)),
            list_view(items) == dependencies@.take(i as int).map_values(
                |d: Dependency| dependency_value(d@),
            ),
        decreases dependencies.len() - i,
    {
        let dependency = &dependencies[i];
        if !fits_host_number(dependency.offset) {
            proof {
                lemma_first_unsafe_unique(offsets, i as int);
            }
            return Err(
                EncodeError::NumberOutOfRange {
                    list: ResultList::Dependencies,
                    index: i,
                    value: dependency.offset,
                },
            );
        }
        let ghost before = list_view(items);
        push_item(&mut items, encode_dependency(dependency));
        proof {
            assert(offsets.take(i + 1) =~= offsets.take(i as int).push(offsets[i as int]));
            assert(dependencies@.take(i + 1).map_values(|d: Dependency| dependency_value(d@))
                =~= before.push(dependency_value(dependency@)));
        }
        i += 1;
    }
    proof {
        assert(offsets.take(i as int) =~= offsets);
        assert(dependencies@.take(i as int) =~= dependencies@);
    }
    Ok(items)
}

fn encode_entries(entries: &Vec<Diagnostic>) -> (items: Result<Vec<HostValue>, EncodeError>)
    ensures
        (match items {
            Ok(items) => {
                &&& all_safe(entries@.map_values(|d: Diagnostic| d@.offset))
                &&& list_view(items) == entries@.map_values(|d: Diagnostic| diagnostic_value(d@))
            },
            Err(e) => {
                &&& !all_safe(entries@.map_values(|d: Diagnostic| d@.offset))
                &&& e == out_of_range(
                    ResultList::Diagnostics,
                    entries@.map_values(|d: Diagnostic| d@.offset),
                )
            },
        }),
{
    let ghost offsets = entries@.map_values(|d: Diagnostic| d@.offset);
    let mut items: Vec<HostValue> = Vec::new();
    let mut i: usize = 0;
    while i < entries.len()
        invariant
            i <= entries.len(),
            offsets == entries@.map_values(|d: Diagnostic| d@.offset),
            all_safe(offsets.take(i as int)),
            list_view(items) == entries@.take(i as int).map_values(
                |d: Diagnostic| diagnostic_value(d@),
            ),
        decreases entries.len() - i,
    {
        let entry = &entries[i];
        if !fits_host_number(entry.offset) {
            proof {
                lemma_first_unsafe_unique(offsets, i as int);
            }
            return Err(
                EncodeError::NumberOutOfRange {
                    list: ResultList::Diagnostics,
                    index: i,
                    value: entry.offset,
                },
            );
        }
        let ghost before = list_view(items);
        push_item(&mut items, encode_diagnostic(entry));
        proof {
            assert(offsets.take(i + 1) =~= offsets.take(i as int).push(offsets[i as int]));
            assert(entries@.take(i + 1).map_values(|d: Diagnostic| diagnostic_value(d@))
                =~= before.push(diagnostic_value(entry@)));
        }
        i += 1;
    }
    proof {
        assert(offsets.take(i as int) =~= offsets);
        assert(entries@.take(i as int) =~= entries@);
    }
    Ok(items)
}

/// Encodes an output as a host value.
pub fn encode_output(output: Output) -> (encoded: Result<HostValue, EncodeError>)
    ensures
        encoded_as(encoded, encode_spec(Ok(output@))),
{
    let Output { code, map, dependencies } = output;
    let items = match encode_dependencies(&dependencies) {
        Ok(items) => items,
        Err(e) => {
            proof {
                assert(dependency_offsets(output@) =~= dependencies@.map_values(
                    |d: Dependency| d@.offset,
                ));
            }
            return Err(e);
        },
    };
    let map_value = match map {
        Some(text) => HostValue::Text(text),
        None => HostValue::Undefined,
    };
    let mut members: Vec<(String, HostValue)> = Vec::new();
    assert(members_view(members) =~= Seq::empty());
    push_member(&mut members, "code", HostValue::Bytes(code));
    push_member(&mut members, "map", map_value);
    push_member(&mut members, "dependencies", HostValue::List(items));
    proof {
        assert(dependency_offsets(output@) =~= dependencies@.map_values(
            |d: Dependency| d@.offset,
        ));
        assert(output@.dependencies.map_values(|d: DependencyView| dependency_value(d))
            =~= dependencies@.map_values(|d: Dependency| dependency_value(d@)));
        assert(members_view(members) =~= output_value(output@)->Record_0);
    }
    Ok(HostValue::Record(members))
}

/// Encodes diagnostics as a host value.
pub fn encode_diagnostics(diagnostics: Diagnostics) -> (encoded: Result<HostValue, EncodeError>)
    ensures
        encoded_as(encoded, encode_spec(Err(diagnostics@))),
{
    let items = match encode_entries(&diagnostics.entries) {
        Ok(items) => items,
        Err(e) => {
            proof {
                assert(diagnostic_offsets(diagnostics@) =~= diagnostics.entries@.map_values(
                    |d: Diagnostic| d@.offset,
                ));
            }
            return Err(e);
        },
    };
    let mut members: Vec<(String, HostValue)> = Vec::new();
    assert(members_view(members) =~= Seq::empty());
    push_member(&mut members, "diagnostics", HostValue::List(items));
    proof {
        assert(diagnostic_offsets(diagnostics@) =~= diagnostics.entries@.map_values(
            |d: Diagnostic| d@.offset,
        ));
        assert(diagnostics@.entries.map_values(|d: DiagnosticView| diagnostic_value(d))
            =~= diagnostics.entries@.map_values(|d: Diagnostic| diagnostic_value(d@)));
        assert(members_view(members) =~= diagnostics_value(diagnostics@)->Record_0);
    }
    Ok(HostValue::Record(members))
}

/// Encodes what a transform returned as a host value.
///
/// Succeeds exactly where a host number holds every offset; the value then
/// mirrors the output or the diagnostics field by field. Otherwise says
/// which offset, first in its list, is too large.
pub fn encode(result: Result<Output, Diagnostics>) -> (encoded: Result<HostValue, EncodeError>)
    ensures
        encoded_as(encoded, encode_spec(result_view(result))),
{
    match result {
        Ok(output) => encode_output(output),
        Err(diagnostics) => encode_diagnostics(diagnostics),
    }
}

/// The host value of an optional target: the number, or the host's
/// undefined.
pub open spec fn target_value(target: Option<u32>) -> Value {
    match target {
        Some(edition) => Value::Number(edition as int),
        None => Value::Undefined,
    }
}

/// The host value that a host writes for a configuration: a mapping with
/// every key of the schema.
pub open spec fn config_value(config: ConfigView) -> Value {
    Value::Record(
        seq![
            ("filename"@, Value::Text(config.filename)),
            ("code"@, Value::Text(config.code)),
            ("is_type_script"@, Value::Bool(config.flags.is_type_script)),
            ("is_jsx"@, Value::Bool(config.flags.is_jsx)),
            ("decorators"@, Value::Bool(config.flags.decorators)),
            ("source_maps"@, Value::Bool(config.flags.source_maps)),
            ("target"@, target_value(config.target)),
        ],
    )
}

/// Writes a configuration as the host value that a host would hand in.
pub fn encode_config(config: &Config) -> (value: HostValue)
    ensures
        value@ == config_value(config@),
{
    let target = match config.target {
        Some(edition) => HostValue::Number(edition as i64),
        None => HostValue::Undefined,
    };
    let mut members: Vec<(String, HostValue)> = Vec::new();
    assert(members_view(members) =~= Seq::empty());
    push_member(&mut members, "filename", HostValue::Text(config.filename.clone()));
    push_member(&mut members, "code", HostValue::Text(config.code.clone()));
    push_member(&mut members, "is_type_script", HostValue::Bool(config.flags.is_type_script));
    push_member(&mut members, "is_jsx", HostValue::Bool(config.flags.is_jsx));
    push_member(&mut members, "decorators", HostValue::Bool(config.flags.decorators));
    push_member(&mut members, "source_maps", HostValue::Bool(config.flags.source_maps));
    push_member(&mut members, "target", target);
    assert(members_view(members) =~= config_value(config@)->Record_0);
    HostValue::Record(members)
}

} // verus!
