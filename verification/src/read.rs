//! The host's side of the result encoding: how a result is read back from
//! the host value that stands for it.

use crate::schema::{
    Dependency, DependencyView, Diagnostic, DiagnosticView, Diagnostics, DiagnosticsView, Output,
    OutputView, Severity,
};
use crate::value::{find, list_view, lookup, members_view, HostValue, Value};
use vstd::prelude::*;

verus! {

/// The offset that a host value stands for: a number from 0 to `u64::MAX`.
pub open spec fn offset_of(value: Value) -> Option<u64> {
    match value {
        Value::Number(n) => if 0 <= n <= u64::MAX {
            Some(n as u64)
        } else {
            None
        },
        _ => None,
    }
}

/// The severity that a host value stands for: one of two words.
pub open spec fn severity_of(value: Value) -> Option<Severity> {
    match value {
        Value::Text(word) => if word == "error"@ {
            Some(Severity::Error)
        } else if word == "warning"@ {
            Some(Severity::Warning)
        } else {
            None
        },
        _ => None,
    }
}

/// The optional text that a host value stands for: a text, or nothing where
/// the host wrote undefined or null.
pub open spec fn optional_text_of(value: Value) -> Option<Option<Seq<char>>> {
    match value {
        Value::Undefined => Some(None),
        Value::Null => Some(None),
        Value::Text(text) => Some(Some(text)),
        _ => None,
    }
}

/// The dependency that a host value stands for.
pub open spec fn dependency_of(value: Value) -> Option<DependencyView> {
    match value {
        Value::Record(members) => match (
            lookup(members, "specifier"@),
            lookup(members, "offset"@),
        ) {
            (Some(Value::Text(specifier)), Some(number)) => match offset_of(number) {
                Some(offset) => Some(DependencyView { specifier, offset }),
                None => None,
            },
            _ => None,
        },
        _ => None,
    }
}

/// The diagnostic that a host value stands for.
pub open spec fn diagnostic_of(value: Value) -> Option<DiagnosticView> {
    match value {
        Value::Record(members) => match (
            lookup(members, "message"@),
            lookup(members, "severity"@),
            lookup(members, "offset"@),
        ) {
            (Some(Value::Text(message)), Some(word), Some(number)) => match (
                severity_of(word),
                offset_of(number),
            ) {
                (Some(severity), Some(offset)) => Some(
                    DiagnosticView { message, severity, offset },
                ),
                _ => None,
            },
            _ => None,
        },
        _ => None,
    }
}

/// The dependencies that the items of a list stand for, where each item
/// stands for one.
pub open spec fn dependencies_of(items: Seq<Value>) -> Option<Seq<DependencyView>> {
    if forall|i: int| 0 <= i < items.len() ==> (#[trigger] dependency_of(items[i])) is Some {
        Some(items.map_values(|item: Value| dependency_of(item)->Some_0))
    } else {
        None
    }
}

/// The diagnostics that the items of a list stand for, where each item
/// stands for one.
pub open spec fn diagnostics_of(items: Seq<Value>) -> Option<Seq<DiagnosticView>> {
    if forall|i: int| 0 <= i < items.len() ==> (#[trigger] diagnostic_of(items[i])) is Some {
        Some(items.map_values(|item: Value| diagnostic_of(item)->Some_0))
    } else {
        None
    }
}

/// The output that a mapping stands for.
pub open spec fn output_of(members: Seq<(Seq<char>, Value)>) -> Option<OutputView> {
    match (lookup(members, "code"@), lookup(members, "map"@), lookup(members, "dependencies"@)) {
        (Some(Value::Bytes(code)), Some(map_value), Some(Value::List(items))) => match (
            optional_text_of(map_value),
            dependencies_of(items),
        ) {
            (Some(map), Some(dependencies)) => Some(OutputView { code, map, dependencies }),
            _ => None,
        },
        _ => None,
    }
}

/// What a transform returned, as read back from a host value: diagnostics
/// where the mapping has that key, an output otherwise; `None` where the
/// value stands for neither.
pub open spec fn result_of(value: Value) -> Option<Result<OutputView, DiagnosticsView>> {
    match value {
        Value::Record(members) => match lookup(members, "diagnostics"@) {
            Some(Value::List(items)) => match diagnostics_of(items) {
                Some(entries) => Some(Err(DiagnosticsView { entries })),
                None => None,
            },
            Some(_) => None,
            None => match output_of(members) {
                Some(output) => Some(Ok(output)),
                None => None,
            },
        },
        _ => None,
    }
}

/// Whether the typed reading `read` is the modelled reading `expected`.
pub open spec fn read_as(
    read: Option<Result<Output, Diagnostics>>,
    expected: Option<Result<OutputView, DiagnosticsView>>,
) -> bool {
    match read {
        Some(Ok(output)) => expected == Some(Ok::<OutputView, DiagnosticsView>(output@)),
        Some(Err(diagnostics)) => expected == Some(
            Err::<OutputView, DiagnosticsView>(diagnostics@),
        ),
        None => expected is None,
    }
}

fn read_offset(value: &HostValue) -> (offset: Option<u64>)
    ensures
        offset == offset_of(value@),
{
    match value {
        HostValue::Number(n) => {
            if *n >= 0 {
                Some(*n as u64)
            } else {
                None
            }
        },
        _ => None,
    }
}

fn read_severity(value: &HostValue) -> (severity: Option<Severity>)
    ensures
        severity == severity_of(value@),
{
    match value {
        HostValue::Text(word) => {
            if *word == "error".to_owned() {
                Some(Severity::Error)
            } else if *word == "warning".to_owned() {
                Some(Severity::Warning)
            } else {
                None
            }
        },
        _ => None,
    }
}

fn read_dependency(value: &HostValue) -> (dependency: Option<Dependency>)
    ensures
        (match dependency {
            Some(d) => dependency_of(value@) == Some(d@),
            None => dependency_of(value@) is None,
        }),
{
    match value {
        HostValue::Record(members) => {
            let specifier = match find(members, "specifier") {
                Some(HostValue::Text(text)) => text.clone(),
                _ => { return None; },
            };
            let offset = match find(members, "offset") {
                Some(number) => match read_offset(number) {
                    Some(offset) => offset,
                    None => { return None; },
                },
                None => { return None; },
            };
            Some(Dependency { specifier, offset })
        },
        _ => None,
    }
}

fn read_diagnostic(value: &HostValue) -> (diagnostic: Option<Diagnostic>)
    ensures
        (match diagnostic {
            Some(d) => diagnostic_of(value@) == Some(d@),
            None => diagnostic_of(value@) is None,
        }),
{
    match value {
        HostValue::Record(members) => {
            let message = match find(members, "message") {
                Some(HostValue::Text(text)) => text.clone(),
                _ => { return None; },
            };
            let severity = match find(members, "severity") {
                Some(word) => match read_severity(word) {
                    Some(severity) => severity,
                    None => { return None; },
                },
                None => { return None; },
            };
            let offset = match find(members, "offset") {
                Some(number) => match read_offset(number) {
                    Some(offset) => offset,
                    None => { return None; },
                },
                None => { return None; },
            };
            Some(Diagnostic { message, severity, offset })
        },
        _ => None,
    }
}

fn read_dependencies(items: &Vec<HostValue>) -> (dependencies: Option<Vec<Dependency>>)
    ensures
        (match dependencies {
            Some(list) => dependencies_of(list_view(*items)) == Some(
                list@.map_values(|d: Dependency| d@),
            ),
            None => dependencies_of(list_view(*items)) is None,
        }),
{
    let ghost models = list_view(*items);
    let mut list: Vec<Dependency> = Vec::new();
    let mut i: usize = 0;
    while i < items.len()
        invariant
            i <= items.len(),
            models == list_view(*items),
            list.len() == i,
            forall|j: int| 0 <= j < i ==> dependency_of(models[j]) == Some(#[trigger] list@[j]@),
        decreases items.len() - i,
    {
        match read_dependency(&items[i]) {
            Some(dependency) => {
                list.push(dependency);
            },
            None => {
                assert(dependency_of(models[i as int]) is None);
                return None;
            },
        }
        i += 1;
    }
    proof {
        assert forall|j: int| 0 <= j < models.len() implies (#[trigger] dependency_of(
            models[j],
        )) == Some(list@[j]@) by {}
        assert(models.map_values(|item: Value| dependency_of(item)->Some_0) =~= list@.map_values(
            |d: Dependency| d@,
        ));
    }
    Some(list)
}

fn read_diagnostics(items: &Vec<HostValue>) -> (entries: Option<Vec<Diagnostic>>)
    ensures
        (match entries {
            Some(list) => diagnostics_of(list_view(*items)) == Some(
                list@.map_values(|d: Diagnostic| d@),
            ),
            None => diagnostics_of(list_view(*items)) is None,
        }),
{
    let ghost models = list_view(*items);
    let mut list: Vec<Diagnostic> = Vec::new();
    let mut i: usize = 0;
    while i < items.len()
        invariant
            i <= items.len(),
            models == list_view(*items),
            list.len() == i,
            forall|j: int| 0 <= j < i ==> diagnostic_of(models[j]) == Some(#[trigger] list@[j]@),
        decreases items.len() - i,
    {
        match read_diagnostic(&items[i]) {
            Some(diagnostic) => {
                list.push(diagnostic);
            },
            None => {
                assert(diagnostic_of(models[i as int]) is None);
                return None;
            },
        }
        i += 1;
    }
    proof {
        assert forall|j: int| 0 <= j < models.len() implies (#[trigger] diagnostic_of(
            models[j],
        )) == Some(list@[j]@) by {}
        assert(models.map_values(|item: Value| diagnostic_of(item)->Some_0) =~= list@.map_values(
            |d: Diagnostic| d@,
        ));
    }
    Some(list)
}

fn read_output(members: &Vec<(String, HostValue)>) -> (output: Option<Output>)
    ensures
        (match output {
            Some(o) => output_of(members_view(*members)) == Some(o@),
            None => output_of(members_view(*members)) is None,
        }),
{
    let code = match find(members, "code") {
        Some(HostValue::Bytes(bytes)) => bytes.clone(),
        _ => { return None; },
    };
    let map = match find(members, "map") {
        Some(HostValue::Undefined) => None,
        Some(HostValue::Null) => None,
        Some(HostValue::Text(text)) => Some(text.clone()),
        _ => { return None; },
    };
    let dependencies = match find(members, "dependencies") {
        Some(HostValue::List(items)) => match read_dependencies(items) {
            Some(list) => list,
            None => { return None; },
        },
        _ => { return None; },
    };
    Some(Output { code, map, dependencies })
}

/// Reads back what a transform returned from the host value that stands
/// for it.
///
/// Gives diagnostics where the mapping has that key and an output
/// otherwise; `None` exactly where the value stands for neither.
pub fn read_result(value: &HostValue) -> (read: Option<Result<Output, Diagnostics>>)
    ensures
        read_as(read, result_of(value@)),
{
    match value {
        HostValue::Record(members) => match find(members, "diagnostics") {
            Some(HostValue::List(items)) => match read_diagnostics(items) {
                Some(entries) => Some(Err(Diagnostics { entries })),
                None => None,
            },
            Some(_) => None,
            None => match read_output(members) {
                Some(output) => Some(Ok(output)),
                None => None,
            },
        },
        _ => None,
    }
}

} // verus!
