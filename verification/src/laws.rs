//! What holds of the adapter as a whole, proved from the contracts of its
//! parts.

use crate::decode::{
    config_of, decode_spec, flags_of, optional_flag, optional_target, required_text,
};
use crate::encode::{
    all_safe, config_value, dependency_offsets, dependency_value, diagnostic_offsets,
    diagnostic_value, diagnostics_value, encode_spec, output_value,
};
use crate::error::{AdapterError, ConfigKey, DecodeError, EncodeError};
use crate::native;
use crate::outcome::{answers, settled, OutcomeView};
use crate::read::{
    dependencies_of, dependency_of, diagnostic_of, diagnostics_of, output_of, result_of,
};
use crate::schema::{
    result_view, Config, ConfigView, DependencyView, DiagnosticView, Diagnostics, DiagnosticsView,
    Flags, Output, OutputView,
};
use crate::value::{
    lemma_lookup_absent, lemma_lookup_at, lemma_lookup_insert_other, lookup, representable, Value,
};
use crate::wasm;
use vstd::prelude::*;

verus! {

/// No two keys of the configuration schema are written alike.
pub proof fn lemma_config_keys_differ(a: ConfigKey, b: ConfigKey)
    ensures
        a.name() == b.name() ==> a == b,
{
    reveal_strlit("filename");
    reveal_strlit("code");
    reveal_strlit("is_type_script");
    reveal_strlit("is_jsx");
    reveal_strlit("decorators");
    reveal_strlit("source_maps");
    reveal_strlit("target");
    if a.name() == b.name() {
        assert(a.name().len() == b.name().len());
        assert(a.name()[0] == b.name()[0]);
    }
}

/// What a host writes for a configuration holds, under each key of the
/// schema, the member that was written for it.
proof fn lemma_written_member(config: ConfigView, key: ConfigKey, at: int)
    requires
        config_value(config) matches Value::Record(members) && 0 <= at < members.len()
            && members[at].0 == key.name(),
    ensures
        config_value(config) matches Value::Record(members) && lookup(members, key.name()) == Some(
            members[at].1,
        ),
{
    let members = config_value(config)->Record_0;
    assert(members[0].0 == ConfigKey::Filename.name());
    assert(members[1].0 == ConfigKey::Code.name());
    assert(members[2].0 == ConfigKey::IsTypeScript.name());
    assert(members[3].0 == ConfigKey::IsJsx.name());
    assert(members[4].0 == ConfigKey::Decorators.name());
    assert(members[5].0 == ConfigKey::SourceMaps.name());
    assert(members[6].0 == ConfigKey::Target.name());
    lemma_config_keys_differ(key, ConfigKey::Filename);
    lemma_config_keys_differ(key, ConfigKey::Code);
    lemma_config_keys_differ(key, ConfigKey::IsTypeScript);
    lemma_config_keys_differ(key, ConfigKey::IsJsx);
    lemma_config_keys_differ(key, ConfigKey::Decorators);
    lemma_config_keys_differ(key, ConfigKey::SourceMaps);
    lemma_config_keys_differ(key, ConfigKey::Target);
    lemma_lookup_at(members, key.name(), at);
}

/// Round trip on the input side: a configuration that a host writes down as
/// a host value is decoded as that same configuration.
pub proof fn lemma_config_round_trip(config: ConfigView)
    ensures
        decode_spec(config_value(config)) == Ok::<ConfigView, DecodeError>(config),
{
    let members = config_value(config)->Record_0;
    lemma_written_member(config, ConfigKey::Filename, 0);
    lemma_written_member(config, ConfigKey::Code, 1);
    lemma_written_member(config, ConfigKey::IsTypeScript, 2);
    lemma_written_member(config, ConfigKey::IsJsx, 3);
    lemma_written_member(config, ConfigKey::Decorators, 4);
    lemma_written_member(config, ConfigKey::SourceMaps, 5);
    lemma_written_member(config, ConfigKey::Target, 6);
    assert(required_text(members, ConfigKey::Filename) == Ok::<Seq<char>, DecodeError>(
        config.filename,
    ));
    assert(required_text(members, ConfigKey::Code) == Ok::<Seq<char>, DecodeError>(config.code));
    assert(flags_of(members) == Ok::<Flags, DecodeError>(config.flags));
    assert(optional_target(members) == Ok::<Option<u32>, DecodeError>(config.target));
}

/// Keys that the schema does not know are ignored: a member with such a
/// key, put into a mapping at any place, does not change what the mapping
/// is decoded as.
pub proof fn lemma_unknown_key_is_ignored(
    members: Seq<(Seq<char>, Value)>,
    at: int,
    key: Seq<char>,
    value: Value,
)
    requires
        0 <= at <= members.len(),
        forall|known: ConfigKey| known.name() != key,
    ensures
        decode_spec(Value::Record(members.insert(at, (key, value)))) == decode_spec(
            Value::Record(members),
        ),
{
    let grown = members.insert(at, (key, value));
    assert forall|known: ConfigKey| lookup(grown, #[trigger] known.name()) == lookup(
        members,
        known.name(),
    ) by {
        lemma_lookup_insert_other(members, known.name(), at, (key, value));
    }
    assert(required_text(grown, ConfigKey::Filename) == required_text(
        members,
        ConfigKey::Filename,
    ));
    assert(required_text(grown, ConfigKey::Code) == required_text(members, ConfigKey::Code));
    assert(optional_flag(grown, ConfigKey::IsTypeScript) == optional_flag(
        members,
        ConfigKey::IsTypeScript,
    ));
    assert(optional_flag(grown, ConfigKey::IsJsx) == optional_flag(members, ConfigKey::IsJsx));
    assert(optional_flag(grown, ConfigKey::Decorators) == optional_flag(
        members,
        ConfigKey::Decorators,
    ));
    assert(optional_flag(grown, ConfigKey::SourceMaps) == optional_flag(
        members,
        ConfigKey::SourceMaps,
    ));
    assert(lookup(grown, ConfigKey::Target.name()) == lookup(members, ConfigKey::Target.name()));
    assert(optional_target(grown) == optional_target(members));
    assert(flags_of(grown) == flags_of(members));
}

/// A dependency is read back from its host value as it was.
pub proof fn lemma_dependency_round_trip(dependency: DependencyView)
    ensures
        dependency_of(dependency_value(dependency)) == Some(dependency),
{
    reveal_strlit("specifier");
    reveal_strlit("offset");
    let members = dependency_value(dependency)->Record_0;
    assert("specifier"@.len() != "offset"@.len());
    lemma_lookup_at(members, "specifier"@, 0);
    lemma_lookup_at(members, "offset"@, 1);
}

/// A diagnostic is read back from its host value as it was.
pub proof fn lemma_diagnostic_round_trip(diagnostic: DiagnosticView)
    ensures
        diagnostic_of(diagnostic_value(diagnostic)) == Some(diagnostic),
{
    reveal_strlit("message");
    reveal_strlit("severity");
    reveal_strlit("offset");
    reveal_strlit("error");
    reveal_strlit("warning");
    let members = diagnostic_value(diagnostic)->Record_0;
    assert("message"@.len() != "severity"@.len());
    assert("message"@.len() != "offset"@.len());
    assert("severity"@.len() != "offset"@.len());
    assert("error"@.len() != "warning"@.len());
    lemma_lookup_at(members, "message"@, 0);
    lemma_lookup_at(members, "severity"@, 1);
    lemma_lookup_at(members, "offset"@, 2);
}

/// Round trip on the output side: where a result has a host value, the
/// result is read back from that value as it was.
pub proof fn lemma_result_round_trip(result: Result<OutputView, DiagnosticsView>, value: Value)
    requires
        encode_spec(result) == Ok::<Value, EncodeError>(value),
    ensures
        result_of(value) == Some(result),
{
    reveal_strlit("code");
    reveal_strlit("map");
    reveal_strlit("dependencies");
    reveal_strlit("diagnostics");
    match result {
        Ok(output) => {
            let members = output_value(output)->Record_0;
            let items = output.dependencies.map_values(|d: DependencyView| dependency_value(d));
            assert("code"@.len() != "map"@.len());
            assert("code"@.len() != "dependencies"@.len());
            assert("map"@.len() != "dependencies"@.len());
            assert("diagnostics"@.len() != "code"@.len());
            assert("diagnostics"@.len() != "map"@.len());
            assert("diagnostics"@.len() != "dependencies"@.len());
            lemma_lookup_absent(members, "diagnostics"@);
            lemma_lookup_at(members, "code"@, 0);
            lemma_lookup_at(members, "map"@, 1);
            lemma_lookup_at(members, "dependencies"@, 2);
            assert forall|i: int| 0 <= i < items.len() implies (#[trigger] dependency_of(
                items[i],
            )) == Some(output.dependencies[i]) by {
                lemma_dependency_round_trip(output.dependencies[i]);
            }
            assert(items.map_values(|item: Value| dependency_of(item)->Some_0)
                =~= output.dependencies);
            assert(dependencies_of(items) == Some(output.dependencies));
            assert(output_of(members) == Some(output));
        },
        Err(diagnostics) => {
            let members = diagnostics_value(diagnostics)->Record_0;
            let items = diagnostics.entries.map_values(|d: DiagnosticView| diagnostic_value(d));
            lemma_lookup_at(members, "diagnostics"@, 0);
            assert forall|i: int| 0 <= i < items.len() implies (#[trigger] diagnostic_of(
                items[i],
            )) == Some(diagnostics.entries[i]) by {
                lemma_diagnostic_round_trip(diagnostics.entries[i]);
            }
            assert(items.map_values(|item: Value| diagnostic_of(item)->Some_0)
                =~= diagnostics.entries);
            assert(diagnostics_of(items) == Some(diagnostics.entries));
        },
    }
}

/// What the encoder hands to the host, the host can hold without loss.
pub proof fn lemma_encoded_is_representable(
    result: Result<OutputView, DiagnosticsView>,
    value: Value,
)
    requires
        encode_spec(result) == Ok::<Value, EncodeError>(value),
    ensures
        representable(value),
{
    match result {
        Ok(output) => {
            let members = output_value(output)->Record_0;
            let items = output.dependencies.map_values(|d: DependencyView| dependency_value(d));
            let offsets = dependency_offsets(output);
            assert forall|i: int| 0 <= i < items.len() implies representable(
                #[trigger] items[i],
            ) by {
                assert(offsets[i] == output.dependencies[i].offset);
                let entry = dependency_value(output.dependencies[i])->Record_0;
                assert(representable(entry[0].1));
                assert(representable(entry[1].1));
            }
            assert(representable(members[0].1));
            assert(representable(members[1].1));
            assert(representable(members[2].1));
        },
        Err(diagnostics) => {
            let members = diagnostics_value(diagnostics)->Record_0;
            let items = diagnostics.entries.map_values(|d: DiagnosticView| diagnostic_value(d));
            let offsets = diagnostic_offsets(diagnostics);
            assert forall|i: int| 0 <= i < items.len() implies representable(
                #[trigger] items[i],
            ) by {
                assert(offsets[i] == diagnostics.entries[i].offset);
                let entry = diagnostic_value(diagnostics.entries[i])->Record_0;
                assert(representable(entry[0].1));
                assert(representable(entry[1].1));
                assert(representable(entry[2].1));
            }
            assert(representable(members[0].1));
        },
    }
}

/// What fills the error arm, the host can hold without loss.
pub proof fn lemma_error_value_is_representable(e: AdapterError)
    ensures
        representable(wasm::error_value(e)),
{
    let members = wasm::error_value(e)->Record_0;
    assert forall|i: int| 0 <= i < members.len() implies representable(
        (#[trigger] members[i]).1,
    ) by {
        assert(representable(members[0].1));
        assert(representable(members[1].1));
        assert(representable(members[2].1));
        if members.len() > 3 {
            assert(representable(members[3].1));
        }
    }
}

/// Whether a transform is a function of the configuration it is given: on
/// configurations that are alike, whatever it may return is alike.
pub open spec fn single_valued<F: FnOnce(Config) -> Result<Output, Diagnostics>>(
    transform: F,
) -> bool {
    forall|a: Config, b: Config, x: Result<Output, Diagnostics>, y: Result<Output, Diagnostics>|
        a@ == b@ && #[trigger] transform.ensures((a,), x) && #[trigger] transform.ensures((b,), y)
            ==> result_view(x) == result_view(y)
}

/// The adapter keeps no state: with a transform that is a function of its
/// configuration, two calls on the same host value end the same way.
pub proof fn lemma_same_input_same_outcome<F: FnOnce(Config) -> Result<Output, Diagnostics>>(
    value: Value,
    transform: F,
    first: OutcomeView,
    second: OutcomeView,
)
    requires
        single_valued(transform),
        answers(value, transform, first),
        answers(value, transform, second),
    ensures
        first == second,
{
}

/// Two calls of the native entry point on the same host value, with a
/// transform that is a function of its configuration, give the host the
/// same.
pub proof fn lemma_native_same_input_same_reply<F: FnOnce(Config) -> Result<Output, Diagnostics>>(
    value: Value,
    core: F,
    first: Result<Value, AdapterError>,
    second: Result<Value, AdapterError>,
)
    requires
        single_valued(core),
        native::may_reply(value, core, first),
        native::may_reply(value, core, second),
    ensures
        first == second,
{
    let a = choose|outcome: OutcomeView| #[trigger]
        answers(value, core, outcome) && first == native::reply_spec(outcome);
    let b = choose|outcome: OutcomeView| #[trigger]
        answers(value, core, outcome) && second == native::reply_spec(outcome);
    lemma_same_input_same_outcome(value, core, a, b);
}

/// Two calls of the WebAssembly entry point on the same host value, with a
/// transform that is a function of its configuration, give the host the
/// same.
pub proof fn lemma_wasm_same_input_same_reply<F: FnOnce(Config) -> Result<Output, Diagnostics>>(
    value: Value,
    core: F,
    first: Result<Value, Value>,
    second: Result<Value, Value>,
)
    requires
        single_valued(core),
        wasm::may_reply(value, core, first),
        wasm::may_reply(value, core, second),
    ensures
        first == second,
{
    let a = choose|outcome: OutcomeView| #[trigger]
        answers(value, core, outcome) && first == wasm::reply_spec(outcome);
    let b = choose|outcome: OutcomeView| #[trigger]
        answers(value, core, outcome) && second == wasm::reply_spec(outcome);
    lemma_same_input_same_outcome(value, core, a, b);
}

/// The two surfaces differ only in how an adapter error is signalled: what
/// one returns the other puts in its success arm, and what one raises the
/// other puts, written as a host value, in its error arm.
pub proof fn lemma_replies_agree(outcome: OutcomeView)
    ensures
        (match native::reply_spec(outcome) {
            Ok(value) => wasm::reply_spec(outcome) == Ok::<Value, Value>(value),
            Err(e) => wasm::reply_spec(outcome) == Err::<Value, Value>(
                wasm::error_value(e),
            ),
        }),
{
}

/// Cross-surface consistency: on the same host value, with the same
/// transform that is a function of its configuration, the native and the
/// WebAssembly entry point hand the host the same output or diagnostics,
/// and fail on the same adapter error.
pub proof fn lemma_surfaces_agree<F: FnOnce(Config) -> Result<Output, Diagnostics>>(
    value: Value,
    core: F,
    from_native: Result<Value, AdapterError>,
    from_wasm: Result<Value, Value>,
)
    requires
        single_valued(core),
        native::may_reply(value, core, from_native),
        wasm::may_reply(value, core, from_wasm),
    ensures
        (match from_native {
            Ok(payload) => from_wasm == Ok::<Value, Value>(payload),
            Err(e) => from_wasm == Err::<Value, Value>(wasm::error_value(e)),
        }),
{
    let a = choose|outcome: OutcomeView| #[trigger]
        answers(value, core, outcome) && from_native == native::reply_spec(outcome);
    let b = choose|outcome: OutcomeView| #[trigger]
        answers(value, core, outcome) && from_wasm == wasm::reply_spec(outcome);
    lemma_same_input_same_outcome(value, core, a, b);
    lemma_replies_agree(a);
}

/// A mapping without a required key is refused: the call ends with the
/// decoder's error, whatever the transform is, and both surfaces signal
/// it. Where the keys before the missing one can be read, the error names
/// the missing key.
pub proof fn lemma_missing_required_key_is_refused<
    F: FnOnce(Config) -> Result<Output, Diagnostics>,
>(members: Seq<(Seq<char>, Value)>, key: ConfigKey, transform: F, outcome: OutcomeView)
    requires
        key == ConfigKey::Filename || key == ConfigKey::Code,
        lookup(members, key.name()) is None,
        answers(Value::Record(members), transform, outcome),
    ensures
        outcome matches OutcomeView::AdapterError(AdapterError::Decode(e)) && config_of(members)
            == Err::<ConfigView, DecodeError>(e) && (key == ConfigKey::Filename || required_text(
            members,
            ConfigKey::Filename,
        ) is Ok ==> e == DecodeError::MissingField(key)),
        native::reply_spec(outcome) is Err,
        wasm::reply_spec(outcome) is Err,
{
}

/// Diagnostics are an answer, not a failure: where the transform reports
/// diagnostics that the host can hold, the call ends with them as its
/// payload, both surfaces hand them over as a value, and the host reads
/// each entry back from it.
pub proof fn lemma_diagnostics_are_returned(diagnostics: DiagnosticsView)
    requires
        all_safe(diagnostic_offsets(diagnostics)),
    ensures
        settled(Err(diagnostics)) == OutcomeView::InputDiagnostics(diagnostics_value(diagnostics)),
        native::reply_spec(settled(Err(diagnostics))) == Ok::<Value, AdapterError>(
            diagnostics_value(diagnostics),
        ),
        wasm::reply_spec(settled(Err(diagnostics))) == Ok::<Value, Value>(
            diagnostics_value(diagnostics),
        ),
        result_of(diagnostics_value(diagnostics)) == Some(
            Err::<OutputView, DiagnosticsView>(diagnostics),
        ),
{
    lemma_result_round_trip(Err(diagnostics), diagnostics_value(diagnostics));
}

/// Both surfaces export the entry point under one name, and a module that
/// exported nothing exports that name alone once the entry point is
/// registered.
pub proof fn lemma_one_export_name()
    ensures
        native::EXPORT_NAME@ == wasm::EXPORT_NAME@,
        native::registered(Seq::empty()) == seq![wasm::EXPORT_NAME@],
{
    let none = Seq::<Seq<char>>::empty();
    assert(!none.contains(native::EXPORT_NAME@));
    assert(none.push(native::EXPORT_NAME@) =~= seq![wasm::EXPORT_NAME@]);
}

} // verus!
