//! The export surface for a host that loads the adapter as a native module:
//! adapter errors are raised, everything else is returned.

use crate::error::AdapterError;
use crate::outcome::{accepts, answers, call, CallOutcome, OutcomeView};
use crate::schema::{Config, Diagnostics, Output};
use crate::value::{HostValue, Value};
use vstd::prelude::*;

verus! {

/// The name under which the entry point is exported.
pub const EXPORT_NAME: &'static str = "transform";

/// The names that a module exports, in the order of their registration.
#[derive(Clone, Debug, PartialEq, Eq)]
pub struct ExportTable {
    names: Vec<String>,
}

impl View for ExportTable {
    type V = Seq<Seq<char>>;

    closed spec fn view(&self) -> Seq<Seq<char>> {
        self.names@.map_values(|name: String| name@)
    }
}

impl ExportTable {
    /// A table that exports nothing yet.
    pub fn new() -> (table: ExportTable)
        ensures
            table@ == Seq::<Seq<char>>::empty(),
    {
        let table = ExportTable { names: Vec::new() };
        assert(table@ =~= Seq::<Seq<char>>::empty());
        table
    }

    /// The number of exported names.
    pub fn len(&self) -> (n: usize)
        ensures
            n == self@.len(),
    {
        self.names.len()
    }

    /// The exported name at place `index`.
    pub fn name(&self, index: usize) -> (name: &String)
        requires
            index < self@.len(),
        ensures
            name@ == self@[index as int],
    {
        &self.names[index]
    }

    /// Whether `name` is exported.
    pub fn contains(&self, name: &str) -> (found: bool)
        ensures
            found == self@.contains(name@),
    {
        let wanted = name.to_owned();
        let mut i: usize = 0;
        while i < self.names.len()
            invariant
                i <= self.names.len(),
                wanted@ == name@,
                forall|j: int| 0 <= j < i ==> self@[j] != name@,
            decreases self.names.len() - i,
        {
            if self.names[i] == wanted {
                assert(self@[i as int] == name@);
                return true;
            }
            i += 1;
        }
        false
    }
}

/// The exports of a module once the entry point is registered: one more
/// name, unless it was there already.
pub open spec fn registered(names: Seq<Seq<char>>) -> Seq<Seq<char>> {
    if names.contains(EXPORT_NAME@) {
        names
    } else {
        names.push(EXPORT_NAME@)
    }
}

/// Registers the entry point in the module's export table.
///
/// The table gains the one name `transform`; registering twice changes
/// nothing more.
pub fn init(exports: &mut ExportTable)
    ensures
        final(exports)@ == registered(old(exports)@),
{
    if !exports.contains(EXPORT_NAME) {
        let ghost before = exports@;
        exports.names.push(EXPORT_NAME.to_owned());
        assert(exports@ =~= before.push(EXPORT_NAME@));
    }
}

/// What the host gets of an outcome: a returned value, or a raised adapter
/// error. Diagnostics are returned like an output.
pub open spec fn reply_spec(outcome: OutcomeView) -> Result<Value, AdapterError> {
    match outcome {
        OutcomeView::Success(value) => Ok(value),
        OutcomeView::InputDiagnostics(value) => Ok(value),
        OutcomeView::AdapterError(e) => Err(e),
    }
}

/// The model of what the host gets.
pub open spec fn reply_view(reply: Result<HostValue, AdapterError>) -> Result<Value, AdapterError> {
    match reply {
        Ok(value) => Ok(value@),
        Err(e) => Err(e),
    }
}

/// Whether `reply` is something that the host may get from the entry point
/// on `value` with `core` as the transform: what this host's convention
/// makes of a way for the call to end.
pub open spec fn may_reply<F: FnOnce(Config) -> Result<Output, Diagnostics>>(
    value: Value,
    core: F,
    reply: Result<Value, AdapterError>,
) -> bool {
    exists|outcome: OutcomeView| #[trigger]
        answers(value, core, outcome) && reply == reply_spec(outcome)
}

/// Maps an outcome to this host's convention: `Err` is what is raised.
pub fn reply(outcome: CallOutcome) -> (reply: Result<HostValue, AdapterError>)
    ensures
        reply_view(reply) == reply_spec(outcome@),
{
    match outcome {
        CallOutcome::Success(value) => Ok(value),
        CallOutcome::InputDiagnostics(value) => Ok(value),
        CallOutcome::AdapterError(e) => Err(e),
    }
}

/// The entry point: transforms the source that the configuration `value`
/// describes, with `core` as the transform.
///
/// Returns the output or the diagnostics as a host value. `Err` is raised
/// in the host, and comes exactly where the adapter could not decode
/// `value` or encode what `core` returned.
pub fn transform<F>(value: &HostValue, core: F) -> (reply: Result<HostValue, AdapterError>) where
    F: FnOnce(Config) -> Result<Output, Diagnostics>,

    requires
        accepts(value@, core),
    ensures
        may_reply(value@, core, reply_view(reply)),
{
    let outcome = call(value, core);
    self::reply(outcome)
}

} // verus!
