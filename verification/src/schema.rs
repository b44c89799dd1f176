//! The typed schema on both sides of the transform: the configuration that
//! goes in, and the output or the diagnostics that come out.

use vstd::prelude::*;

verus! {

/// The named feature flags of a configuration. A flag that the host leaves
/// out is off.
#[derive(Clone, Copy, Debug, PartialEq, Eq)]
pub struct Flags {
    pub is_type_script: bool,
    pub is_jsx: bool,
    pub decorators: bool,
    pub source_maps: bool,
}

/// What the transform is asked to do.
#[derive(Clone, Debug, PartialEq, Eq)]
pub struct Config {
    /// The name under which the source is known.
    pub filename: String,
    /// The source text.
    pub code: String,
    pub flags: Flags,
    /// The language edition that the output must run on, where one is set.
    pub target: Option<u32>,
}

/// The mathematical model of a [`Config`].
pub struct ConfigView {
    pub filename: Seq<char>,
    pub code: Seq<char>,
    pub flags: Flags,
    pub target: Option<u32>,
}

impl View for Config {
    type V = ConfigView;

    open spec fn view(&self) -> ConfigView {
        ConfigView {
            filename: self.filename@,
            code: self.code@,
            flags: self.flags,
            target: self.target,
        }
    }
}

/// A module that the transformed code refers to.
#[derive(Clone, Debug, PartialEq, Eq)]
pub struct Dependency {
    pub specifier: String,
    /// Where in the source the reference stands, in bytes from its start.
    pub offset: u64,
}

/// The mathematical model of a [`Dependency`].
pub struct DependencyView {
    pub specifier: Seq<char>,
    pub offset: u64,
}

impl View for Dependency {
    type V = DependencyView;

    open spec fn view(&self) -> DependencyView {
        DependencyView { specifier: self.specifier@, offset: self.offset }
    }
}

/// What a successful transform produced.
#[derive(Clone, Debug, PartialEq, Eq)]
pub struct Output {
    /// The transformed code.
    pub code: Vec<u8>,
    /// The source map, where one was asked for.
    pub map: Option<String>,
    pub dependencies: Vec<Dependency>,
}

/// The mathematical model of an [`Output`].
pub struct OutputView {
    pub code: Seq<u8>,
    pub map: Option<Seq<char>>,
    pub dependencies: Seq<DependencyView>,
}

impl View for Output {
    type V = OutputView;

    open spec fn view(&self) -> OutputView {
        OutputView {
            code: self.code@,
            map: match self.map {
                Some(text) => Some(text@),
                None => None,
            },
            dependencies: self.dependencies@.map_values(|d: Dependency| d@),
        }
    }
}

/// How grave a diagnostic is.
#[derive(Clone, Copy, Debug, PartialEq, Eq)]
pub enum Severity {
    Error,
    Warning,
}

/// One finding of the transform about the source it was given.
#[derive(Clone, Debug, PartialEq, Eq)]
pub struct Diagnostic {
    pub message: String,
    pub severity: Severity,
    /// Where in the source the finding stands, in bytes from its start.
    pub offset: u64,
}

/// The mathematical model of a [`Diagnostic`].
pub struct DiagnosticView {
    pub message: Seq<char>,
    pub severity: Severity,
    pub offset: u64,
}

impl View for Diagnostic {
    type V = DiagnosticView;

    open spec fn view(&self) -> DiagnosticView {
        DiagnosticView { message: self.message@, severity: self.severity, offset: self.offset }
    }
}

/// What a transform reports where the source could not be processed.
#[derive(Clone, Debug, PartialEq, Eq)]
pub struct Diagnostics {
    pub entries: Vec<Diagnostic>,
}

/// The mathematical model of [`Diagnostics`].
pub struct DiagnosticsView {
    pub entries: Seq<DiagnosticView>,
}

impl View for Diagnostics {
    type V = DiagnosticsView;

    open spec fn view(&self) -> DiagnosticsView {
        DiagnosticsView { entries: self.entries@.map_values(|d: Diagnostic| d@) }
    }
}

/// The model of what a transform returns.
pub open spec fn result_view(result: Result<Output, Diagnostics>) -> Result<
    OutputView,
    DiagnosticsView,
> {
    match result {
        Ok(output) => Ok(output@),
        Err(diagnostics) => Err(diagnostics@),
    }
}

} // verus!
