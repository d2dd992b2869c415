//! The ways in which a run can fail.

use vstd::prelude::*;

verus! {

/// Why a source could not be classified.
#[derive(Clone, Debug, PartialEq, Eq)]
pub enum ClassificationError {
    /// The source is a URL with the scheme given, which is not handled.
    UnsupportedScheme(String),
    /// The path of a local file could not be made canonical.
    PathResolution,
}

/// A `ClassificationError` as text.
pub enum ClassificationErrorView {
    UnsupportedScheme(Seq<char>),
    PathResolution,
}

impl View for ClassificationError {
    type V = ClassificationErrorView;

    open spec fn view(&self) -> ClassificationErrorView {
        match self {
            ClassificationError::UnsupportedScheme(scheme) => {
                ClassificationErrorView::UnsupportedScheme(scheme@)
            },
            ClassificationError::PathResolution => ClassificationErrorView::PathResolution,
        }
    }
}

/// Why the working paths could not be resolved.
#[derive(Clone, Copy, Debug, PartialEq, Eq, Structural)]
pub enum PathError {
    /// The output name has no extension.
    MissingExtension,
    /// The final path is not rooted, even in its canonical form.
    UnresolvablePath,
    /// The file system could not make the final path canonical.
    Io,
}

/// Why the run of an external tool counts as failed.
#[derive(Clone, Copy, Debug, PartialEq, Eq, Structural)]
pub enum ExternalToolError {
    /// The tool exited with a code other than zero.
    NonZeroExit(i32),
    /// The tool was ended by a signal and left no exit code.
    Signaled,
}

/// Why there is no usable configuration.
#[derive(Clone, Copy, Debug, PartialEq, Eq, Structural)]
pub enum ConfigError {
    /// None of the places where a configuration may lie holds a file.
    NotFound,
    /// The configuration file could not be read as a configuration.
    ParseFailure,
    /// The pattern of a placement rule is not a regular expression.
    InvalidPattern,
}

/// Why a run ended without success.
#[derive(Clone, Debug, PartialEq, Eq)]
pub enum Failure {
    Classification(ClassificationError),
    Path(PathError),
    ExternalTool(ExternalToolError),
    Config(ConfigError),
    /// An external tool could not be started, or a file could not be copied,
    /// moved or removed.
    Io,
    /// An event arrived that does not answer the action that was asked for.
    UnexpectedEvent,
}

/// A `Failure` as text.
pub enum FailureView {
    Classification(ClassificationErrorView),
    Path(PathError),
    ExternalTool(ExternalToolError),
    Config(ConfigError),
    Io,
    UnexpectedEvent,
}

impl View for Failure {
    type V = FailureView;

    open spec fn view(&self) -> FailureView {
        match self {
            Failure::Classification(error) => FailureView::Classification(error@),
            Failure::Path(error) => FailureView::Path(*error),
            Failure::ExternalTool(error) => FailureView::ExternalTool(*error),
            Failure::Config(error) => FailureView::Config(*error),
            Failure::Io => FailureView::Io,
            Failure::UnexpectedEvent => FailureView::UnexpectedEvent,
        }
    }
}

} // verus!
