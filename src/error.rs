//! The errors of target discovery, application listing, builds and cleanup.
use vstd::prelude::*;

verus! {

/// Why an operation failed. Variants with a payload carry the diagnostic
/// text that an outside tool reported, verbatim.
#[derive(Debug, Clone, PartialEq, Eq)]
pub enum CritError {
    /// An outside tool could not be started.
    ToolInvocation,
    /// An outside tool wrote text that is not valid UTF-8.
    Decode,
    /// The target enumeration tool reported failure.
    Query,
    /// The container runtime's process listing reported failure.
    RuntimeQuery(String),
    /// The project manifest could not be read.
    ManifestRead,
    /// The project manifest is not valid TOML.
    ManifestParse(String),
    /// The project manifest declares no binaries, or not as an array.
    MissingBinarySection,
    /// A binary declaration has no `name`, or one that is not a string.
    MalformedEntry,
    /// The container override configuration is not valid TOML.
    ConfigParse(String),
    /// The container override configuration has a malformed `target` section.
    MalformedConfig,
    /// A pattern is not a valid regular expression.
    Pattern,
    /// No target is enabled.
    NoTargetsEnabled,
    /// The cross-compilation driver reported failure.
    Build(String),
    /// A binary could not be copied into the artifact tree.
    Copy(String),
    /// A container or the artifact root could not be removed.
    Clean(String),
}

/// A `CritError` with its diagnostic text as a character sequence; the
/// parser's own messages are left out.
pub enum Failure {
    ToolInvocation,
    Decode,
    Query,
    RuntimeQuery(Seq<char>),
    ManifestRead,
    ManifestParse,
    MissingBinarySection,
    MalformedEntry,
    ConfigParse,
    MalformedConfig,
    Pattern,
    NoTargetsEnabled,
    Build(Seq<char>),
    Copy(Seq<char>),
    Clean(Seq<char>),
}

impl View for CritError {
    type V = Failure;

    open spec fn view(&self) -> Failure {
        match self {
            CritError::ToolInvocation => Failure::ToolInvocation,
            CritError::Decode => Failure::Decode,
            CritError::Query => Failure::Query,
            CritError::RuntimeQuery(m) => Failure::RuntimeQuery(m@),
            CritError::ManifestRead => Failure::ManifestRead,
            CritError::ManifestParse(_) => Failure::ManifestParse,
            CritError::MissingBinarySection => Failure::MissingBinarySection,
            CritError::MalformedEntry => Failure::MalformedEntry,
            CritError::ConfigParse(_) => Failure::ConfigParse,
            CritError::MalformedConfig => Failure::MalformedConfig,
            CritError::Pattern => Failure::Pattern,
            CritError::NoTargetsEnabled => Failure::NoTargetsEnabled,
            CritError::Build(m) => Failure::Build(m@),
            CritError::Copy(m) => Failure::Copy(m@),
            CritError::Clean(m) => Failure::Clean(m@),
        }
    }
}

/// The view of an outcome.
pub open spec fn outcome_view(r: Result<(), CritError>) -> Result<(), Failure> {
    match r {
        Ok(()) => Ok(()),
        Err(e) => Err(e@),
    }
}

} // verus!
