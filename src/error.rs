use vstd::prelude::*;

verus! {

/// Why an operation of the library refused to go on.
///
/// Failures of the filesystem itself are reported by the caller that touches
/// the disk; the variants here are the decisions the library makes.
#[derive(Debug, Clone, PartialEq, Eq)]
pub enum ConfigError {
    /// Neither home-directory variable holds a usable value.
    NoHomeDirectory,
    /// The configuration text is not JSON; carries the parser's message.
    InvalidJson(String),
    /// The plugin identifier is empty once whitespace is trimmed.
    EmptyPluginId,
    /// No built-in plugin has this identifier.
    UnknownPlugin(String),
    /// The migration source does not exist.
    SourceMissing,
    /// The migration source exists but is not a directory.
    SourceNotDirectory,
    /// The migration source has no final name component to migrate it under.
    SourceNameUnavailable,
    /// The migration mode is neither `replace` nor `skip`.
    InvalidMode(String),
}

} // verus!
