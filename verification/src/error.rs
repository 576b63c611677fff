//! What can go wrong, and where.

use vstd::prelude::*;

verus! {

/// Why a line of a key file is not a key.
#[derive(Clone, Copy, Debug, PartialEq, Eq, Structural)]
pub enum KeyError {
    /// The text is not a key in age's encoding.
    Malformed,
    /// The text encodes a recipient key that no envelope can be sealed for:
    /// a point of low order, for which every key agreement yields zero.
    LowOrder,
}

/// The configuration does not provide what the vault needs.
#[derive(Clone, Copy, Debug, PartialEq, Eq, Structural)]
pub enum ConfigError {
    /// The key file holds no key line.
    MissingIdentity,
    /// The first key line of the key file is not an identity.
    InvalidIdentity,
    /// The line with this index (from 0) of the recipients file is not a
    /// usable recipient.
    InvalidRecipient { line: usize },
    /// The recipients file holds no key line.
    NoRecipients,
    /// The repository is not a directory.
    RepositoryNotDirectory,
    /// A file that must be private could not be inspected.
    Unreadable,
    /// A path that must name a private file names something else.
    NotAFile,
    /// A file that must be private is open to the group or to others.
    InsecurePermissions { mode: u32 },
}

/// The codec refused to seal or to open an envelope.
#[derive(Clone, Copy, Debug, PartialEq, Eq, Structural)]
pub enum CryptoError {
    /// There is nobody to seal the envelope for.
    NoRecipients,
    /// No stanza of the envelope is addressed to the identity.
    NoMatchingIdentity,
    /// The bytes are not an intact envelope.
    MalformedEnvelope,
}

/// The kinds of failure of a vault operation.
#[derive(Clone, Copy, Debug, PartialEq, Eq, Structural)]
pub enum ErrorKind {
    /// Bytes could not be read or written.
    Io,
    Crypto(CryptoError),
    /// The editor could not be run, or exited with a failure.
    Editor,
    /// The new content is empty and empty secrets were not allowed.
    EmptySecretRejected,
    Config(ConfigError),
}

/// The step of an operation, in the order in which an edit takes them.
#[derive(Clone, Copy, Debug, PartialEq, Eq, Structural)]
pub enum Stage {
    Open,
    StageDecrypt,
    Edit,
    Validate,
    Compare,
    Commit,
}

/// A failed operation: what went wrong, at which step, on which secret.
#[derive(Debug)]
pub struct Error {
    pub kind: ErrorKind,
    pub stage: Stage,
    pub path: String,
}

impl Error {
    /// An error of `kind` at `stage` for the secret at `path`.
    pub fn new(kind: ErrorKind, stage: Stage, path: &str) -> (e: Error)
        ensures
            e.kind == kind,
            e.stage == stage,
            e.path@ == path@,
    {
        Error { kind, stage, path: String::from_str(path) }
    }

    /// A line for the user: the failure, the step and the secret.
    pub fn message(&self) -> (text: String)
        ensures
            text@ == spec_kind_text(self.kind) + " at "@ + spec_stage_text(self.stage) + ": "@
                + self.path@,
    {
        let mut text = String::from_str(kind_text(self.kind));
        text.append(" at ");
        text.append(stage_text(self.stage));
        text.append(": ");
        text.append(self.path.as_str());
        text
    }
}

/// The words for a kind of failure.
pub open spec fn spec_kind_text(kind: ErrorKind) -> Seq<char> {
    match kind {
        ErrorKind::Io => "i/o failure"@,
        ErrorKind::Crypto(CryptoError::NoRecipients) => "no recipients to encrypt for"@,
        ErrorKind::Crypto(CryptoError::NoMatchingIdentity) => "the identity opens no stanza"@,
        ErrorKind::Crypto(CryptoError::MalformedEnvelope) => "malformed envelope"@,
        ErrorKind::Editor => "editor exited with an error"@,
        ErrorKind::EmptySecretRejected => "secrets cannot be empty"@,
        ErrorKind::Config(_) => "invalid configuration"@,
    }
}

/// The words for a kind of failure.
pub fn kind_text(kind: ErrorKind) -> (text: &'static str)
    ensures
        text@ == spec_kind_text(kind),
{
    match kind {
        ErrorKind::Io => "i/o failure",
        ErrorKind::Crypto(CryptoError::NoRecipients) => "no recipients to encrypt for",
        ErrorKind::Crypto(CryptoError::NoMatchingIdentity) => "the identity opens no stanza",
        ErrorKind::Crypto(CryptoError::MalformedEnvelope) => "malformed envelope",
        ErrorKind::Editor => "editor exited with an error",
        ErrorKind::EmptySecretRejected => "secrets cannot be empty",
        ErrorKind::Config(_) => "invalid configuration",
    }
}

/// The name of a step.
pub open spec fn spec_stage_text(stage: Stage) -> Seq<char> {
    match stage {
        Stage::Open => "open"@,
        Stage::StageDecrypt => "decrypt"@,
        Stage::Edit => "edit"@,
        Stage::Validate => "validate"@,
        Stage::Compare => "compare"@,
        Stage::Commit => "commit"@,
    }
}

/// The name of a step.
pub fn stage_text(stage: Stage) -> (text: &'static str)
    ensures
        text@ == spec_stage_text(stage),
{
    match stage {
        Stage::Open => "open",
        Stage::StageDecrypt => "decrypt",
        Stage::Edit => "edit",
        Stage::Validate => "validate",
        Stage::Compare => "compare",
        Stage::Commit => "commit",
    }
}

} // verus!
