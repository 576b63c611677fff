//! The commands of the program, as values: what was asked for, and which
//! operation of the vault answers it.

use vstd::prelude::*;

verus! {

/// What the program was started with.
#[derive(Debug)]
pub struct Cli {
    /// An additional configuration file to load.
    pub config: Option<String>,
    pub command: Command,
}

/// The groups of commands.
#[allow(inconsistent_fields)]
#[derive(Debug)]
pub enum Command {
    /// Manages the secrets.
    Secret { command: Secret },
    /// Utilities, such as shell completions.
    Utils { command: Utils },
}

/// The commands on secrets.
#[derive(Debug)]
pub enum Secret {
    /// Edits a secret, or replaces it with what standard input holds.
    Edit { allow_empty: bool, stdin: bool, file: String },
    /// Prints a secret.
    Cat { file: String },
    /// Seals a secret anew for the current recipients.
    Rotate { file: String },
}

/// The utilities.
#[derive(Debug)]
pub enum Utils {
    /// Generates shell completions for a shell.
    Completion { shell: Shell },
    /// Generates the manual pages into a directory.
    Manpages { out_dir: String },
}

/// The shells that completions can be generated for.
#[derive(Clone, Copy, Debug, PartialEq, Eq, Structural)]
pub enum Shell {
    Bash,
    Zsh,
    Fish,
}

/// The operations of the vault.
#[derive(Clone, Copy, Debug, PartialEq, Eq, Structural)]
pub enum Operation {
    /// Run the editor on the secret.
    Edit { allow_empty: bool },
    /// Replace the secret with what standard input holds.
    Import { allow_empty: bool },
    /// Print the secret.
    Cat,
    /// Seal the secret anew.
    Rotate,
}

impl Cli {
    /// Whether the configuration has to be read before the command runs:
    /// the utilities do without it.
    pub open spec fn spec_needs_config(self) -> bool {
        self.command is Secret
    }

    /// Whether the configuration has to be read before the command runs.
    pub fn needs_config(&self) -> (needed: bool)
        ensures
            needed == self.spec_needs_config(),
    {
        match &self.command {
            Command::Secret { .. } => true,
            Command::Utils { .. } => false,
        }
    }
}

impl Secret {
    /// The operation that answers the command: an edit from standard input
    /// is an import, every other edit runs the editor.
    pub open spec fn spec_operation(self) -> Operation {
        match self {
            Secret::Edit { allow_empty, stdin, file } => if stdin {
                Operation::Import { allow_empty }
            } else {
                Operation::Edit { allow_empty }
            },
            Secret::Cat { file } => Operation::Cat,
            Secret::Rotate { file } => Operation::Rotate,
        }
    }

    /// The secret that the command is about.
    pub open spec fn spec_file(self) -> Seq<char> {
        match self {
            Secret::Edit { allow_empty, stdin, file } => file@,
            Secret::Cat { file } => file@,
            Secret::Rotate { file } => file@,
        }
    }

    /// The operation that answers the command.
    pub fn operation(&self) -> (op: Operation)
        ensures
            op == self.spec_operation(),
    {
        match self {
            Secret::Edit { allow_empty, stdin, .. } => {
                if *stdin {
                    Operation::Import { allow_empty: *allow_empty }
                } else {
                    Operation::Edit { allow_empty: *allow_empty }
                }
            },
            Secret::Cat { .. } => Operation::Cat,
            Secret::Rotate { .. } => Operation::Rotate,
        }
    }

    /// The secret that the command is about.
    pub fn file(&self) -> (file: &str)
        ensures
            file@ == self.spec_file(),
    {
        match self {
            Secret::Edit { file, .. } => file.as_str(),
            Secret::Cat { file } => file.as_str(),
            Secret::Rotate { file } => file.as_str(),
        }
    }
}

impl Shell {
    /// The name that the shell goes by on the command line.
    pub open spec fn spec_name(self) -> Seq<char> {
        match self {
            Shell::Bash => "bash"@,
            Shell::Zsh => "zsh"@,
            Shell::Fish => "fish"@,
        }
    }

    /// The name that the shell goes by on the command line.
    pub fn name(&self) -> (name: &'static str)
        ensures
            name@ == self.spec_name(),
    {
        match self {
            Shell::Bash => "bash",
            Shell::Zsh => "zsh",
            Shell::Fish => "fish",
        }
    }
}

} // verus!
