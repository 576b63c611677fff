//! What the vault is configured with: the editor, the directories, and the
//! two key files, whose text the library reads keys from.

use crate::error::ConfigError;
use crate::keys::{
    age_identity_parses, texts, usable_recipient, Identity, Recipient, RecipientSet,
};
use crate::scratch::{join, spec_join};
use vstd::prelude::*;
use vstd::slice::{slice_subrange, slice_to_vec};

verus! {

/// The name that the vault's own directories carry.
pub open spec fn spec_package() -> Seq<char> {
    "mctl"@
}

/// The name that the vault's own directories carry.
pub fn package() -> (name: &'static str)
    ensures
        name@ == spec_package(),
{
    "mctl"
}

/// Calls `dirs::config_local_dir`. What it returns depends on the user and
/// the environment, so nothing is stated of it.
#[verifier::external_body]
fn config_local_dir() -> Option<String> {
    dirs::config_local_dir().map(|dir| dir.to_string_lossy().into_owned())
}

/// Calls `dirs::cache_dir`. What it returns depends on the user and the
/// environment, so nothing is stated of it.
#[verifier::external_body]
fn cache_dir() -> Option<String> {
    dirs::cache_dir().map(|dir| dir.to_string_lossy().into_owned())
}

/// The vault's directory under the base `base`, or under `fallback` where
/// there is no base.
pub open spec fn spec_own_dir(base: Option<Seq<char>>, fallback: Seq<char>) -> Seq<char> {
    match base {
        Some(base) => spec_join(base, spec_package()),
        None => spec_join(fallback, spec_package()),
    }
}

/// The vault's directory under `base`, or under `fallback` where there is
/// no base.
pub fn own_dir(base: Option<String>, fallback: &str) -> (dir: String)
    ensures
        dir@ == spec_own_dir(crate::scratch::opt_string_chars(base), fallback@),
{
    match base {
        Some(base) => join(base.as_str(), package()),
        None => join(fallback, package()),
    }
}

/// Whether `dir` is the vault's directory under some base.
pub open spec fn is_own_dir(dir: Seq<char>) -> bool {
    exists|base: Seq<char>| dir == #[trigger] spec_join(base, spec_package())
}

/// The directory of the vault's configuration: the one of the user's
/// configuration directory, or of `~/.config` where the user has none.
pub fn default_config_dir() -> (dir: String)
    ensures
        is_own_dir(dir@),
{
    own_dir(config_local_dir(), "~/.config")
}

/// The directory for the vault's scratch files: the one of the user's
/// cache directory, or of `/tmp` where the user has none.
pub fn default_cache_dir() -> (dir: String)
    ensures
        is_own_dir(dir@),
{
    own_dir(cache_dir(), "/tmp")
}

/// The file `name` of the directory `age` under `config_dir`.
pub open spec fn spec_age_file(config_dir: Seq<char>, name: Seq<char>) -> Seq<char> {
    spec_join(spec_join(config_dir, "age"@), name)
}

/// The file `name` of the directory `age` under `config_dir`.
pub fn age_file(config_dir: &str, name: &str) -> (path: String)
    ensures
        path@ == spec_age_file(config_dir@, name@),
{
    let dir = join(config_dir, "age");
    join(dir.as_str(), name)
}

/// Where the identity is kept unless the configuration says otherwise.
pub fn default_key_file() -> (path: String)
    ensures
        exists|dir: Seq<char>| is_own_dir(dir) && path@ == #[trigger] spec_age_file(dir, "key.txt"@),
{
    let dir = default_config_dir();
    age_file(dir.as_str(), "key.txt")
}

/// Where the recipients are kept unless the configuration says otherwise.
pub fn default_recipients_file() -> (path: String)
    ensures
        exists|dir: Seq<char>|
            is_own_dir(dir) && path@ == #[trigger] spec_age_file(dir, "recipients.txt"@),
{
    let dir = default_config_dir();
    age_file(dir.as_str(), "recipients.txt")
}

/// The editor to fall back on where the configuration names none: the one
/// of `VISUAL`, or else the one of `EDITOR`.
pub fn default_editor(visual: Option<String>, editor: Option<String>) -> (choice: Option<String>)
    ensures
        choice == if visual is Some {
            visual
        } else {
            editor
        },
{
    match visual {
        Some(visual) => Some(visual),
        None => editor,
    }
}

/// The mode of the files that the vault creates, secrets and scratch files
/// alike: the owner reads and writes, nobody else does anything.
pub const PRIVATE_MODE: u32 = 0o600;

/// What the file system says of a path.
#[derive(Clone, Copy, Debug, PartialEq, Eq, Structural)]
pub struct Metadata {
    /// Whether the path names a regular file.
    pub is_file: bool,
    /// The mode bits of the file.
    pub mode: u32,
}

/// Whether `mode` lets the group or others at the file.
pub open spec fn spec_insecure(mode: u32) -> bool {
    mode & 0o077 != 0
}

/// What inspecting a private file says, given what the file system says of
/// it; `None` stands for a path that could not be inspected.
pub open spec fn spec_check_private_file(meta: Option<Metadata>) -> Result<(), ConfigError> {
    match meta {
        None => Err(ConfigError::Unreadable),
        Some(meta) => if !meta.is_file {
            Err(ConfigError::NotAFile)
        } else if spec_insecure(meta.mode) {
            Err(ConfigError::InsecurePermissions { mode: meta.mode })
        } else {
            Ok(())
        },
    }
}

/// Checks that a key file is a regular file that only its owner can reach.
pub fn check_private_file(meta: Option<Metadata>) -> (res: Result<(), ConfigError>)
    ensures
        res == spec_check_private_file(meta),
{
    match meta {
        None => Err(ConfigError::Unreadable),
        Some(meta) => {
            if !meta.is_file {
                Err(ConfigError::NotAFile)
            } else if meta.mode & 0o077 != 0 {
                Err(ConfigError::InsecurePermissions { mode: meta.mode })
            } else {
                Ok(())
            }
        },
    }
}

/// A regular file with the mode that the vault creates its files with
/// passes as private.
pub proof fn private_mode_is_private()
    ensures
        spec_check_private_file(Some(Metadata { is_file: true, mode: PRIVATE_MODE })) == Ok::<
            (),
            ConfigError,
        >(()),
{
    assert(0o600u32 & 0o077 == 0) by (bit_vector);
}

/// The index of the first line feed of `text` at or after `from`, or the
/// length of `text` where none follows.
pub open spec fn line_end(text: Seq<u8>, from: int) -> int
    decreases text.len() - from,
{
    if from >= text.len() {
        text.len() as int
    } else if text[from] == 0x0a {
        from
    } else {
        line_end(text, from + 1)
    }
}

/// The line that starts at `from` and whose line feed, if it has one, is at
/// `end`: a carriage return just before the line feed belongs to the line
/// ending.
pub open spec fn line_at(text: Seq<u8>, from: int, end: int) -> Seq<u8> {
    if end < text.len() && from < end && text[end - 1] == 0x0d {
        text.subrange(from, end - 1)
    } else {
        text.subrange(from, end)
    }
}

/// The lines of `text` from `from` on.
pub open spec fn lines_from(text: Seq<u8>, from: int) -> Seq<Seq<u8>>
    decreases text.len() - from,
{
    if from < 0 || from >= text.len() {
        Seq::empty()
    } else {
        let end = line_end(text, from);
        if end < from {
            Seq::empty()
        } else if end >= text.len() {
            seq![line_at(text, from, end)]
        } else {
            seq![line_at(text, from, end)] + lines_from(text, end + 1)
        }
    }
}

/// The lines of `text`. A line ends with a line feed, or with a carriage
/// return and a line feed; the last line need not end at all, and no line
/// follows a final line ending.
pub open spec fn spec_lines(text: Seq<u8>) -> Seq<Seq<u8>> {
    lines_from(text, 0)
}

/// The lines of `text`.
pub fn lines(text: &[u8]) -> (out: Vec<Vec<u8>>)
    ensures
        texts(out@) == spec_lines(text@),
{
    let n = text.len();
    let mut out: Vec<Vec<u8>> = Vec::new();
    let mut from: usize = 0;
    while from < n
        invariant
            from <= n,
            n == text@.len(),
            texts(out@) + lines_from(text@, from as int) == spec_lines(text@),
        decreases n - from,
    {
        let mut end = from;
        while end < n && text[end] != 0x0a
            invariant
                from <= end <= n,
                n == text@.len(),
                line_end(text@, from as int) == line_end(text@, end as int),
            decreases n - end,
        {
            end += 1;
        }
        let stop = if end < n && from < end && text[end - 1] == 0x0d {
            end - 1
        } else {
            end
        };
        let line = slice_to_vec(slice_subrange(text, from, stop));
        proof {
            assert(texts(out@) + (seq![line@] + lines_from(text@, end + 1)) =~= texts(
                out@,
            ).push(line@) + lines_from(text@, end + 1));
        }
        out.push(line);
        if end == n {
            from = n;
        } else {
            from = end + 1;
        }
    }
    out
}

/// Whether a line of a key file holds a key: it is not empty and does not
/// start with `#`.
pub open spec fn is_key_line(line: Seq<u8>) -> bool {
    line.len() > 0 && line[0] != 0x23
}

/// Whether a line of a key file holds a key.
pub fn key_line(line: &[u8]) -> (key: bool)
    ensures
        key == is_key_line(line@),
{
    line.len() > 0 && line[0] != 0x23
}

/// The index of the first key line at or after `from`, or the number of
/// lines where none follows.
pub open spec fn next_key_line(lines: Seq<Seq<u8>>, from: int) -> int
    decreases lines.len() - from,
{
    if from >= lines.len() {
        lines.len() as int
    } else if is_key_line(lines[from]) {
        from
    } else {
        next_key_line(lines, from + 1)
    }
}

/// The identity that a key file holds: its first key line, which must be an
/// identity.
pub open spec fn spec_identity(text: Seq<u8>) -> Result<Seq<u8>, ConfigError> {
    let lines = spec_lines(text);
    let at = next_key_line(lines, 0);
    if at >= lines.len() {
        Err(ConfigError::MissingIdentity)
    } else if age_identity_parses(lines[at]) {
        Ok(lines[at])
    } else {
        Err(ConfigError::InvalidIdentity)
    }
}

/// The key lines among the first `upto` lines.
pub open spec fn key_lines(lines: Seq<Seq<u8>>, upto: int) -> Seq<Seq<u8>>
    decreases upto,
{
    if upto <= 0 {
        Seq::empty()
    } else if is_key_line(lines[upto - 1]) {
        key_lines(lines, upto - 1).push(lines[upto - 1])
    } else {
        key_lines(lines, upto - 1)
    }
}

/// Whether the line with index `at` is a key line that is no usable
/// recipient.
pub open spec fn bad_line(lines: Seq<Seq<u8>>, at: int) -> bool {
    0 <= at < lines.len() && is_key_line(lines[at]) && !usable_recipient(lines[at])
}

/// The index of the first bad line at or after `from`, or the number of
/// lines where none follows.
pub open spec fn next_bad_line(lines: Seq<Seq<u8>>, from: int) -> int
    decreases lines.len() - from,
{
    if from >= lines.len() {
        lines.len() as int
    } else if bad_line(lines, from) {
        from
    } else {
        next_bad_line(lines, from + 1)
    }
}

/// The recipients that a recipients file holds: its key lines in their
/// order. The first key line that is no usable recipient spoils the file,
/// and so does having no key line.
pub open spec fn spec_recipients(text: Seq<u8>) -> Result<Seq<Seq<u8>>, ConfigError> {
    let lines = spec_lines(text);
    let bad = next_bad_line(lines, 0);
    if bad < lines.len() {
        Err(ConfigError::InvalidRecipient { line: bad as usize })
    } else if key_lines(lines, lines.len() as int).len() == 0 {
        Err(ConfigError::NoRecipients)
    } else {
        Ok(key_lines(lines, lines.len() as int))
    }
}

/// What is wrong with the keys of a configuration, if anything: the
/// identity is looked at first, then the recipients.
pub open spec fn spec_key_fault(key_text: Seq<u8>, recipients_text: Seq<u8>) -> Option<
    ConfigError,
> {
    match spec_identity(key_text) {
        Err(e) => Some(e),
        Ok(_) => match spec_recipients(recipients_text) {
            Err(e) => Some(e),
            Ok(_) => None,
        },
    }
}

/// The directories that the vault works in.
#[derive(Debug)]
pub struct Directories {
    cache: String,
    repository: String,
}

impl Directories {
    /// The directories `cache`, for scratch files, and `repository`.
    pub fn new(cache: &str, repository: &str) -> (dirs: Directories)
        ensures
            dirs.spec_cache() == cache@,
            dirs.spec_repository() == repository@,
    {
        Directories { cache: String::from_str(cache), repository: String::from_str(repository) }
    }

    /// The directory for scratch files.
    pub closed spec fn spec_cache(&self) -> Seq<char> {
        self.cache@
    }

    /// The repository that is synchronised.
    pub closed spec fn spec_repository(&self) -> Seq<char> {
        self.repository@
    }

    /// The directory for scratch files.
    pub fn cache(&self) -> (dir: &str)
        ensures
            dir@ == self.spec_cache(),
    {
        self.cache.as_str()
    }

    /// The repository that is synchronised.
    pub fn repository(&self) -> (dir: &str)
        ensures
            dir@ == self.spec_repository(),
    {
        self.repository.as_str()
    }
}

/// The two key files: where they lie and what they hold.
pub struct Secrets {
    key_file: String,
    recipients_file: String,
    key_text: Vec<u8>,
    recipients_text: Vec<u8>,
}

impl Secrets {
    /// The key file at `key_file`, which holds `key_text`, and the
    /// recipients file at `recipients_file`, which holds `recipients_text`.
    pub fn new(
        key_file: &str,
        key_text: Vec<u8>,
        recipients_file: &str,
        recipients_text: Vec<u8>,
    ) -> (secrets: Secrets)
        ensures
            secrets.spec_key_file() == key_file@,
            secrets.spec_recipients_file() == recipients_file@,
            secrets.spec_key_text() == key_text@,
            secrets.spec_recipients_text() == recipients_text@,
    {
        Secrets {
            key_file: String::from_str(key_file),
            recipients_file: String::from_str(recipients_file),
            key_text,
            recipients_text,
        }
    }

    /// Where the key file lies.
    pub closed spec fn spec_key_file(&self) -> Seq<char> {
        self.key_file@
    }

    /// Where the recipients file lies.
    pub closed spec fn spec_recipients_file(&self) -> Seq<char> {
        self.recipients_file@
    }

    /// What the key file holds.
    pub closed spec fn spec_key_text(&self) -> Seq<u8> {
        self.key_text@
    }

    /// What the recipients file holds.
    pub closed spec fn spec_recipients_text(&self) -> Seq<u8> {
        self.recipients_text@
    }

    /// Where the key file lies.
    pub fn key_file(&self) -> (path: &str)
        ensures
            path@ == self.spec_key_file(),
    {
        self.key_file.as_str()
    }

    /// Where the recipients file lies.
    pub fn recipients_file(&self) -> (path: &str)
        ensures
            path@ == self.spec_recipients_file(),
    {
        self.recipients_file.as_str()
    }

    /// Checks that the key files hold what every operation on a secret
    /// needs: an identity and at least one recipient.
    pub fn check(&self) -> (res: Result<(), ConfigError>)
        ensures
            res == match spec_key_fault(self.spec_key_text(), self.spec_recipients_text()) {
                Some(e) => Err::<(), ConfigError>(e),
                None => Ok::<(), ConfigError>(()),
            },
    {
        if let Err(e) = self.identity() {
            return Err(e);
        }
        if let Err(e) = self.recipients() {
            return Err(e);
        }
        Ok(())
    }

    /// The identity of the key file.
    pub fn identity(&self) -> (res: Result<Identity, ConfigError>)
        ensures
            match res {
                Ok(identity) => spec_identity(self.spec_key_text()) == Ok::<
                    Seq<u8>,
                    ConfigError,
                >(identity@),
                Err(e) => spec_identity(self.spec_key_text()) == Err::<Seq<u8>, ConfigError>(e),
            },
    {
        let lines = lines(self.key_text.as_slice());
        let mut i: usize = 0;
        while i < lines.len()
            invariant
                i <= lines@.len(),
                texts(lines@) == spec_lines(self.spec_key_text()),
                next_key_line(texts(lines@), 0) == next_key_line(texts(lines@), i as int),
            decreases lines@.len() - i,
        {
            if key_line(lines[i].as_slice()) {
                return match Identity::parse(lines[i].as_slice()) {
                    Ok(identity) => Ok(identity),
                    Err(_) => Err(ConfigError::InvalidIdentity),
                };
            }
            i += 1;
        }
        Err(ConfigError::MissingIdentity)
    }

    /// The recipients of the recipients file.
    pub fn recipients(&self) -> (res: Result<RecipientSet, ConfigError>)
        ensures
            match res {
                Ok(set) => spec_recipients(self.spec_recipients_text()) == Ok::<
                    Seq<Seq<u8>>,
                    ConfigError,
                >(set@),
                Err(e) => spec_recipients(self.spec_recipients_text()) == Err::<
                    Seq<Seq<u8>>,
                    ConfigError,
                >(e),
            },
    {
        let lines = lines(self.recipients_text.as_slice());
        let mut set = RecipientSet::new();
        let mut i: usize = 0;
        while i < lines.len()
            invariant
                i <= lines@.len(),
                texts(lines@) == spec_lines(self.spec_recipients_text()),
                next_bad_line(texts(lines@), 0) == next_bad_line(texts(lines@), i as int),
                set@ == key_lines(texts(lines@), i as int),
            decreases lines@.len() - i,
        {
            if key_line(lines[i].as_slice()) {
                match Recipient::parse(lines[i].as_slice()) {
                    Ok(recipient) => {
                        set = set.with(recipient);
                    },
                    Err(_) => {
                        return Err(ConfigError::InvalidRecipient { line: i });
                    },
                }
            }
            i += 1;
        }
        if set.is_empty() {
            Err(ConfigError::NoRecipients)
        } else {
            Ok(set)
        }
    }
}

/// The configuration of the vault.
pub struct Config {
    editor: String,
    dirs: Directories,
    secrets: Secrets,
}

/// What checking a configuration says, given what the file system says of
/// the repository and of the two key files.
pub open spec fn spec_validate(
    key_text: Seq<u8>,
    repository_is_dir: bool,
    key_file: Option<Metadata>,
    recipients_file: Option<Metadata>,
) -> Result<(), ConfigError> {
    if !repository_is_dir {
        Err(ConfigError::RepositoryNotDirectory)
    } else if spec_check_private_file(key_file) is Err {
        spec_check_private_file(key_file)
    } else if spec_check_private_file(recipients_file) is Err {
        spec_check_private_file(recipients_file)
    } else {
        match spec_identity(key_text) {
            Ok(_) => Ok(()),
            Err(e) => Err(e),
        }
    }
}

impl Config {
    /// The configuration with the editor command `editor`.
    pub fn new(editor: &str, dirs: Directories, secrets: Secrets) -> (config: Config)
        ensures
            config.spec_editor() == editor@,
            config.spec_dirs() == dirs,
            config.spec_secrets() == secrets,
    {
        Config { editor: String::from_str(editor), dirs, secrets }
    }

    /// The editor command.
    pub closed spec fn spec_editor(&self) -> Seq<char> {
        self.editor@
    }

    /// The directories.
    pub closed spec fn spec_dirs(&self) -> Directories {
        self.dirs
    }

    /// The key files.
    pub closed spec fn spec_secrets(&self) -> Secrets {
        self.secrets
    }

    /// The editor command.
    pub fn editor(&self) -> (editor: &str)
        ensures
            editor@ == self.spec_editor(),
    {
        self.editor.as_str()
    }

    /// The directories.
    pub fn dirs(&self) -> (dirs: &Directories)
        ensures
            *dirs == self.spec_dirs(),
    {
        &self.dirs
    }

    /// The key files.
    pub fn secrets(&self) -> (secrets: &Secrets)
        ensures
            *secrets == self.spec_secrets(),
    {
        &self.secrets
    }

    /// Checks the configuration against what the file system says:
    /// `repository_is_dir` of the repository, and `key_file` and
    /// `recipients_file` of the two key files. The first fault found, in
    /// that order and then in the key file's text, is the error.
    pub fn validate(
        self,
        repository_is_dir: bool,
        key_file: Option<Metadata>,
        recipients_file: Option<Metadata>,
    ) -> (res: Result<Config, ConfigError>)
        ensures
            match res {
                Ok(config) => config == self && spec_validate(
                    self.spec_secrets().spec_key_text(),
                    repository_is_dir,
                    key_file,
                    recipients_file,
                ) is Ok,
                Err(e) => spec_validate(
                    self.spec_secrets().spec_key_text(),
                    repository_is_dir,
                    key_file,
                    recipients_file,
                ) == Err::<(), ConfigError>(e),
            },
    {
        if !repository_is_dir {
            return Err(ConfigError::RepositoryNotDirectory);
        }
        if let Err(e) = check_private_file(key_file) {
            return Err(e);
        }
        if let Err(e) = check_private_file(recipients_file) {
            return Err(e);
        }
        match self.secrets.identity() {
            Ok(_) => Ok(self),
            Err(e) => Err(e),
        }
    }
}

} // verus!
