//! The life of a secret: staged as plaintext for an edit, sealed again if
//! the edit changed it, read, imported and re-keyed.
//!
//! A secret is the bytes of one armored envelope. No bytes at all stand for
//! a secret that does not exist yet. Every operation takes the stored bytes
//! and says which bytes are to be stored next; an operation that fails
//! leaves them as they were. Before it looks at a secret, an operation
//! makes sure that the configuration has an identity and recipients.

use crate::codec::{armored, decrypt, encrypt, sealed_for, spec_decrypt};
use crate::config::{spec_identity, spec_key_fault, spec_recipients, Config};
use crate::error::{Error, ErrorKind, Stage};
use crate::hasher::{digest, spec_blake3};
use crate::scratch::{
    opt_bytes, scratch_name, spec_extension_hint, ScratchView, TempFile,
};
use vstd::prelude::*;
use vstd::slice::slice_to_vec;

verus! {

/// What a secret file is: where it lies, whether it may hold an empty
/// secret, and the bytes that are stored.
pub struct SecretView {
    pub path: Seq<char>,
    pub allow_empty: bool,
    pub content: Seq<u8>,
}

/// A secret file.
pub struct SecretFile {
    path: String,
    allow_empty: bool,
    content: Vec<u8>,
}

impl View for SecretFile {
    type V = SecretView;

    closed spec fn view(&self) -> SecretView {
        SecretView { path: self.path@, allow_empty: self.allow_empty, content: self.content@ }
    }
}

/// Whether an operation replaced the stored envelope.
#[derive(Clone, Copy, Debug, PartialEq, Eq, Structural)]
pub enum Commit {
    /// The stored bytes are as they were.
    Unchanged,
    /// The stored bytes are a new envelope.
    Written,
}

/// What is to happen to a scratch file that comes back from the editor.
pub enum Verdict {
    /// The operation fails with this kind of error at this step.
    Reject(ErrorKind, Stage),
    /// The scratch file holds what it held before: nothing is stored.
    Keep,
    /// The scratch file holds this new plaintext, which is sealed and stored.
    Seal(Seq<u8>),
}

/// The plaintext that the key file's identity finds in `content`, or why
/// it finds none.
pub open spec fn spec_decrypt_to(key_text: Seq<u8>, content: Seq<u8>) -> Result<
    Seq<u8>,
    ErrorKind,
> {
    match spec_identity(key_text) {
        Err(e) => Err(ErrorKind::Config(e)),
        Ok(identity) => match spec_decrypt(content, identity) {
            Ok(plaintext) => Ok(plaintext),
            Err(e) => Err(ErrorKind::Crypto(e)),
        },
    }
}

/// The plaintext that an operation on `content` starts from: nothing for a
/// secret that does not exist yet, else what the envelope holds.
pub open spec fn spec_staged(key_text: Seq<u8>, content: Seq<u8>) -> Result<Seq<u8>, ErrorKind> {
    if content.len() == 0 {
        Ok(Seq::empty())
    } else {
        spec_decrypt_to(key_text, content)
    }
}

/// The verdict on a scratch file: it must exist, it must not be empty
/// unless that is allowed, and it is sealed unless it holds exactly what
/// its remembered digest is the digest of.
pub open spec fn spec_verdict(allow_empty: bool, scratch: ScratchView) -> Verdict {
    match scratch.content {
        None => Verdict::Reject(ErrorKind::Io, Stage::Validate),
        Some(content) => if content.len() == 0 && !allow_empty {
            Verdict::Reject(ErrorKind::EmptySecretRejected, Stage::Validate)
        } else if scratch.hash == Some(spec_blake3(content)) {
            Verdict::Keep
        } else {
            Verdict::Seal(content)
        },
    }
}

/// Whether `e` reports a failure of `kind` at `stage` on the secret at
/// `path`.
pub open spec fn reports(e: Error, kind: ErrorKind, stage: Stage, path: Seq<char>) -> bool {
    e.kind == kind && e.stage == stage && e.path@ == path
}

/// What sealing `plaintext` into the file does. Where the recipients file
/// is in order, it succeeds, and the file then holds an armored envelope of
/// the plaintext for its recipients. Else the file is untouched and the
/// error says what is wrong with the recipients file.
pub open spec fn sealed_into(
    before: SecretView,
    after: SecretView,
    recipients_text: Seq<u8>,
    plaintext: Seq<u8>,
    failure: Option<Error>,
) -> bool {
    match failure {
        None => {
            &&& after.path == before.path
            &&& after.allow_empty == before.allow_empty
            &&& spec_recipients(recipients_text) matches Ok(recipients)
            &&& armored(after.content)
            &&& sealed_for(after.content, plaintext, recipients)
        },
        Some(e) => {
            &&& after == before
            &&& spec_recipients(recipients_text) matches Err(c)
            &&& reports(e, ErrorKind::Config(c), Stage::Commit, before.path)
        },
    }
}

/// What committing a scratch file does, verdict by verdict.
pub open spec fn committed(
    before: SecretView,
    after: SecretView,
    recipients_text: Seq<u8>,
    scratch: ScratchView,
    res: Result<Commit, Error>,
) -> bool {
    match spec_verdict(before.allow_empty, scratch) {
        Verdict::Reject(kind, stage) => {
            &&& after == before
            &&& res matches Err(e)
            &&& reports(e, kind, stage, before.path)
        },
        Verdict::Keep => {
            &&& after == before
            &&& res matches Ok(Commit::Unchanged)
        },
        Verdict::Seal(plaintext) => match res {
            Ok(commit) => commit == Commit::Written && sealed_into(
                before,
                after,
                recipients_text,
                plaintext,
                None,
            ),
            Err(e) => sealed_into(before, after, recipients_text, plaintext, Some(e)),
        },
    }
}

/// What staging a secret for an edit gives: a scratch file in the cache
/// directory, named after the secret, that holds the secret's plaintext and
/// remembers its digest; for a secret that does not exist yet, an empty
/// scratch file that remembers nothing.
pub open spec fn staged(
    file: SecretView,
    cache: Seq<char>,
    key_text: Seq<u8>,
    res: Result<TempFile, Error>,
) -> bool {
    match res {
        Ok(tmp) => {
            &&& tmp@.dir == cache
            &&& scratch_name(tmp@.name, spec_extension_hint(file.path))
            &&& spec_staged(key_text, file.content) matches Ok(plaintext)
            &&& tmp@.content == Some(plaintext)
            &&& tmp@.hash == if file.content.len() == 0 {
                None
            } else {
                Some(spec_blake3(plaintext))
            }
        },
        Err(e) => {
            &&& spec_staged(key_text, file.content) matches Err(kind)
            &&& reports(e, kind, Stage::StageDecrypt, file.path)
        },
    }
}

impl SecretFile {
    /// The secret at `path`, of which nothing is stored yet.
    pub fn new(path: &str, allow_empty: bool) -> (file: SecretFile)
        ensures
            file@ == (SecretView { path: path@, allow_empty, content: Seq::empty() }),
    {
        SecretFile { path: String::from_str(path), allow_empty, content: Vec::new() }
    }

    /// The same secret with `content` as its stored bytes.
    pub fn with_content(self, content: Vec<u8>) -> (file: SecretFile)
        ensures
            file@ == (SecretView { content: content@, ..self@ }),
    {
        SecretFile { path: self.path, allow_empty: self.allow_empty, content }
    }

    /// Where the secret lies.
    pub fn path(&self) -> (path: &str)
        ensures
            path@ == self@.path,
    {
        self.path.as_str()
    }

    /// Whether the secret may be empty.
    pub fn allow_empty(&self) -> (allow: bool)
        ensures
            allow == self@.allow_empty,
    {
        self.allow_empty
    }

    /// The stored bytes.
    pub fn content(&self) -> (content: &Vec<u8>)
        ensures
            content@ == self@.content,
    {
        &self.content
    }

    /// The stored bytes, for keeping.
    pub fn into_content(self) -> (content: Vec<u8>)
        ensures
            content@ == self@.content,
    {
        self.content
    }

    /// Whether a secret is stored: no bytes are no secret.
    pub fn is_stored(&self) -> (stored: bool)
        ensures
            stored == (self@.content.len() > 0),
    {
        self.content.len() > 0
    }

    /// Opens the stored envelope with the identity of the key file.
    pub fn decrypt_to(&self, config: &Config) -> (res: Result<Vec<u8>, Error>)
        ensures
            match res {
                Ok(plaintext) => spec_decrypt_to(
                    config.spec_secrets().spec_key_text(),
                    self@.content,
                ) == Ok::<Seq<u8>, ErrorKind>(plaintext@),
                Err(e) => spec_decrypt_to(config.spec_secrets().spec_key_text(), self@.content)
                    matches Err(kind) && reports(e, kind, Stage::StageDecrypt, self@.path),
            },
    {
        let identity = match config.secrets().identity() {
            Ok(identity) => identity,
            Err(e) => {
                return Err(
                    Error::new(ErrorKind::Config(e), Stage::StageDecrypt, self.path.as_str()),
                );
            },
        };
        match decrypt(self.content.as_slice(), &identity) {
            Ok(plaintext) => Ok(plaintext),
            Err(e) => Err(Error::new(ErrorKind::Crypto(e), Stage::StageDecrypt, self.path.as_str())),
        }
    }

    /// Takes what sealing gave: an envelope replaces whatever was stored; a
    /// failure leaves the stored bytes alone and is reported as one of the
    /// commit.
    pub fn commit(&mut self, sealed: Result<Vec<u8>, ErrorKind>) -> (res: Result<(), Error>)
        ensures
            match sealed {
                Ok(envelope) => res is Ok && final(self)@ == (SecretView {
                    content: envelope@,
                    ..old(self)@
                }),
                Err(kind) => {
                    &&& final(self)@ == old(self)@
                    &&& res matches Err(e)
                    &&& reports(e, kind, Stage::Commit, old(self)@.path)
                },
            },
    {
        match sealed {
            Ok(envelope) => {
                self.content = envelope;
                Ok(())
            },
            Err(kind) => Err(Error::new(kind, Stage::Commit, self.path.as_str())),
        }
    }

    /// Seals `plaintext` for the recipients of the recipients file and
    /// stores the envelope in place of whatever was stored.
    pub fn encrypt_from(&mut self, config: &Config, plaintext: &[u8]) -> (res: Result<(), Error>)
        ensures
            sealed_into(
                old(self)@,
                final(self)@,
                config.spec_secrets().spec_recipients_text(),
                plaintext@,
                match res {
                    Ok(_) => None,
                    Err(e) => Some(e),
                },
            ),
    {
        let recipients = match config.secrets().recipients() {
            Ok(recipients) => recipients,
            Err(e) => {
                return Err(Error::new(ErrorKind::Config(e), Stage::Commit, self.path.as_str()));
            },
        };
        self.commit(encrypt(plaintext, &recipients))
    }

    /// Stages the secret for an edit.
    pub fn decrypt_to_tmp(&self, config: &Config) -> (res: Result<TempFile, Error>)
        ensures
            staged(
                self@,
                config.spec_dirs().spec_cache(),
                config.spec_secrets().spec_key_text(),
                res,
            ),
    {
        let mut tmp = TempFile::from_secret(self.path.as_str(), config.dirs().cache());
        if self.content.len() == 0 {
            tmp.create();
            return Ok(tmp);
        }
        let plaintext = self.decrypt_to(config)?;
        tmp.write(Some(plaintext));
        tmp.remember();
        Ok(tmp)
    }

    /// Stores what the scratch file holds, sealed, unless it holds what it
    /// was handed out with.
    pub fn encrypt_from_tmp(&mut self, config: &Config, tmp: TempFile) -> (res: Result<
        Commit,
        Error,
    >)
        ensures
            committed(
                old(self)@,
                final(self)@,
                config.spec_secrets().spec_recipients_text(),
                tmp@,
                res,
            ),
    {
        let content = match tmp.open() {
            Ok(content) => content,
            Err(kind) => {
                return Err(Error::new(kind, Stage::Validate, self.path.as_str()));
            },
        };
        if content.len() == 0 && !self.allow_empty {
            return Err(
                Error::new(ErrorKind::EmptySecretRejected, Stage::Validate, self.path.as_str()),
            );
        }
        if let Some(prior) = tmp.prior() {
            if prior.same_as(&digest(content.as_slice())) {
                return Ok(Commit::Unchanged);
            }
        }
        match self.encrypt_from(config, content.as_slice()) {
            Ok(_) => Ok(Commit::Written),
            Err(e) => Err(e),
        }
    }

    /// Seals the secret's plaintext anew, for the recipients that the
    /// recipients file names now.
    pub fn rotate(&mut self, config: &Config) -> (res: Result<(), Error>)
        ensures
            rotated(
                old(self)@,
                final(self)@,
                config.spec_secrets().spec_key_text(),
                config.spec_secrets().spec_recipients_text(),
                match res {
                    Ok(_) => None,
                    Err(e) => Some(e),
                },
            ),
    {
        if let Err(e) = config.secrets().check() {
            return Err(Error::new(ErrorKind::Config(e), Stage::Open, self.path.as_str()));
        }
        let mut tmp = self.decrypt_to_tmp(config)?;
        tmp.forget();
        match self.encrypt_from_tmp(config, tmp) {
            Ok(_) => Ok(()),
            Err(e) => Err(e),
        }
    }
}

/// What re-keying does. A configuration without its keys is refused at
/// once. The plaintext is what the stored envelope holds, or nothing where
/// no secret is stored. It is sealed whether or not anything changed, so a
/// success always leaves a new envelope of the same plaintext; a failure
/// leaves the file untouched.
pub open spec fn rotated(
    before: SecretView,
    after: SecretView,
    key_text: Seq<u8>,
    recipients_text: Seq<u8>,
    failure: Option<Error>,
) -> bool {
    match spec_key_fault(key_text, recipients_text) {
        Some(fault) => {
            &&& after == before
            &&& failure matches Some(e)
            &&& reports(e, ErrorKind::Config(fault), Stage::Open, before.path)
        },
        None => match spec_staged(key_text, before.content) {
            Err(kind) => {
                &&& after == before
                &&& failure matches Some(e)
                &&& reports(e, kind, Stage::StageDecrypt, before.path)
            },
            Ok(plaintext) => if plaintext.len() == 0 && !before.allow_empty {
                &&& after == before
                &&& failure matches Some(e)
                &&& reports(e, ErrorKind::EmptySecretRejected, Stage::Validate, before.path)
            } else {
                sealed_into(before, after, recipients_text, plaintext, failure)
            },
        },
    }
}

/// Where an edit stands.
pub enum EditState {
    /// Nothing has happened yet.
    Open,
    /// The plaintext lies in this scratch file, and the editor is to run on
    /// it.
    Edit(TempFile),
    /// The edit is over.
    Done(Commit),
    /// The edit failed.
    Fail(Error),
}

/// What happened outside the library during an edit.
pub enum EditEvent {
    /// The edit was asked for.
    Start,
    /// The editor has exited: whether with success, and what the scratch
    /// file holds now, `None` where it is gone.
    EditorExited { success: bool, scratch: Option<Vec<u8>> },
}

/// What the program is to do in a state of an edit.
#[derive(Clone, Copy, Debug, PartialEq, Eq, Structural)]
pub enum EditAction {
    /// Report that the edit starts.
    Start,
    /// Put the scratch file on disk, run the editor on it, report how the
    /// editor exited and what the scratch file then holds, and remove it.
    RunEditor,
    /// Write the stored bytes to the secret's path.
    Store,
    /// Nothing is left to do.
    Nothing,
}

impl EditState {
    /// What the program is to do next.
    pub open spec fn spec_action(self) -> EditAction {
        match self {
            EditState::Open => EditAction::Start,
            EditState::Edit(_) => EditAction::RunEditor,
            EditState::Done(Commit::Written) => EditAction::Store,
            EditState::Done(Commit::Unchanged) => EditAction::Nothing,
            EditState::Fail(_) => EditAction::Nothing,
        }
    }

    /// What the program is to do next.
    pub fn action(&self) -> (action: EditAction)
        ensures
            action == self.spec_action(),
    {
        match self {
            EditState::Open => EditAction::Start,
            EditState::Edit(_) => EditAction::RunEditor,
            EditState::Done(Commit::Written) => EditAction::Store,
            EditState::Done(Commit::Unchanged) => EditAction::Nothing,
            EditState::Fail(_) => EditAction::Nothing,
        }
    }

    /// Whether the edit is over, one way or the other. No scratch file is
    /// left in such a state.
    pub open spec fn terminal(self) -> bool {
        self is Done || self is Fail
    }
}

/// What a step of an edit does.
///
/// From `Open`, the start leads to `Fail` where the configuration lacks
/// its keys; else it stages the secret and leads to `Edit`, or to `Fail`
/// where the stored envelope cannot be opened. From `Edit`, an
/// editor that failed leads to `Fail`; one that succeeded has the scratch
/// file, with what it holds now, committed, which leads to `Done` or
/// `Fail`. An event that does not belong to the state changes nothing, and
/// neither does any event once the edit is over. The file changes only on
/// the way to `Done(Written)`.
pub open spec fn edit_step(
    before: SecretView,
    after: SecretView,
    cache: Seq<char>,
    key_text: Seq<u8>,
    recipients_text: Seq<u8>,
    state: EditState,
    event: EditEvent,
    next: EditState,
) -> bool {
    match (state, event) {
        (EditState::Open, EditEvent::Start) => {
            &&& after == before
            &&& match spec_key_fault(key_text, recipients_text) {
                Some(fault) => {
                    &&& next matches EditState::Fail(e)
                    &&& reports(e, ErrorKind::Config(fault), Stage::Open, before.path)
                },
                None => match next {
                    EditState::Edit(tmp) => staged(before, cache, key_text, Ok(tmp)),
                    EditState::Fail(e) => staged(before, cache, key_text, Err(e)),
                    _ => false,
                },
            }
        },
        (EditState::Edit(tmp), EditEvent::EditorExited { success, scratch }) => if !success {
            &&& after == before
            &&& next matches EditState::Fail(e)
            &&& reports(e, ErrorKind::Editor, Stage::Edit, before.path)
        } else {
            match next {
                EditState::Done(commit) => committed(
                    before,
                    after,
                    recipients_text,
                    ScratchView { content: opt_bytes(scratch), ..tmp@ },
                    Ok(commit),
                ),
                EditState::Fail(e) => committed(
                    before,
                    after,
                    recipients_text,
                    ScratchView { content: opt_bytes(scratch), ..tmp@ },
                    Err(e),
                ),
                _ => false,
            }
        },
        _ => after == before && next == state,
    }
}

/// Takes an edit of `file` one step further: from `state`, on `event`, to
/// the state that is returned.
pub fn edit(config: &Config, file: &mut SecretFile, state: EditState, event: EditEvent) -> (next:
    EditState)
    ensures
        edit_step(
            old(file)@,
            final(file)@,
            config.spec_dirs().spec_cache(),
            config.spec_secrets().spec_key_text(),
            config.spec_secrets().spec_recipients_text(),
            state,
            event,
            next,
        ),
{
    match (state, event) {
        (EditState::Open, EditEvent::Start) => {
            if let Err(e) = config.secrets().check() {
                return EditState::Fail(Error::new(ErrorKind::Config(e), Stage::Open, file.path()));
            }
            match file.decrypt_to_tmp(config) {
                Ok(tmp) => EditState::Edit(tmp),
                Err(e) => EditState::Fail(e),
            }
        },
        (EditState::Edit(tmp), EditEvent::EditorExited { success, scratch }) => {
            if !success {
                return EditState::Fail(Error::new(ErrorKind::Editor, Stage::Edit, file.path()));
            }
            let mut tmp = tmp;
            tmp.write(scratch);
            match file.encrypt_from_tmp(config, tmp) {
                Ok(commit) => EditState::Done(commit),
                Err(e) => EditState::Fail(e),
            }
        },
        (state, _) => state,
    }
}

/// What reading a secret gives, or why it gives nothing.
pub open spec fn spec_cat(key_text: Seq<u8>, recipients_text: Seq<u8>, stored: Seq<u8>) -> Result<
    Seq<u8>,
    (ErrorKind, Stage),
> {
    match spec_key_fault(key_text, recipients_text) {
        Some(fault) => Err((ErrorKind::Config(fault), Stage::Open)),
        None => match spec_staged(key_text, stored) {
            Ok(plaintext) => Ok(plaintext),
            Err(kind) => Err((kind, Stage::StageDecrypt)),
        },
    }
}

/// Reads the secret at `file`, whose stored bytes are `stored`: its
/// plaintext, and nothing for a secret of which nothing is stored.
pub fn cat(config: &Config, file: &str, stored: &[u8]) -> (res: Result<Vec<u8>, Error>)
    ensures
        match res {
            Ok(plaintext) => spec_cat(
                config.spec_secrets().spec_key_text(),
                config.spec_secrets().spec_recipients_text(),
                stored@,
            ) == Ok::<Seq<u8>, (ErrorKind, Stage)>(plaintext@),
            Err(e) => spec_cat(
                config.spec_secrets().spec_key_text(),
                config.spec_secrets().spec_recipients_text(),
                stored@,
            ) == Err::<Seq<u8>, (ErrorKind, Stage)>((e.kind, e.stage)) && e.path@ == file@,
        },
{
    if let Err(e) = config.secrets().check() {
        return Err(Error::new(ErrorKind::Config(e), Stage::Open, file));
    }
    if stored.len() == 0 {
        return Ok(Vec::new());
    }
    SecretFile::new(file, true).with_content(slice_to_vec(stored)).decrypt_to(config)
}

/// What importing `input` gives: whether it is stored at all.
pub open spec fn spec_import(
    key_text: Seq<u8>,
    recipients_text: Seq<u8>,
    allow_empty: bool,
    input: Seq<u8>,
) -> Result<Seq<Seq<u8>>, (ErrorKind, Stage)> {
    match spec_key_fault(key_text, recipients_text) {
        Some(fault) => Err((ErrorKind::Config(fault), Stage::Open)),
        None => if input.len() == 0 && !allow_empty {
            Err((ErrorKind::EmptySecretRejected, Stage::Validate))
        } else {
            Ok(spec_recipients(recipients_text)->Ok_0)
        },
    }
}

/// Imports `input` as the secret at `file` and returns the bytes to store:
/// an envelope of the input for the recipients. Empty input is refused
/// unless `allow_empty` is set. Where the import fails there is nothing to
/// store, and what was stored before stays.
pub fn from_stdin(config: &Config, allow_empty: bool, file: &str, input: &[u8]) -> (res: Result<
    Vec<u8>,
    Error,
>)
    ensures
        match spec_import(
            config.spec_secrets().spec_key_text(),
            config.spec_secrets().spec_recipients_text(),
            allow_empty,
            input@,
        ) {
            Err((kind, stage)) => res matches Err(e) && reports(e, kind, stage, file@),
            Ok(recipients) => res matches Ok(envelope) && armored(envelope@) && sealed_for(
                envelope@,
                input@,
                recipients,
            ),
        },
{
    if let Err(e) = config.secrets().check() {
        return Err(Error::new(ErrorKind::Config(e), Stage::Open, file));
    }
    if input.len() == 0 && !allow_empty {
        return Err(Error::new(ErrorKind::EmptySecretRejected, Stage::Validate, file));
    }
    let mut secret = SecretFile::new(file, allow_empty);
    secret.encrypt_from(config, input)?;
    Ok(secret.into_content())
}

/// Re-keys the secret at `file`, whose stored bytes are `stored`, and
/// returns the bytes to store in their place.
pub fn rotate(config: &Config, file: &str, stored: Vec<u8>) -> (res: Result<Vec<u8>, Error>)
    ensures
        match res {
            Ok(envelope) => rotated(
                SecretView { path: file@, allow_empty: true, content: stored@ },
                SecretView { path: file@, allow_empty: true, content: envelope@ },
                config.spec_secrets().spec_key_text(),
                config.spec_secrets().spec_recipients_text(),
                None,
            ),
            Err(e) => rotated(
                SecretView { path: file@, allow_empty: true, content: stored@ },
                SecretView { path: file@, allow_empty: true, content: stored@ },
                config.spec_secrets().spec_key_text(),
                config.spec_secrets().spec_recipients_text(),
                Some(e),
            ),
        },
{
    let mut secret = SecretFile::new(file, true).with_content(stored);
    secret.rotate(config)?;
    Ok(secret.into_content())
}

} // verus!
