//! What holds of the vault whatever the inputs, proved from the contracts
//! of its operations.

use crate::codec::{armored, opens_with, sealed_for, spec_decrypt};
use crate::config::spec_key_fault;
use crate::keys::age_identity_parses;
use crate::config::{spec_identity, spec_recipients};
use crate::error::{CryptoError, ErrorKind, Stage};
use crate::hasher::spec_blake3;
use crate::scratch::{opt_bytes, ScratchView, TempFile};
use crate::secret::{
    edit_step, reports, rotated, sealed_into, spec_decrypt_to, spec_staged, spec_verdict, staged,
    Commit, EditEvent, EditState, SecretView,
};
use vstd::prelude::*;

verus! {

/// Round trip: whatever envelope sealing `plaintext` for `recipients` gave,
/// opening it with the identity of any of the recipients gives exactly the
/// plaintext back. This holds of the empty plaintext too, and of a
/// recipient written in upper case as of one written in lower case.
pub proof fn round_trip(
    plaintext: Seq<u8>,
    recipients: Seq<Seq<u8>>,
    envelope: Seq<u8>,
    identity: Seq<u8>,
)
    requires
        armored(envelope),
        sealed_for(envelope, plaintext, recipients),
        opens_with(recipients, identity),
    ensures
        spec_decrypt(envelope, identity) == Ok::<Seq<u8>, CryptoError>(plaintext),
{
}

/// Wrong identity: whatever envelope sealing for `recipients` gave, an
/// identity that belongs to none of them is refused with
/// `NoMatchingIdentity` and gets no plaintext.
pub proof fn foreign_identity_is_refused(
    plaintext: Seq<u8>,
    recipients: Seq<Seq<u8>>,
    envelope: Seq<u8>,
    identity: Seq<u8>,
)
    requires
        armored(envelope),
        sealed_for(envelope, plaintext, recipients),
        age_identity_parses(identity),
        !opens_with(recipients, identity),
    ensures
        spec_decrypt(envelope, identity) == Err::<Seq<u8>, CryptoError>(
            CryptoError::NoMatchingIdentity,
        ),
{
}

/// A change of recipients changes the bytes: two envelopes, one sealed for
/// a set that `identity` belongs to and one for a set that it does not
/// belong to, are never the same bytes, whatever they hold.
pub proof fn other_recipients_other_bytes(
    first: Seq<u8>,
    first_plaintext: Seq<u8>,
    first_recipients: Seq<Seq<u8>>,
    second: Seq<u8>,
    second_plaintext: Seq<u8>,
    second_recipients: Seq<Seq<u8>>,
    identity: Seq<u8>,
)
    requires
        sealed_for(first, first_plaintext, first_recipients),
        sealed_for(second, second_plaintext, second_recipients),
        age_identity_parses(identity),
        opens_with(first_recipients, identity) != opens_with(second_recipients, identity),
    ensures
        first != second,
{
    if first == second {
        assert(crate::codec::age_opened(first, identity) == crate::codec::age_opened(
            second,
            identity,
        ));
    }
}

/// A stored secret reads back: once `plaintext` has been sealed into a
/// file, the identity of the key file, if it belongs to one of the
/// recipients, finds exactly `plaintext` in the file, whatever the file
/// held before and however long that was.
pub proof fn stored_secret_reads_back(
    before: SecretView,
    after: SecretView,
    key_text: Seq<u8>,
    recipients_text: Seq<u8>,
    plaintext: Seq<u8>,
)
    requires
        sealed_into(before, after, recipients_text, plaintext, None),
        spec_identity(key_text) matches Ok(identity) && spec_recipients(recipients_text) matches Ok(
            recipients,
        ) && opens_with(recipients, identity),
    ensures
        spec_decrypt_to(key_text, after.content) == Ok::<Seq<u8>, ErrorKind>(plaintext),
        spec_staged(key_text, after.content) == Ok::<Seq<u8>, ErrorKind>(plaintext),
{
    let identity = spec_identity(key_text)->Ok_0;
    let recipients = spec_recipients(recipients_text)->Ok_0;
    round_trip(plaintext, recipients, after.content, identity);
}

/// No-op idempotence: if the editor succeeds and leaves in the scratch file
/// what was staged from a stored secret, the stored bytes stay exactly as
/// they were, and the edit ends without having written.
pub proof fn unchanged_edit_stores_nothing(
    before: SecretView,
    after: SecretView,
    cache: Seq<char>,
    key_text: Seq<u8>,
    recipients_text: Seq<u8>,
    tmp: TempFile,
    scratch: Option<Vec<u8>>,
    next: EditState,
)
    requires
        before.content.len() > 0,
        staged(before, cache, key_text, Ok(tmp)),
        opt_bytes(scratch) == tmp@.content,
        edit_step(
            before,
            after,
            cache,
            key_text,
            recipients_text,
            EditState::Edit(tmp),
            EditEvent::EditorExited { success: true, scratch },
            next,
        ),
    ensures
        after == before,
        !(next matches EditState::Done(Commit::Written)),
        tmp@.content->0.len() > 0 || before.allow_empty ==> next matches EditState::Done(
            Commit::Unchanged,
        ),
{
}

/// A failed step leaves the secret alone: whenever a step of an edit ends
/// in `Fail`, the stored bytes are exactly as they were before the step.
pub proof fn failed_edit_stores_nothing(
    before: SecretView,
    after: SecretView,
    cache: Seq<char>,
    key_text: Seq<u8>,
    recipients_text: Seq<u8>,
    state: EditState,
    event: EditEvent,
    next: EditState,
)
    requires
        edit_step(before, after, cache, key_text, recipients_text, state, event, next),
        next is Fail,
    ensures
        after == before,
{
}

/// A failed rotation leaves the secret alone: whenever re-keying fails, the
/// stored bytes are exactly as they were.
pub proof fn failed_rotation_stores_nothing(
    before: SecretView,
    after: SecretView,
    key_text: Seq<u8>,
    recipients_text: Seq<u8>,
    e: crate::error::Error,
)
    requires
        rotated(before, after, key_text, recipients_text, Some(e)),
    ensures
        after == before,
{
}

/// An empty secret is refused unless it is allowed: a step that commits an
/// empty scratch file for a secret that must not be empty ends in `Fail`
/// with `EmptySecretRejected`.
pub proof fn empty_edit_is_rejected(
    before: SecretView,
    after: SecretView,
    cache: Seq<char>,
    key_text: Seq<u8>,
    recipients_text: Seq<u8>,
    tmp: TempFile,
    scratch: Option<Vec<u8>>,
    next: EditState,
)
    requires
        !before.allow_empty,
        scratch matches Some(bytes) && bytes@.len() == 0,
        edit_step(
            before,
            after,
            cache,
            key_text,
            recipients_text,
            EditState::Edit(tmp),
            EditEvent::EditorExited { success: true, scratch },
            next,
        ),
    ensures
        after == before,
        next matches EditState::Fail(e) && reports(
            e,
            ErrorKind::EmptySecretRejected,
            Stage::Validate,
            before.path,
        ),
{
}

/// The scratch file does not outlive the edit: when the editor has exited,
/// the step ends the edit, and a state in which the edit is over holds no
/// scratch file.
pub proof fn editor_exit_ends_the_edit(
    before: SecretView,
    after: SecretView,
    cache: Seq<char>,
    key_text: Seq<u8>,
    recipients_text: Seq<u8>,
    tmp: TempFile,
    success: bool,
    scratch: Option<Vec<u8>>,
    next: EditState,
)
    requires
        edit_step(
            before,
            after,
            cache,
            key_text,
            recipients_text,
            EditState::Edit(tmp),
            EditEvent::EditorExited { success, scratch },
            next,
        ),
    ensures
        next.terminal(),
        !(next is Edit),
{
}

/// Rotation preserves content: after a rotation that succeeded, every
/// identity of one of the current recipients finds in the file exactly the
/// plaintext that the file held before.
pub proof fn rotation_keeps_plaintext(
    before: SecretView,
    after: SecretView,
    key_text: Seq<u8>,
    recipients_text: Seq<u8>,
    identity: Seq<u8>,
)
    requires
        rotated(before, after, key_text, recipients_text, None),
        spec_recipients(recipients_text) matches Ok(recipients) && opens_with(recipients, identity),
    ensures
        spec_staged(key_text, before.content) matches Ok(plaintext) && spec_decrypt(
            after.content,
            identity,
        ) == Ok::<Seq<u8>, CryptoError>(plaintext),
{
    let plaintext = spec_staged(key_text, before.content)->Ok_0;
    let recipients = spec_recipients(recipients_text)->Ok_0;
    round_trip(plaintext, recipients, after.content, identity);
}

/// Rotation changes the bytes: where the stored envelope was sealed for
/// other recipients than the current ones, so that some identity belongs
/// to the one set and not to the other, a rotation that succeeded has
/// stored other bytes than were stored before.
pub proof fn rotation_changes_bytes(
    before: SecretView,
    after: SecretView,
    key_text: Seq<u8>,
    recipients_text: Seq<u8>,
    old_plaintext: Seq<u8>,
    old_recipients: Seq<Seq<u8>>,
    identity: Seq<u8>,
)
    requires
        sealed_for(before.content, old_plaintext, old_recipients),
        rotated(before, after, key_text, recipients_text, None),
        age_identity_parses(identity),
        spec_recipients(recipients_text) matches Ok(recipients) && opens_with(
            old_recipients,
            identity,
        ) != opens_with(recipients, identity),
    ensures
        after.content != before.content,
{
    let recipients = spec_recipients(recipients_text)->Ok_0;
    let plaintext = spec_staged(key_text, before.content)->Ok_0;
    other_recipients_other_bytes(
        before.content,
        old_plaintext,
        old_recipients,
        after.content,
        plaintext,
        recipients,
        identity,
    );
}

/// Rotation succeeds where all is in order: with an identity and
/// recipients in the configuration, and a stored envelope that the
/// identity opens to a plaintext that the secret may hold, re-keying does
/// not fail, and neither does it for a secret of which nothing is stored
/// and which may be empty.
pub proof fn rotation_succeeds(
    before: SecretView,
    after: SecretView,
    key_text: Seq<u8>,
    recipients_text: Seq<u8>,
    failure: Option<crate::error::Error>,
)
    requires
        rotated(before, after, key_text, recipients_text, failure),
        spec_key_fault(key_text, recipients_text) is None,
        spec_staged(key_text, before.content) matches Ok(plaintext) && (plaintext.len() > 0
            || before.allow_empty),
    ensures
        failure is None,
        spec_recipients(recipients_text) matches Ok(recipients) && armored(after.content)
            && sealed_for(
            after.content,
            spec_staged(key_text, before.content)->Ok_0,
            recipients,
        ),
{
}

/// New content is stored: if the editor succeeds and leaves in the scratch
/// file something that the secret may hold and that differs from what was
/// staged, and the recipients file is in order, the edit ends with an
/// envelope of exactly that content stored for the recipients.
pub proof fn changed_edit_is_stored(
    before: SecretView,
    after: SecretView,
    cache: Seq<char>,
    key_text: Seq<u8>,
    recipients_text: Seq<u8>,
    tmp: TempFile,
    scratch: Option<Vec<u8>>,
    next: EditState,
)
    requires
        spec_recipients(recipients_text) is Ok,
        scratch matches Some(bytes) && (bytes@.len() > 0 || before.allow_empty) && tmp@.hash
            != Some(spec_blake3(bytes@)),
        edit_step(
            before,
            after,
            cache,
            key_text,
            recipients_text,
            EditState::Edit(tmp),
            EditEvent::EditorExited { success: true, scratch },
            next,
        ),
    ensures
        next matches EditState::Done(Commit::Written),
        armored(after.content),
        sealed_for(after.content, scratch->0@, spec_recipients(recipients_text)->Ok_0),
{
}

/// Equal content has equal digests: a scratch file that holds what it was
/// staged with is kept, never sealed.
pub proof fn same_content_is_kept(allow_empty: bool, scratch: ScratchView)
    requires
        scratch.content matches Some(content) && scratch.hash == Some(spec_blake3(content)),
    ensures
        !(spec_verdict(allow_empty, scratch) is Seal),
{
}

} // verus!
