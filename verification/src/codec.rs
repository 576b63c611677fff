//! Sealing plaintext into an armored age envelope for a set of recipients,
//! and opening an envelope with an identity.

use crate::error::{CryptoError, ErrorKind};
use crate::keys::{
    age_identity_parses, age_public_key, all_usable, bech32_payload, texts, Identity,
    RecipientSet,
};
use age::DecryptError;
use std::io::Write;
use vstd::prelude::*;

verus! {

/// Why age did not open an envelope: the variants of `age::DecryptError`.
#[derive(Clone, Copy, Debug, PartialEq, Eq, Structural)]
pub enum DecryptFailure {
    DecryptionFailed,
    ExcessiveWork,
    InvalidHeader,
    InvalidMac,
    Io,
    KeyDecryptionFailed,
    NoMatchingKeys,
    UnknownFormat,
}

/// `age::EncryptError`, what age reports when it cannot seal. The library
/// hands it on and looks at nothing inside.
#[verifier::external_type_specification]
#[verifier::external_body]
pub struct ExEncryptError(age::EncryptError);

/// What `age::decrypt` returns for the envelope `envelope` and the identity
/// written as `identity`: the plaintext, or why there is none.
pub uninterp spec fn age_opened(envelope: Seq<u8>, identity: Seq<u8>) -> Result<
    Seq<u8>,
    DecryptFailure,
>;

/// The line that an armored envelope begins with.
pub open spec fn armor_begin() -> Seq<u8> {
    seq![
        0x2du8, 0x2d, 0x2d, 0x2d, 0x2d, 0x42, 0x45, 0x47, 0x49, 0x4e, 0x20, 0x41, 0x47, 0x45,
        0x20, 0x45, 0x4e, 0x43, 0x52, 0x59, 0x50, 0x54, 0x45, 0x44, 0x20, 0x46, 0x49, 0x4c,
        0x45, 0x2d, 0x2d, 0x2d, 0x2d, 0x2d,
    ]
}

/// The line that an armored envelope ends with, without its line ending.
pub open spec fn armor_end() -> Seq<u8> {
    seq![
        0x2du8, 0x2d, 0x2d, 0x2d, 0x2d, 0x45, 0x4e, 0x44, 0x20, 0x41, 0x47, 0x45, 0x20, 0x45,
        0x4e, 0x43, 0x52, 0x59, 0x50, 0x54, 0x45, 0x44, 0x20, 0x46, 0x49, 0x4c, 0x45, 0x2d,
        0x2d, 0x2d, 0x2d, 0x2d,
    ]
}

/// Whether `bytes` end with `tail`.
pub open spec fn ends_with(bytes: Seq<u8>, tail: Seq<u8>) -> bool {
    bytes.len() >= tail.len() && bytes.skip(bytes.len() - tail.len()) == tail
}

/// Whether `envelope` is delimited as an armored age file is: it begins
/// with the armor's first line and ends with the armor's last line, which
/// a line feed closes, alone or after a carriage return.
pub open spec fn armored(envelope: Seq<u8>) -> bool {
    &&& envelope.len() >= 34
    &&& envelope.take(34) == armor_begin()
    &&& ends_with(envelope, armor_end() + seq![0x0au8]) || ends_with(
        envelope,
        armor_end() + seq![0x0du8, 0x0a],
    )
}

/// Whether the text `recipient` encodes the public key of the identity
/// written as `identity`: the key bytes that the text holds are those that
/// the identity's public key is printed with. The same key in upper and in
/// lower case is the same key.
pub open spec fn same_key(recipient: Seq<u8>, identity: Seq<u8>) -> bool {
    bech32_payload(recipient) is Some && bech32_payload(recipient) == bech32_payload(
        age_public_key(identity),
    )
}

/// Whether `identity` is the private key of one of `recipients`, whichever
/// way the recipient is written.
pub open spec fn opens_with(recipients: Seq<Seq<u8>>, identity: Seq<u8>) -> bool {
    age_identity_parses(identity) && exists|i: int|
        0 <= i < recipients.len() && #[trigger] same_key(recipients[i], identity)
}

/// Whether `envelope` holds `plaintext` for `recipients` and for nobody
/// else: every identity of one of them opens it and finds exactly the
/// plaintext, and every other identity is told that no stanza is for it.
pub open spec fn sealed_for(
    envelope: Seq<u8>,
    plaintext: Seq<u8>,
    recipients: Seq<Seq<u8>>,
) -> bool {
    forall|identity: Seq<u8>|
        #![trigger age_opened(envelope, identity)]
        age_identity_parses(identity) ==> age_opened(envelope, identity) == if opens_with(
            recipients,
            identity,
        ) {
            Ok::<Seq<u8>, DecryptFailure>(plaintext)
        } else {
            Err::<Seq<u8>, DecryptFailure>(DecryptFailure::NoMatchingKeys)
        }
}

/// Seals `plaintext` with age: `Encryptor::with_recipients` on the keys
/// that the texts encode, an `ArmoredWriter` around a fresh buffer, the
/// plaintext written through both, and both finished.
///
/// With at least one recipient the call succeeds: an X25519 recipient
/// wraps the file key without an error and without labels, the header is
/// refused only for recipients of other kinds, and all that is written
/// goes to a buffer in memory. Without recipients age returns an error.
///
/// The envelope differs from call to call, so the contract says what holds
/// of each one. It begins with the armor's first line and ends with its
/// last. Every identity whose public key is among the recipients opens it
/// to the plaintext, as age promises of a file encrypted to a recipient,
/// and every other identity is told that no key matches. To open, age
/// tries the identity on each stanza in turn and takes the first that
/// authenticates; that a stanza for another key authenticates has the odds
/// of a forged Poly1305 tag, and the contract takes it for impossible. age
/// aborts when its key agreement with a recipient yields zero; `requires`
/// leaves those recipients out.
#[verifier::external_body]
fn seal(plaintext: &[u8], recipients: &Vec<Vec<u8>>) -> (res: Result<Vec<u8>, age::EncryptError>)
    requires
        all_usable(texts(recipients@)),
    ensures
        recipients@.len() > 0 ==> res is Ok,
        res matches Ok(envelope) ==> armored(envelope@) && sealed_for(
            envelope@,
            plaintext@,
            texts(recipients@),
        ),
{
    let keys: Vec<age::x25519::Recipient> =
        recipients.iter().map(|text| std::str::from_utf8(text).unwrap().parse().unwrap()).collect();
    let encryptor =
        age::Encryptor::with_recipients(keys.iter().map(|key| key as &dyn age::Recipient))?;
    let mut envelope = Vec::new();
    let armor =
        age::armor::ArmoredWriter::wrap_output(&mut envelope, age::armor::Format::AsciiArmor)?;
    let mut writer = encryptor.wrap_output(armor)?;
    writer.write_all(plaintext)?;
    writer.finish()?.finish()?;
    Ok(envelope)
}

/// Opens `envelope` with `age::decrypt`, which reads armored and binary
/// envelopes alike. The contract names the result; an error keeps its
/// variant and loses what it carried.
#[verifier::external_body]
fn open(envelope: &[u8], identity: &[u8]) -> (res: Result<Vec<u8>, DecryptFailure>)
    requires
        age_identity_parses(identity@),
    ensures
        match res {
            Ok(plaintext) => age_opened(envelope@, identity@) == Ok::<Seq<u8>, DecryptFailure>(
                plaintext@,
            ),
            Err(failure) => age_opened(envelope@, identity@) == Err::<Seq<u8>, DecryptFailure>(
                failure,
            ),
        },
{
    let key: age::x25519::Identity = std::str::from_utf8(identity).unwrap().parse().unwrap();
    match age::decrypt(&key, envelope) {
        Ok(plaintext) => Ok(plaintext),
        Err(DecryptError::DecryptionFailed) => Err(DecryptFailure::DecryptionFailed),
        Err(DecryptError::ExcessiveWork { .. }) => Err(DecryptFailure::ExcessiveWork),
        Err(DecryptError::InvalidHeader) => Err(DecryptFailure::InvalidHeader),
        Err(DecryptError::InvalidMac) => Err(DecryptFailure::InvalidMac),
        Err(DecryptError::Io(_)) => Err(DecryptFailure::Io),
        Err(DecryptError::KeyDecryptionFailed) => Err(DecryptFailure::KeyDecryptionFailed),
        Err(DecryptError::NoMatchingKeys) => Err(DecryptFailure::NoMatchingKeys),
        Err(DecryptError::UnknownFormat) => Err(DecryptFailure::UnknownFormat),
    }
}

/// The error that stands for a failure of age to open an envelope. Only a
/// missing stanza is the identity's fault; all else is damage to the bytes,
/// which is also what a read error on bytes in memory means.
pub open spec fn spec_crypto_error(failure: DecryptFailure) -> CryptoError {
    match failure {
        DecryptFailure::NoMatchingKeys => CryptoError::NoMatchingIdentity,
        _ => CryptoError::MalformedEnvelope,
    }
}

/// The error that stands for a failure of age to open an envelope.
pub fn crypto_error(failure: DecryptFailure) -> (e: CryptoError)
    ensures
        e == spec_crypto_error(failure),
{
    match failure {
        DecryptFailure::NoMatchingKeys => CryptoError::NoMatchingIdentity,
        _ => CryptoError::MalformedEnvelope,
    }
}

/// What opening `envelope` with `identity` gives. No bytes are no envelope.
pub open spec fn spec_decrypt(envelope: Seq<u8>, identity: Seq<u8>) -> Result<
    Seq<u8>,
    CryptoError,
> {
    if envelope.len() == 0 {
        Err(CryptoError::MalformedEnvelope)
    } else {
        match age_opened(envelope, identity) {
            Ok(plaintext) => Ok(plaintext),
            Err(failure) => Err(spec_crypto_error(failure)),
        }
    }
}

/// The bytes of a result, so that it can be compared with a specification.
pub open spec fn bytes_of<E>(res: Result<Vec<u8>, E>) -> Result<Seq<u8>, E> {
    match res {
        Ok(bytes) => Ok(bytes@),
        Err(e) => Err(e),
    }
}

/// What the caller of the codec sees of age's answer to an attempt to open
/// an envelope.
pub fn decrypt_outcome(opened: Result<Vec<u8>, DecryptFailure>) -> (res: Result<
    Vec<u8>,
    CryptoError,
>)
    ensures
        res == match opened {
            Ok(plaintext) => Ok::<Vec<u8>, CryptoError>(plaintext),
            Err(failure) => Err::<Vec<u8>, CryptoError>(spec_crypto_error(failure)),
        },
{
    match opened {
        Ok(plaintext) => Ok(plaintext),
        Err(failure) => Err(crypto_error(failure)),
    }
}

/// Opens `envelope` with `identity` and returns its plaintext.
pub fn decrypt(envelope: &[u8], identity: &Identity) -> (res: Result<Vec<u8>, CryptoError>)
    ensures
        bytes_of(res) == spec_decrypt(envelope@, identity@),
{
    if envelope.len() == 0 {
        return Err(CryptoError::MalformedEnvelope);
    }
    decrypt_outcome(open(envelope, identity.as_bytes()))
}

/// What the caller of the codec sees of age's answer to an attempt to seal
/// an envelope: the envelope, or `Io` for whatever age objected to.
pub fn encrypt_outcome(sealed: Result<Vec<u8>, age::EncryptError>) -> (res: Result<
    Vec<u8>,
    ErrorKind,
>)
    ensures
        res == match sealed {
            Ok(envelope) => Ok::<Vec<u8>, ErrorKind>(envelope),
            Err(_) => Err::<Vec<u8>, ErrorKind>(ErrorKind::Io),
        },
{
    match sealed {
        Ok(envelope) => Ok(envelope),
        Err(_) => Err(ErrorKind::Io),
    }
}

/// Seals `plaintext` for `recipients` and returns the armored envelope.
///
/// An empty set is refused before anything is sealed. With recipients, the
/// result is an armored envelope that each of them can open, and nobody
/// else.
pub fn encrypt(plaintext: &[u8], recipients: &RecipientSet) -> (res: Result<Vec<u8>, ErrorKind>)
    ensures
        recipients@.len() == 0 <==> res == Err::<Vec<u8>, ErrorKind>(
            ErrorKind::Crypto(CryptoError::NoRecipients),
        ),
        recipients@.len() > 0 <==> res is Ok,
        res matches Ok(envelope) ==> armored(envelope@) && sealed_for(
            envelope@,
            plaintext@,
            recipients@,
        ),
{
    if recipients.is_empty() {
        return Err(ErrorKind::Crypto(CryptoError::NoRecipients));
    }
    encrypt_outcome(seal(plaintext, recipients.texts()))
}

} // verus!
