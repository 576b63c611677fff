//! Keys: the identity that opens envelopes and the recipients they are
//! sealed for, both held in age's text encoding.

use crate::error::KeyError;
use bech32::FromBase32;
use vstd::prelude::*;
use vstd::slice::slice_to_vec;

verus! {

/// Whether `age::x25519::Recipient::from_str` accepts `text`, read as UTF-8.
pub uninterp spec fn age_recipient_parses(text: Seq<u8>) -> bool;

/// Whether `age::x25519::Identity::from_str` accepts `text`, read as UTF-8.
pub uninterp spec fn age_identity_parses(text: Seq<u8>) -> bool;

/// The recipient key that `age::x25519::Identity::to_public` derives from
/// the identity written as `identity`, in the text that its `Display` gives.
pub uninterp spec fn age_public_key(identity: Seq<u8>) -> Seq<u8>;

/// The bytes that `bech32::decode` finds in `text`, regrouped from five to
/// eight bits; `None` where `text` is no Bech32 string.
pub uninterp spec fn bech32_payload(text: Seq<u8>) -> Option<Seq<u8>>;

/// The u-coordinate that `x25519_dalek::x25519` computes from a scalar and
/// a point: the scalar, clamped, times the point.
pub uninterp spec fn x25519_share(scalar: Seq<u8>, point: Seq<u8>) -> Seq<u8>;

/// Thirty-two zero bytes: as a scalar it clamps to 2^254, as a share it is
/// the one that a key agreement with a low-order point yields.
pub open spec fn zero32() -> Seq<u8> {
    Seq::new(32, |i: int| 0u8)
}

/// Whether the key bytes `key` are a point that contributes to a key
/// agreement. The scalar 2^254 sends a point to zero exactly if the point's
/// order divides 8, and then every clamped scalar does.
pub open spec fn contributes(key: Seq<u8>) -> bool {
    key.len() == 32 && x25519_share(zero32(), key) != zero32()
}

/// Whether `text` is a recipient that an envelope can be sealed for: age
/// reads it as a key, and the key contributes to a key agreement.
pub open spec fn usable_recipient(text: Seq<u8>) -> bool {
    &&& age_recipient_parses(text)
    &&& bech32_payload(text) matches Some(key) && contributes(key)
}

/// What parsing `text` as a recipient gives.
pub open spec fn spec_parse_recipient(text: Seq<u8>) -> Result<Seq<u8>, KeyError> {
    if !age_recipient_parses(text) {
        Err(KeyError::Malformed)
    } else {
        match bech32_payload(text) {
            Some(key) => if key.len() != 32 {
                Err(KeyError::Malformed)
            } else if contributes(key) {
                Ok(text)
            } else {
                Err(KeyError::LowOrder)
            },
            None => Err(KeyError::Malformed),
        }
    }
}

/// What parsing `text` as an identity gives.
pub open spec fn spec_parse_identity(text: Seq<u8>) -> Result<Seq<u8>, KeyError> {
    if age_identity_parses(text) {
        Ok(text)
    } else {
        Err(KeyError::Malformed)
    }
}

/// Asks `age::x25519::Recipient::from_str` whether it accepts `text`. Bytes
/// that are not UTF-8 are no text and so no key.
#[verifier::external_body]
fn recipient_parses(text: &[u8]) -> (ok: bool)
    ensures
        ok == age_recipient_parses(text@),
{
    std::str::from_utf8(text).is_ok_and(|s| s.parse::<age::x25519::Recipient>().is_ok())
}

/// Asks `age::x25519::Identity::from_str` whether it accepts `text`. Bytes
/// that are not UTF-8 are no text and so no key.
#[verifier::external_body]
fn identity_parses(text: &[u8]) -> (ok: bool)
    ensures
        ok == age_identity_parses(text@),
{
    std::str::from_utf8(text).is_ok_and(|s| s.parse::<age::x25519::Identity>().is_ok())
}

/// Calls `age::x25519::Identity::to_public` on the identity that `identity`
/// encodes and returns the recipient's text. The contract names the result.
#[verifier::external_body]
fn public_key_text(identity: &[u8]) -> (text: Vec<u8>)
    requires
        age_identity_parses(identity@),
    ensures
        text@ == age_public_key(identity@),
{
    let key: age::x25519::Identity = std::str::from_utf8(identity).unwrap().parse().unwrap();
    key.to_public().to_string().into_bytes()
}

/// Calls `bech32::decode` and regroups the data to bytes, as age does when
/// it reads a key. The contract names the result.
#[verifier::external_body]
fn bech32_data(text: &[u8]) -> (data: Option<Vec<u8>>)
    ensures
        data is Some <==> bech32_payload(text@) is Some,
        data matches Some(d) ==> bech32_payload(text@) == Some(d@),
{
    let (_, data, _) = bech32::decode(std::str::from_utf8(text).ok()?).ok()?;
    Vec::<u8>::from_base32(&data).ok()
}

/// Calls `x25519_dalek::x25519`, the function of RFC 7748 on 32-byte
/// strings. The contract names the result and gives its length.
#[verifier::external_body]
fn x25519(scalar: &[u8], point: &[u8]) -> (share: Vec<u8>)
    requires
        scalar@.len() == 32,
        point@.len() == 32,
    ensures
        share@ == x25519_share(scalar@, point@),
        share@.len() == 32,
{
    x25519_dalek::x25519(scalar.try_into().unwrap(), point.try_into().unwrap()).to_vec()
}

/// `n` zero bytes.
fn zeros(n: usize) -> (v: Vec<u8>)
    ensures
        v@ == Seq::new(n as nat, |i: int| 0u8),
{
    let mut v: Vec<u8> = Vec::new();
    while v.len() < n
        invariant
            v@.len() <= n,
            forall|i: int| 0 <= i < v@.len() ==> v@[i] == 0u8,
        decreases n - v@.len(),
    {
        v.push(0u8);
    }
    v
}

/// Whether every byte is zero.
fn all_zero(bytes: &[u8]) -> (zero: bool)
    ensures
        zero == (bytes@ == Seq::new(bytes@.len(), |i: int| 0u8)),
{
    let mut i: usize = 0;
    while i < bytes.len()
        invariant
            i <= bytes@.len(),
            forall|j: int| 0 <= j < i ==> bytes@[j] == 0u8,
        decreases bytes@.len() - i,
    {
        if bytes[i] != 0 {
            return false;
        }
        i += 1;
    }
    assert(bytes@ =~= Seq::new(bytes@.len(), |i: int| 0u8));
    true
}

/// A public key: whoever holds the matching identity can open what is
/// sealed for it.
#[derive(Debug)]
pub struct Recipient {
    encoded: Vec<u8>,
}

impl View for Recipient {
    type V = Seq<u8>;

    closed spec fn view(&self) -> Seq<u8> {
        self.encoded@
    }
}

impl Recipient {
    #[verifier::type_invariant]
    closed spec fn usable(self) -> bool {
        usable_recipient(self.encoded@)
    }

    /// Reads a recipient from its text. The text must be a key for age and
    /// must not be a low-order point.
    pub fn parse(text: &[u8]) -> (res: Result<Recipient, KeyError>)
        ensures
            res is Ok <==> usable_recipient(text@),
            match res {
                Ok(r) => spec_parse_recipient(text@) == Ok::<Seq<u8>, KeyError>(r@),
                Err(e) => spec_parse_recipient(text@) == Err::<Seq<u8>, KeyError>(e),
            },
    {
        if !recipient_parses(text) {
            return Err(KeyError::Malformed);
        }
        match bech32_data(text) {
            Some(key) => {
                if key.len() != 32 {
                    return Err(KeyError::Malformed);
                }
                let probe = zeros(32);
                let share = x25519(probe.as_slice(), key.as_slice());
                if all_zero(share.as_slice()) {
                    Err(KeyError::LowOrder)
                } else {
                    Ok(Recipient { encoded: slice_to_vec(text) })
                }
            },
            None => Err(KeyError::Malformed),
        }
    }

    /// The key's text, which is a usable recipient.
    pub fn as_bytes(&self) -> (bytes: &[u8])
        ensures
            bytes@ == self@,
            usable_recipient(self@),
    {
        proof {
            use_type_invariant(self);
        }
        self.encoded.as_slice()
    }
}

/// The recipients of an envelope, in the order in which they were given.
#[derive(Debug)]
pub struct RecipientSet {
    keys: Vec<Vec<u8>>,
}

/// The texts that `keys` holds.
pub open spec fn texts(keys: Seq<Vec<u8>>) -> Seq<Seq<u8>> {
    Seq::new(keys.len(), |i: int| keys[i]@)
}

impl View for RecipientSet {
    type V = Seq<Seq<u8>>;

    closed spec fn view(&self) -> Seq<Seq<u8>> {
        texts(self.keys@)
    }
}

/// Whether every text in `keys` is a usable recipient.
pub open spec fn all_usable(keys: Seq<Seq<u8>>) -> bool {
    forall|i: int| 0 <= i < keys.len() ==> usable_recipient(#[trigger] keys[i])
}

impl RecipientSet {
    #[verifier::type_invariant]
    closed spec fn usable(self) -> bool {
        all_usable(texts(self.keys@))
    }

    /// The empty set.
    pub fn new() -> (set: RecipientSet)
        ensures
            set@ == Seq::<Seq<u8>>::empty(),
    {
        RecipientSet { keys: Vec::new() }
    }

    /// The set with `recipient` added after those already there.
    pub fn with(self, recipient: Recipient) -> (set: RecipientSet)
        ensures
            set@ == self@.push(recipient@),
    {
        proof {
            use_type_invariant(&recipient);
            use_type_invariant(&self);
        }
        let mut keys = self.keys;
        keys.push(recipient.encoded);
        assert(texts(keys@) =~= self@.push(recipient@));
        RecipientSet { keys }
    }

    /// How many recipients there are.
    pub fn len(&self) -> (n: usize)
        ensures
            n == self@.len(),
    {
        self.keys.len()
    }

    /// Whether there is no recipient.
    pub fn is_empty(&self) -> (empty: bool)
        ensures
            empty == (self@.len() == 0),
    {
        self.keys.len() == 0
    }

    /// The texts of the recipients, each of them usable.
    pub fn texts(&self) -> (keys: &Vec<Vec<u8>>)
        ensures
            texts(keys@) == self@,
            all_usable(self@),
    {
        proof {
            use_type_invariant(self);
        }
        &self.keys
    }
}

/// A private key. It opens the envelopes that were sealed for its public
/// key.
pub struct Identity {
    encoded: Vec<u8>,
}

impl View for Identity {
    type V = Seq<u8>;

    closed spec fn view(&self) -> Seq<u8> {
        self.encoded@
    }
}

impl Identity {
    #[verifier::type_invariant]
    closed spec fn accepted(self) -> bool {
        age_identity_parses(self.encoded@)
    }

    /// Reads an identity from its text.
    pub fn parse(text: &[u8]) -> (res: Result<Identity, KeyError>)
        ensures
            res is Ok <==> age_identity_parses(text@),
            match res {
                Ok(i) => spec_parse_identity(text@) == Ok::<Seq<u8>, KeyError>(i@),
                Err(e) => spec_parse_identity(text@) == Err::<Seq<u8>, KeyError>(e),
            },
    {
        if identity_parses(text) {
            Ok(Identity { encoded: slice_to_vec(text) })
        } else {
            Err(KeyError::Malformed)
        }
    }

    /// The key's text, which age reads as an identity.
    pub fn as_bytes(&self) -> (bytes: &[u8])
        ensures
            bytes@ == self@,
            age_identity_parses(self@),
    {
        proof {
            use_type_invariant(self);
        }
        self.encoded.as_slice()
    }

    /// The recipient that envelopes for this identity are sealed for.
    pub fn to_public(&self) -> (res: Result<Recipient, KeyError>)
        ensures
            match res {
                Ok(r) => spec_parse_recipient(age_public_key(self@)) == Ok::<Seq<u8>, KeyError>(r@),
                Err(e) => spec_parse_recipient(age_public_key(self@)) == Err::<Seq<u8>, KeyError>(e),
            },
    {
        proof {
            use_type_invariant(self);
        }
        let text = public_key_text(self.encoded.as_slice());
        Recipient::parse(text.as_slice())
    }
}

} // verus!
