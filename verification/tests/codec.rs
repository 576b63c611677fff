use age::secrecy::ExposeSecret;
use mctl::codec::{
    crypto_error, decrypt, decrypt_outcome, encrypt, encrypt_outcome, DecryptFailure,
};
use mctl::error::{CryptoError, ErrorKind, KeyError};
use mctl::keys::{Identity, Recipient, RecipientSet};

fn fresh_identity() -> Identity {
    let key = age::x25519::Identity::generate();
    Identity::parse(key.to_string().expose_secret().as_bytes()).unwrap()
}

#[test]
fn sealed_plaintext_opens_again() {
    let identity = fresh_identity();
    let recipients = RecipientSet::new().with(identity.to_public().unwrap());
    let envelope = encrypt(b"Hello World!", &recipients).unwrap();
    assert!(envelope.starts_with(b"-----BEGIN AGE ENCRYPTED FILE-----"));
    assert!(envelope.ends_with(b"-----END AGE ENCRYPTED FILE-----\n"));
    assert_eq!(decrypt(&envelope, &identity).unwrap(), b"Hello World!".to_vec());
}

#[test]
fn empty_recipient_set_is_refused() {
    let res = encrypt(b"Hello", &RecipientSet::new());
    assert_eq!(res, Err(ErrorKind::Crypto(CryptoError::NoRecipients)));
}

#[test]
fn foreign_identity_opens_nothing() {
    let owner = fresh_identity();
    let stranger = fresh_identity();
    let recipients = RecipientSet::new().with(owner.to_public().unwrap());
    let envelope = encrypt(b"Hello", &recipients).unwrap();
    assert_eq!(decrypt(&envelope, &stranger), Err(CryptoError::NoMatchingIdentity));
}

#[test]
fn low_order_recipient_is_refused() {
    // The points of order 1, 2, 4 and 8, written as x25519 reads them: as
    // 0, 1, the two of order 8, p - 1, p and p + 1, each with the top bit
    // clear and set.
    let keys: [&[u8]; 14] = [
        b"age1qqqqqqqqqqqqqqqqqqqqqqqqqqqqqqqqqqqqqqqqqqqqqqqqqqqq5cu47z",
        b"age1qyqqqqqqqqqqqqqqqqqqqqqqqqqqqqqqqqqqqqqqqqqqqqqqqqqqj7vrya",
        b"age1ur4h5lpmgxu2u9jku0a0r87ydtdqnr0tnsetrlvxvgz3vh6fhqqqzyt4v9",
        b"age1t7wft09r2zxzfvwsk92eeql0tvzyghxytqwgapkcyf8dm5ylz9ts6wm9s8",
        b"age1anlllllllllllllllllllllllllllllllllllllllllllllllals4n2t7m",
        b"age1ahlllllllllllllllllllllllllllllllllllllllllllllllalsn46ayy",
        b"age1amlllllllllllllllllllllllllllllllllllllllllllllllalselrwrv",
        b"age1qqqqqqqqqqqqqqqqqqqqqqqqqqqqqqqqqqqqqqqqqqqqqqqqqzqqsuwj9m",
        b"age1qyqqqqqqqqqqqqqqqqqqqqqqqqqqqqqqqqqqqqqqqqqqqqqqqzqqk67yly",
        b"age1ur4h5lpmgxu2u9jku0a0r87ydtdqnr0tnsetrlvxvgz3vh6fhzqqxqejhu",
        b"age1t7wft09r2zxzfvwsk92eeql0tvzyghxytqwgapkcyf8dm5ylz8ts72fzt7",
        b"age1anllllllllllllllllllllllllllllllllllllllllllllllllls3hcv9z",
        b"age1ahlllllllllllllllllllllllllllllllllllllllllllllllllsh3g6la",
        b"age1amlllllllllllllllllllllllllllllllllllllllllllllllllsam3fc4",
    ];
    for text in keys {
        match Recipient::parse(text) {
            Err(e) => assert_eq!(e, KeyError::LowOrder),
            Ok(_) => panic!("a low-order key was accepted"),
        }
    }
}

#[test]
fn base_point_is_a_usable_recipient() {
    let text = b"age1pyqqqqqqqqqqqqqqqqqqqqqqqqqqqqqqqqqqqqqqqqqqqqqqqqqqq8r66x";
    assert!(Recipient::parse(text).is_ok());
}

#[test]
fn text_that_is_no_key_is_malformed() {
    assert!(matches!(Recipient::parse(b"age1notakey"), Err(KeyError::Malformed)));
    assert!(matches!(Recipient::parse(b""), Err(KeyError::Malformed)));
    assert!(matches!(Recipient::parse(&[0xff, 0xfe]), Err(KeyError::Malformed)));
    assert!(matches!(Identity::parse(b"AGE-SECRET-KEY-1"), Err(KeyError::Malformed)));
}

#[test]
fn public_key_is_derived_by_age() {
    let identity = Identity::parse(
        b"AGE-SECRET-KEY-1GQ9778VQXMMJVE8SK7J6VT8UJ4HDQAJUVSFCWCM02D8GEWQ72PVQ2Y5J33",
    )
    .unwrap();
    let recipient = identity.to_public().unwrap();
    assert_eq!(
        recipient.as_bytes(),
        b"age1t7rxyev2z3rw82stdlrrepyc39nvn86l5078zqkf5uasdy86jp6svpy7pa"
    );
}

#[test]
fn every_recipient_can_open() {
    let first = fresh_identity();
    let second = fresh_identity();
    let recipients = RecipientSet::new()
        .with(first.to_public().unwrap())
        .with(second.to_public().unwrap());
    assert_eq!(recipients.len(), 2);
    let envelope = encrypt(b"shared", &recipients).unwrap();
    assert_eq!(decrypt(&envelope, &first).unwrap(), b"shared".to_vec());
    assert_eq!(decrypt(&envelope, &second).unwrap(), b"shared".to_vec());
}

#[test]
fn no_bytes_are_no_envelope() {
    let identity = fresh_identity();
    assert_eq!(decrypt(b"", &identity), Err(CryptoError::MalformedEnvelope));
}

#[test]
fn damaged_envelope_is_malformed() {
    let identity = fresh_identity();
    let recipients = RecipientSet::new().with(identity.to_public().unwrap());
    let envelope = encrypt(b"Hello World!", &recipients).unwrap();

    // A character of the last line of the armor's body: the payload's tag.
    let mut flipped = envelope.clone();
    let end = flipped.len() - "\n-----END AGE ENCRYPTED FILE-----\n".len();
    let at = end - 8;
    flipped[at] = if flipped[at] == b'A' { b'B' } else { b'A' };
    assert_eq!(decrypt(&flipped, &identity), Err(CryptoError::MalformedEnvelope));

    assert_eq!(decrypt(&envelope[..40], &identity), Err(CryptoError::MalformedEnvelope));
    assert_eq!(decrypt(b"plain text", &identity), Err(CryptoError::MalformedEnvelope));
}

#[test]
fn binary_envelope_opens_too() {
    let key = age::x25519::Identity::generate();
    let binary = age::encrypt(&key.to_public(), b"from elsewhere").unwrap();
    let identity = Identity::parse(key.to_string().expose_secret().as_bytes()).unwrap();
    assert_eq!(decrypt(&binary, &identity).unwrap(), b"from elsewhere".to_vec());
}

#[test]
fn envelope_opens_with_age_itself() {
    let key = age::x25519::Identity::generate();
    let identity = Identity::parse(key.to_string().expose_secret().as_bytes()).unwrap();
    let recipients = RecipientSet::new().with(identity.to_public().unwrap());
    let envelope = encrypt(b"for others", &recipients).unwrap();
    assert_eq!(age::decrypt(&key, &envelope).unwrap(), b"for others".to_vec());
}

#[test]
fn upper_case_recipient_is_the_same_key() {
    let key = age::x25519::Identity::generate();
    let identity = Identity::parse(key.to_string().expose_secret().as_bytes()).unwrap();
    let shouted = key.to_public().to_string().to_uppercase();
    let recipients = RecipientSet::new().with(Recipient::parse(shouted.as_bytes()).unwrap());
    assert_eq!(recipients.texts(), &vec![shouted.clone().into_bytes()]);
    let envelope = encrypt(b"Hello", &recipients).unwrap();
    assert_eq!(decrypt(&envelope, &identity).unwrap(), b"Hello".to_vec());

    let mixed = format!("age1{}", &shouted[4..]);
    assert!(matches!(Recipient::parse(mixed.as_bytes()), Err(KeyError::Malformed)));
    let padded = format!("{} ", key.to_public());
    assert!(matches!(Recipient::parse(padded.as_bytes()), Err(KeyError::Malformed)));
}

#[test]
fn whatever_age_objects_to_is_an_io_failure() {
    assert_eq!(encrypt_outcome(Ok(vec![1, 2, 3])), Ok(vec![1, 2, 3]));
    let broken = std::io::Error::new(std::io::ErrorKind::Other, "disk full");
    assert_eq!(encrypt_outcome(Err(age::EncryptError::Io(broken))), Err(ErrorKind::Io));

    assert_eq!(decrypt_outcome(Ok(vec![7])), Ok(vec![7]));
    assert_eq!(
        decrypt_outcome(Err(DecryptFailure::NoMatchingKeys)),
        Err(CryptoError::NoMatchingIdentity)
    );
    for failure in [
        DecryptFailure::DecryptionFailed,
        DecryptFailure::ExcessiveWork,
        DecryptFailure::InvalidHeader,
        DecryptFailure::InvalidMac,
        DecryptFailure::Io,
        DecryptFailure::KeyDecryptionFailed,
        DecryptFailure::UnknownFormat,
    ] {
        assert_eq!(crypto_error(failure), CryptoError::MalformedEnvelope);
        assert_eq!(decrypt_outcome(Err(failure)), Err(CryptoError::MalformedEnvelope));
    }
}

#[test]
fn sealing_for_recipients_always_gives_an_armored_envelope() {
    let identity = fresh_identity();
    let recipients = RecipientSet::new().with(identity.to_public().unwrap());
    let sizes = [0usize, 1, 47, 48, 49, 64, 65_535, 65_536, 65_537, 200_000];
    for size in sizes {
        let plaintext = vec![0x5a; size];
        let envelope = encrypt(&plaintext, &recipients).unwrap();
        assert!(envelope.starts_with(b"-----BEGIN AGE ENCRYPTED FILE-----\n"));
        assert!(envelope.ends_with(b"\n-----END AGE ENCRYPTED FILE-----\n"));
        assert_eq!(decrypt(&envelope, &identity).unwrap(), plaintext);
    }
}

#[test]
fn envelope_is_for_its_recipients_and_nobody_else() {
    let first = fresh_identity();
    let second = fresh_identity();
    let outsider = fresh_identity();
    let recipients = RecipientSet::new()
        .with(first.to_public().unwrap())
        .with(second.to_public().unwrap());
    for _ in 0..16 {
        let envelope = encrypt(b"shared", &recipients).unwrap();
        assert_eq!(decrypt(&envelope, &second).unwrap(), b"shared".to_vec());
        assert_eq!(decrypt(&envelope, &first).unwrap(), b"shared".to_vec());
        assert_eq!(decrypt(&envelope, &outsider), Err(CryptoError::NoMatchingIdentity));
    }
}
