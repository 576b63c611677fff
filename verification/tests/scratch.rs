use mctl::error::ErrorKind;
use mctl::hasher::digest;
use mctl::scratch::{extension, extension_hint, file_name, join, strip_pem, TempFile};
use mctl::util::random_alpha_num;

#[test]
fn extension_hint_sets_the_marker_aside() {
    assert_eq!(extension_hint("secret.txt.pem"), Some("txt"));
    assert_eq!(extension_hint("/home/user/vault/db.yaml.pem"), Some("yaml"));
    assert_eq!(extension_hint("notes.md"), Some("md"));
    assert_eq!(extension_hint("archive.tar.gz"), Some("gz"));
    assert_eq!(extension_hint("x.txt.pem.pem"), Some("pem"));
}

#[test]
fn extension_hint_may_be_missing() {
    assert_eq!(extension_hint("secret.pem"), None);
    assert_eq!(extension_hint("secret"), None);
    assert_eq!(extension_hint("secret."), None);
    assert_eq!(extension_hint("secret..pem"), None);
    assert_eq!(extension_hint(""), None);
    assert_eq!(extension_hint("vault.d/secret"), None);
    assert_eq!(extension_hint("vault.d/"), None);
}

#[test]
fn file_name_follows_the_last_slash() {
    assert_eq!(file_name("a/b/c.txt"), "c.txt");
    assert_eq!(file_name("c.txt"), "c.txt");
    assert_eq!(file_name("/c"), "c");
    assert_eq!(file_name("a/"), "");
    assert_eq!(file_name("päth/ñame.tøml"), "ñame.tøml");
}

#[test]
fn strip_pem_takes_one_marker() {
    assert_eq!(strip_pem("key.pem"), "key");
    assert_eq!(strip_pem(".pem"), "");
    assert_eq!(strip_pem("pem"), "pem");
    assert_eq!(strip_pem("key.pem.pem"), "key.pem");
    assert_eq!(strip_pem("key.PEM"), "key.PEM");
    assert_eq!(strip_pem("key.pemx"), "key.pemx");
}

#[test]
fn extension_follows_the_last_dot() {
    assert_eq!(extension("a.b.c"), Some("c"));
    assert_eq!(extension(".hidden"), Some("hidden"));
    assert_eq!(extension("plain"), None);
    assert_eq!(extension("trailing."), None);
    assert_eq!(extension("ünï.cødé"), Some("cødé"));
}

#[test]
fn join_adds_one_separator() {
    assert_eq!(join("/tmp/mctl", "abc"), "/tmp/mctl/abc");
    assert_eq!(join("/tmp/mctl/", "abc"), "/tmp/mctl/abc");
    assert_eq!(join("", "abc"), "abc");
    assert_eq!(join("/", "abc"), "/abc");
}

#[test]
fn random_name_has_eight_letters_or_digits() {
    for _ in 0..64 {
        let name = random_alpha_num();
        assert_eq!(name.chars().count(), 8);
        assert!(name.chars().all(|c| c.is_ascii_alphanumeric()));
    }
    assert_ne!(random_alpha_num(), random_alpha_num());
}

#[test]
fn scratch_name_carries_the_extension() {
    let tmp = TempFile::new("/var/cache/mctl", Some("toml"));
    assert_eq!(tmp.dir(), "/var/cache/mctl");
    let name = tmp.name();
    assert_eq!(name.len(), 13);
    assert!(name[..8].chars().all(|c| c.is_ascii_alphanumeric()));
    assert_eq!(&name[8..], ".toml");
    assert_eq!(tmp.path(), format!("/var/cache/mctl/{}", name));

    let bare = TempFile::new("/var/cache/mctl", None);
    assert_eq!(bare.name().len(), 8);
    assert!(bare.name().chars().all(|c| c.is_ascii_alphanumeric()));
}

#[test]
fn scratch_for_a_secret_is_named_after_it() {
    let tmp = TempFile::from_secret("vault/secret.txt.pem", "cache");
    assert!(tmp.name().ends_with(".txt"));
    assert_eq!(tmp.name().len(), 12);
    let plain = TempFile::from_secret("vault/secret.pem", "cache");
    assert_eq!(plain.name().len(), 8);
}

#[test]
fn scratch_that_was_never_created_cannot_be_read() {
    let tmp = TempFile::new("cache", None);
    assert_eq!(tmp.open(), Err(ErrorKind::Io));
    assert!(tmp.hash().is_none());
    assert!(tmp.prior().is_none());
}

#[test]
fn scratch_is_empty_when_created() {
    let mut tmp = TempFile::new("cache", None);
    tmp.write(Some(b"old".to_vec()));
    tmp.create();
    assert_eq!(tmp.open(), Ok(&Vec::new()));
}

#[test]
fn scratch_remembers_and_forgets_its_digest() {
    let mut tmp = TempFile::new("cache", None);
    tmp.write(Some(b"Hello".to_vec()));
    assert!(tmp.prior().is_none());
    tmp.remember();
    assert!(tmp.prior().as_ref().unwrap().same_as(&digest(b"Hello")));
    tmp.write(Some(b"Hello World!".to_vec()));
    assert!(tmp.prior().as_ref().unwrap().same_as(&digest(b"Hello")));
    assert!(tmp.hash().unwrap().same_as(&digest(b"Hello World!")));
    tmp.forget();
    assert!(tmp.prior().is_none());
    tmp.write(None);
    assert!(tmp.hash().is_none());
}
