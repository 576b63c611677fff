use mctl::config::{
    age_file, check_private_file, default_cache_dir, default_config_dir, default_editor,
    default_key_file, default_recipients_file, key_line, lines, own_dir, package, Config,
    Directories, Metadata, Secrets, PRIVATE_MODE,
};
use mctl::error::ConfigError;

const SK: &str = "AGE-SECRET-KEY-1GQ9778VQXMMJVE8SK7J6VT8UJ4HDQAJUVSFCWCM02D8GEWQ72PVQ2Y5J33";
const PK: &str = "age1t7rxyev2z3rw82stdlrrepyc39nvn86l5078zqkf5uasdy86jp6svpy7pa";
const LOW_ORDER: &str = "age1qqqqqqqqqqqqqqqqqqqqqqqqqqqqqqqqqqqqqqqqqqqqqqqqqqqq5cu47z";

fn secrets(key_text: &str, recipients_text: &str) -> Secrets {
    Secrets::new(
        "age/key.txt",
        key_text.as_bytes().to_vec(),
        "age/recipients.txt",
        recipients_text.as_bytes().to_vec(),
    )
}

fn config(key_text: &str) -> Config {
    Config::new("nvim", Directories::new("/cache", "/repo"), secrets(key_text, PK))
}

const PRIVATE: Option<Metadata> = Some(Metadata { is_file: true, mode: 0o100600 });

#[test]
fn lines_end_with_lf_or_crlf() {
    assert_eq!(lines(b"a\nb"), vec![b"a".to_vec(), b"b".to_vec()]);
    assert_eq!(lines(b"a\nb\n"), vec![b"a".to_vec(), b"b".to_vec()]);
    assert_eq!(lines(b"a\r\nb\r\n"), vec![b"a".to_vec(), b"b".to_vec()]);
    assert_eq!(lines(b"a\n\nb"), vec![b"a".to_vec(), b"".to_vec(), b"b".to_vec()]);
    assert_eq!(lines(b"\n"), vec![b"".to_vec()]);
    assert_eq!(lines(b"\r\n"), vec![b"".to_vec()]);
    assert_eq!(lines(b""), Vec::<Vec<u8>>::new());
}

#[test]
fn lone_carriage_return_stays_in_the_line() {
    assert_eq!(lines(b"a\rb"), vec![b"a\rb".to_vec()]);
    assert_eq!(lines(b"a\r"), vec![b"a\r".to_vec()]);
    assert_eq!(lines(b"a\r\r\n"), vec![b"a\r".to_vec()]);
}

#[test]
fn lines_agree_with_the_standard_library() {
    let texts = [
        "", "\n", "\r", "\r\n", "a", "a\n", "a\r\n", "\na", "\n\n", "a\n\r\nb\r", "# c\n\nkey\n",
        "a\r\n\r\n\r", "x\ry\n",
    ];
    for text in texts {
        let expected: Vec<Vec<u8>> = text.lines().map(|l| l.as_bytes().to_vec()).collect();
        assert_eq!(lines(text.as_bytes()), expected, "{:?}", text);
    }
}

#[test]
fn comments_and_blank_lines_hold_no_key() {
    assert!(key_line(b"age1abc"));
    assert!(key_line(b" # indented"));
    assert!(!key_line(b"# comment"));
    assert!(!key_line(b"#"));
    assert!(!key_line(b""));
}

#[test]
fn identity_is_the_first_key_line() {
    let text = format!("# created: today\n\n{}\nage1ignored\n", SK);
    let identity = secrets(&text, "").identity().unwrap();
    assert_eq!(identity.as_bytes(), SK.as_bytes());
    assert_eq!(identity.to_public().unwrap().as_bytes(), PK.as_bytes());
}

#[test]
fn key_file_without_a_key_line_has_no_identity() {
    for text in ["", "\n\n", "# only a comment\n", "#\n\r\n"] {
        assert_eq!(secrets(text, "").identity().err(), Some(ConfigError::MissingIdentity));
    }
}

#[test]
fn first_key_line_must_be_an_identity() {
    let text = format!("not a key\n{}\n", SK);
    assert_eq!(secrets(&text, "").identity().err(), Some(ConfigError::InvalidIdentity));
    assert_eq!(secrets(PK, "").identity().err(), Some(ConfigError::InvalidIdentity));
}

#[test]
fn recipients_are_the_key_lines_in_order() {
    let other = age::x25519::Identity::generate().to_public().to_string();
    let text = format!("# team\n{}\n\n# me\r\n{}\r\n", other, PK);
    let set = secrets("", &text).recipients().unwrap();
    assert_eq!(set.len(), 2);
    assert!(!set.is_empty());
    assert_eq!(set.texts(), &vec![other.into_bytes(), PK.as_bytes().to_vec()]);
}

#[test]
fn recipients_file_without_a_key_line_is_empty() {
    for text in ["", "# nobody\n", "\n\n"] {
        assert_eq!(secrets("", text).recipients().err(), Some(ConfigError::NoRecipients));
    }
}

#[test]
fn first_bad_recipient_line_is_reported() {
    let text = format!("# team\n{}\nnot a key\nalso bad\n", PK);
    assert_eq!(
        secrets("", &text).recipients().err(),
        Some(ConfigError::InvalidRecipient { line: 2 })
    );
    assert_eq!(
        secrets("", SK).recipients().err(),
        Some(ConfigError::InvalidRecipient { line: 0 })
    );
    let text = format!("{}\n{}\n", PK, LOW_ORDER);
    assert_eq!(
        secrets("", &text).recipients().err(),
        Some(ConfigError::InvalidRecipient { line: 1 })
    );
}

#[test]
fn private_file_is_for_its_owner_alone() {
    assert_eq!(check_private_file(PRIVATE), Ok(()));
    assert_eq!(check_private_file(Some(Metadata { is_file: true, mode: 0o100400 })), Ok(()));
    assert_eq!(check_private_file(Some(Metadata { is_file: true, mode: 0o100700 })), Ok(()));
    for mode in [0o100640, 0o100604, 0o100601, 0o100610, 0o100677, 0o100077, 0o100666] {
        assert_eq!(
            check_private_file(Some(Metadata { is_file: true, mode })),
            Err(ConfigError::InsecurePermissions { mode })
        );
    }
}

#[test]
fn private_file_must_be_a_file_that_can_be_inspected() {
    assert_eq!(check_private_file(None), Err(ConfigError::Unreadable));
    assert_eq!(
        check_private_file(Some(Metadata { is_file: false, mode: 0o040700 })),
        Err(ConfigError::NotAFile)
    );
    assert_eq!(
        check_private_file(Some(Metadata { is_file: false, mode: 0o040777 })),
        Err(ConfigError::NotAFile)
    );
}

#[test]
fn valid_configuration_is_handed_back() {
    let checked = config(SK).validate(true, PRIVATE, PRIVATE).unwrap();
    assert_eq!(checked.editor(), "nvim");
    assert_eq!(checked.dirs().cache(), "/cache");
    assert_eq!(checked.dirs().repository(), "/repo");
    assert_eq!(checked.secrets().key_file(), "age/key.txt");
    assert_eq!(checked.secrets().recipients_file(), "age/recipients.txt");
}

#[test]
fn validation_reports_the_first_fault() {
    let open = Some(Metadata { is_file: true, mode: 0o100644 });
    let faults = [
        (false, None, None, ConfigError::RepositoryNotDirectory),
        (true, None, open, ConfigError::Unreadable),
        (true, open, None, ConfigError::InsecurePermissions { mode: 0o100644 }),
        (true, PRIVATE, None, ConfigError::Unreadable),
        (true, PRIVATE, open, ConfigError::InsecurePermissions { mode: 0o100644 }),
    ];
    for (repository, key, recipients, fault) in faults {
        assert_eq!(config("junk").validate(repository, key, recipients).err(), Some(fault));
    }
    assert_eq!(
        config("junk").validate(true, PRIVATE, PRIVATE).err(),
        Some(ConfigError::InvalidIdentity)
    );
    assert_eq!(
        config("# none").validate(true, PRIVATE, PRIVATE).err(),
        Some(ConfigError::MissingIdentity)
    );
}

#[test]
fn own_directory_lies_under_the_base() {
    assert_eq!(package(), "mctl");
    assert_eq!(own_dir(Some("/home/u/.config".to_owned()), "~/.config"), "/home/u/.config/mctl");
    assert_eq!(own_dir(None, "~/.config"), "~/.config/mctl");
    assert_eq!(own_dir(None, "/tmp"), "/tmp/mctl");
    assert_eq!(age_file("/home/u/.config/mctl", "key.txt"), "/home/u/.config/mctl/age/key.txt");
}

#[test]
fn default_paths_end_as_documented() {
    assert!(default_config_dir().ends_with("/mctl"));
    assert!(default_cache_dir().ends_with("/mctl"));
    assert!(default_key_file().ends_with("/mctl/age/key.txt"));
    assert!(default_recipients_file().ends_with("/mctl/age/recipients.txt"));
    assert!(default_key_file().starts_with(&default_config_dir()));
}

#[test]
fn visual_wins_over_editor() {
    let visual = Some("code".to_owned());
    let editor = Some("vi".to_owned());
    assert_eq!(default_editor(visual.clone(), editor.clone()), visual);
    assert_eq!(default_editor(None, editor.clone()), editor);
    assert_eq!(default_editor(visual.clone(), None), visual);
    assert_eq!(default_editor(None, None), None);
}

#[test]
fn files_of_the_vault_pass_as_private() {
    assert_eq!(PRIVATE_MODE, 0o600);
    assert_eq!(check_private_file(Some(Metadata { is_file: true, mode: PRIVATE_MODE })), Ok(()));
    assert_eq!(
        check_private_file(Some(Metadata { is_file: true, mode: 0o100000 | PRIVATE_MODE })),
        Ok(())
    );
}

#[test]
fn identity_is_checked_before_the_recipients() {
    assert_eq!(secrets("", "").check(), Err(ConfigError::MissingIdentity));
    assert_eq!(secrets("junk", "").check(), Err(ConfigError::InvalidIdentity));
    assert_eq!(secrets(SK, "").check(), Err(ConfigError::NoRecipients));
    assert_eq!(secrets(SK, "junk").check(), Err(ConfigError::InvalidRecipient { line: 0 }));
    assert_eq!(secrets(SK, PK).check(), Ok(()));
}
