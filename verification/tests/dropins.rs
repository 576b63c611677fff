use mctl::dropins::{comes_first, drop_ins, is_drop_in, Entry};

#[test]
fn drop_ins_are_toml_files() {
    assert!(is_drop_in(b"10-editor.toml", true));
    assert!(is_drop_in(b"a.toml", true));
    assert!(is_drop_in(b"..toml", true));
    assert!(!is_drop_in(b"10-editor.toml", false));
    assert!(!is_drop_in(b".toml", true));
    assert!(!is_drop_in(b"toml", true));
    assert!(!is_drop_in(b"editor.tml", true));
    assert!(!is_drop_in(b"editor.toml.bak", true));
    assert!(!is_drop_in(b"editor.TOML", true));
    assert!(!is_drop_in(b"", true));
}

#[test]
fn drop_ins_agree_with_the_extension_of_a_path() {
    for name in ["a.toml", ".toml", "..toml", "x", "x.", "toml", "a.b.toml", "a.toml.d"] {
        let expected = std::path::Path::new(name).extension().is_some_and(|ext| ext == "toml");
        assert_eq!(is_drop_in(name.as_bytes(), true), expected, "{}", name);
    }
}

fn entry(name: &str, is_file: bool) -> Entry {
    Entry { name: name.as_bytes().to_vec(), is_file }
}

#[test]
fn names_are_ordered_byte_by_byte() {
    assert!(comes_first(b"", b""));
    assert!(comes_first(b"", b"a"));
    assert!(!comes_first(b"a", b""));
    assert!(comes_first(b"a", b"a"));
    assert!(comes_first(b"a", b"ab"));
    assert!(!comes_first(b"ab", b"a"));
    assert!(comes_first(b"10-a", b"9-a"));
    assert!(comes_first(b"A", b"a"));
    assert!(!comes_first(b"b", b"abc"));
    assert!(comes_first(&[0x7f], &[0x80]));
    let names = ["", "a", "ab", "b", "10", "9", "Z", "z", "\u{e9}", "a.toml"];
    for a in names {
        for b in names {
            assert_eq!(comes_first(a.as_bytes(), b.as_bytes()), a <= b, "{:?} {:?}", a, b);
        }
    }
}

#[test]
fn drop_ins_are_selected_and_sorted() {
    let entries = vec![
        entry("50-keys.toml", true),
        entry("README", true),
        entry("10-editor.toml", true),
        entry("90-local.toml", false),
        entry("20-dirs.toml", true),
        entry(".toml", true),
        entry("10-editor.toml.bak", true),
        entry("05-first.toml", true),
    ];
    let names = drop_ins(&entries);
    assert_eq!(
        names,
        vec![
            b"05-first.toml".to_vec(),
            b"10-editor.toml".to_vec(),
            b"20-dirs.toml".to_vec(),
            b"50-keys.toml".to_vec(),
        ]
    );
}

#[test]
fn drop_ins_order_as_paths_do() {
    let names = ["b.toml", "a.toml", "B.toml", "a-b.toml", "a.b.toml", "ab.toml", "9.toml", "10.toml"];
    let entries: Vec<Entry> = names.iter().map(|name| entry(name, true)).collect();
    let mut paths: Vec<std::path::PathBuf> =
        names.iter().map(|name| std::path::Path::new("/etc/mctl/config.d").join(name)).collect();
    paths.sort_unstable();
    let expected: Vec<Vec<u8>> = paths
        .iter()
        .map(|path| path.file_name().unwrap().to_str().unwrap().as_bytes().to_vec())
        .collect();
    assert_eq!(drop_ins(&entries), expected);
}

#[test]
fn no_entries_give_no_drop_ins() {
    assert!(drop_ins(&Vec::new()).is_empty());
    assert!(drop_ins(&vec![entry("x", true), entry("y.toml", false)]).is_empty());
    let twice = drop_ins(&vec![entry("a.toml", true), entry("a.toml", true)]);
    assert_eq!(twice, vec![b"a.toml".to_vec(), b"a.toml".to_vec()]);
}
