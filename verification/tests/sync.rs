use mctl::sync::{handle_entry, next_dir, DirItem, EntryKind, ItemType};

#[test]
fn items_know_their_type_and_path() {
    let dir = DirItem::dir("repo/config/nvim".to_owned());
    assert_eq!(dir.item_type(), ItemType::Dir);
    assert_eq!(dir.path(), "repo/config/nvim");
    let file = DirItem::file("repo/config/nvim/init.lua".to_owned());
    assert_eq!(file.item_type(), ItemType::File);
    let link = DirItem::symlink("repo/home/.profile".to_owned());
    assert_eq!(link.item_type(), ItemType::Symlink);
    assert_eq!(link.path(), "repo/home/.profile");
}

#[test]
fn items_describe_themselves() {
    assert_eq!(DirItem::dir("a/b".to_owned()).describe(), "directory a/b");
    assert_eq!(DirItem::file("a/b.txt".to_owned()).describe(), "file a/b.txt");
    assert_eq!(DirItem::symlink("l".to_owned()).describe(), "symlink l");
    assert_eq!(ItemType::Dir.name(), "directory");
    assert_eq!(ItemType::File.name(), "file");
    assert_eq!(ItemType::Symlink.name(), "symlink");
}

#[test]
fn only_directories_are_put_on_the_stack() {
    let mut stack = vec!["first".to_owned()];

    let item = handle_entry(&mut stack, "first/file.1", EntryKind::File).unwrap();
    assert_eq!(item.item_type(), ItemType::File);
    assert_eq!(item.path(), "first/file.1");
    assert_eq!(stack, ["first"]);

    let item = handle_entry(&mut stack, "first/link", EntryKind::Symlink).unwrap();
    assert_eq!(item.item_type(), ItemType::Symlink);
    assert_eq!(stack, ["first"]);

    assert!(handle_entry(&mut stack, "first/socket", EntryKind::Other).is_none());
    assert_eq!(stack, ["first"]);

    let item = handle_entry(&mut stack, "first/foo", EntryKind::Dir).unwrap();
    assert_eq!(item.item_type(), ItemType::Dir);
    assert_eq!(item.path(), "first/foo");
    assert_eq!(stack, ["first", "first/foo"]);
}

#[test]
fn directory_met_last_is_visited_next() {
    let mut stack = Vec::new();
    handle_entry(&mut stack, "first/foo", EntryKind::Dir);
    handle_entry(&mut stack, "first/file.1", EntryKind::File);
    handle_entry(&mut stack, "first/bar", EntryKind::Dir);
    assert_eq!(next_dir(&mut stack), Some("first/bar".to_owned()));
    assert_eq!(next_dir(&mut stack), Some("first/foo".to_owned()));
    assert_eq!(next_dir(&mut stack), None);
    assert!(stack.is_empty());
}
