//! Mirroring a tree of files: what the entries of a directory are, and
//! which directories are still to be visited.

use vstd::prelude::*;

verus! {

/// What an item of the tree is.
#[derive(Clone, Copy, Debug, PartialEq, Eq, Structural)]
pub enum ItemType {
    File,
    Symlink,
    Dir,
}

impl ItemType {
    /// The word for the type.
    pub open spec fn spec_name(self) -> Seq<char> {
        match self {
            ItemType::File => "file"@,
            ItemType::Symlink => "symlink"@,
            ItemType::Dir => "directory"@,
        }
    }

    /// The word for the type.
    pub fn name(&self) -> (name: &'static str)
        ensures
            name@ == self.spec_name(),
    {
        match self {
            ItemType::File => "file",
            ItemType::Symlink => "symlink",
            ItemType::Dir => "directory",
        }
    }
}

/// What the file system says an entry of a directory is.
#[derive(Clone, Copy, Debug, PartialEq, Eq, Structural)]
pub enum EntryKind {
    Dir,
    File,
    Symlink,
    /// A socket, a device, or whatever else is none of the above.
    Other,
}

/// What an item of the tree is: where it lies and of which type it is.
pub struct DirItemView {
    pub path: Seq<char>,
    pub item_type: ItemType,
}

/// An item of the tree.
#[derive(Debug)]
pub struct DirItem {
    path: String,
    item_type: ItemType,
}

impl View for DirItem {
    type V = DirItemView;

    closed spec fn view(&self) -> DirItemView {
        DirItemView { path: self.path@, item_type: self.item_type }
    }
}

/// The item that an entry of `kind` at `path` is; an entry that is neither
/// a directory nor a file nor a symlink is no item.
pub open spec fn spec_item(path: Seq<char>, kind: EntryKind) -> Option<DirItemView> {
    match kind {
        EntryKind::Dir => Some(DirItemView { path, item_type: ItemType::Dir }),
        EntryKind::File => Some(DirItemView { path, item_type: ItemType::File }),
        EntryKind::Symlink => Some(DirItemView { path, item_type: ItemType::Symlink }),
        EntryKind::Other => None,
    }
}

/// The paths that `stack` holds, the one to visit next last.
pub open spec fn paths(stack: Seq<String>) -> Seq<Seq<char>> {
    Seq::new(stack.len(), |i: int| stack[i]@)
}

/// What an optional item is.
pub open spec fn opt_item(item: Option<DirItem>) -> Option<DirItemView> {
    match item {
        Some(item) => Some(item@),
        None => None,
    }
}

impl DirItem {
    /// The directory at `path`.
    pub fn dir(path: String) -> (item: DirItem)
        ensures
            item@ == (DirItemView { path: path@, item_type: ItemType::Dir }),
    {
        DirItem { path, item_type: ItemType::Dir }
    }

    /// The file at `path`.
    pub fn file(path: String) -> (item: DirItem)
        ensures
            item@ == (DirItemView { path: path@, item_type: ItemType::File }),
    {
        DirItem { path, item_type: ItemType::File }
    }

    /// The symlink at `path`.
    pub fn symlink(path: String) -> (item: DirItem)
        ensures
            item@ == (DirItemView { path: path@, item_type: ItemType::Symlink }),
    {
        DirItem { path, item_type: ItemType::Symlink }
    }

    /// Where the item lies.
    pub fn path(&self) -> (path: &str)
        ensures
            path@ == self@.path,
    {
        self.path.as_str()
    }

    /// Of which type the item is.
    pub fn item_type(&self) -> (item_type: ItemType)
        ensures
            item_type == self@.item_type,
    {
        self.item_type
    }

    /// The item in words: its type, a space, its path.
    pub fn describe(&self) -> (text: String)
        ensures
            text@ == self@.item_type.spec_name() + " "@ + self@.path,
    {
        let mut text = String::from_str(self.item_type.name());
        text.append(" ");
        text.append(self.path.as_str());
        text
    }
}

/// Takes note of the entry of `kind` at `path`. A directory is an item and
/// is put on `stack`, to be visited after the directory that is being read;
/// a file and a symlink are items; anything else is skipped. Nothing but a
/// directory changes the stack.
pub fn handle_entry(stack: &mut Vec<String>, path: &str, kind: EntryKind) -> (item: Option<
    DirItem,
>)
    ensures
        opt_item(item) == spec_item(path@, kind),
        paths(final(stack)@) == if kind == EntryKind::Dir {
            paths(old(stack)@).push(path@)
        } else {
            paths(old(stack)@)
        },
{
    match kind {
        EntryKind::Dir => {
            stack.push(String::from_str(path));
            Some(DirItem::dir(String::from_str(path)))
        },
        EntryKind::File => Some(DirItem::file(String::from_str(path))),
        EntryKind::Symlink => Some(DirItem::symlink(String::from_str(path))),
        EntryKind::Other => None,
    }
}

/// The directory to visit next: the one that was met last. It leaves the
/// stack.
pub fn next_dir(stack: &mut Vec<String>) -> (dir: Option<String>)
    ensures
        match dir {
            Some(dir) => old(stack)@.len() > 0 && dir@ == paths(old(stack)@).last() && paths(
                final(stack)@,
            ) == paths(old(stack)@).drop_last(),
            None => old(stack)@.len() == 0 && final(stack)@.len() == 0,
        },
{
    stack.pop()
}

} // verus!
