//! The scratch file: where the plaintext of a secret stays while the editor
//! works on it. The library keeps its name and its bytes; the program
//! around it puts them on disk for the editor and takes them off again.

use crate::error::ErrorKind;
use crate::hasher::{digest, spec_blake3, Digest};
use crate::util::{all_alphanumeric, random_alpha_num, NAME_LEN};
use vstd::prelude::*;

verus! {

/// The index of the last `c` in `s`, or -1 where there is none.
pub open spec fn last_index(s: Seq<char>, c: char) -> int
    decreases s.len(),
{
    if s.len() == 0 {
        -1
    } else if s.last() == c {
        s.len() - 1
    } else {
        last_index(s.drop_last(), c)
    }
}

/// What `last_index` finds is the last `c`, and -1 means that there is none.
pub proof fn lemma_last_index(s: Seq<char>, c: char)
    ensures
        -1 <= last_index(s, c) < s.len(),
        last_index(s, c) >= 0 ==> s[last_index(s, c)] == c,
        forall|j: int| last_index(s, c) < j < s.len() ==> s[j] != c,
    decreases s.len(),
{
    if s.len() > 0 && s.last() != c {
        lemma_last_index(s.drop_last(), c);
        assert forall|j: int| last_index(s, c) < j < s.len() implies s[j] != c by {
            if j < s.len() - 1 {
                assert(s.drop_last()[j] == s[j]);
            }
        }
    }
}

/// The last component of a path: what follows its last `/`.
pub open spec fn spec_file_name(path: Seq<char>) -> Seq<char> {
    path.skip(last_index(path, '/') + 1)
}

/// The marker that the name of an armored secret may end with.
pub open spec fn pem_suffix() -> Seq<char> {
    seq!['.', 'p', 'e', 'm']
}

/// Whether `name` ends with `.pem`.
pub open spec fn ends_with_pem(name: Seq<char>) -> bool {
    name.len() >= 4 && name.skip(name.len() - 4) == pem_suffix()
}

/// The name without a trailing `.pem`.
pub open spec fn spec_strip_pem(name: Seq<char>) -> Seq<char> {
    if ends_with_pem(name) {
        name.take(name.len() - 4)
    } else {
        name
    }
}

/// What follows the last `.` of `name`, if there is a `.` and anything
/// follows it.
pub open spec fn spec_extension(name: Seq<char>) -> Option<Seq<char>> {
    let dot = last_index(name, '.');
    if dot < 0 || dot + 1 == name.len() {
        None
    } else {
        Some(name.skip(dot + 1))
    }
}

/// The extension that tells an editor what a secret holds: that of the
/// secret's file name once a trailing `.pem` is set aside.
pub open spec fn spec_extension_hint(path: Seq<char>) -> Option<Seq<char>> {
    spec_extension(spec_strip_pem(spec_file_name(path)))
}

/// The characters of an optional string.
pub open spec fn opt_chars(s: Option<&str>) -> Option<Seq<char>> {
    match s {
        Some(s) => Some(s@),
        None => None,
    }
}

/// The characters of an optional string.
pub open spec fn opt_string_chars(s: Option<String>) -> Option<Seq<char>> {
    match s {
        Some(s) => Some(s@),
        None => None,
    }
}

/// What a scratch name carries after its random stem.
pub open spec fn spec_suffix(ext: Option<Seq<char>>) -> Seq<char> {
    match ext {
        Some(ext) => seq!['.'] + ext,
        None => Seq::empty(),
    }
}

/// `name` under `dir`: the two joined by one `/`, which an empty `dir` and
/// one that already ends with `/` do not need.
pub open spec fn spec_join(dir: Seq<char>, name: Seq<char>) -> Seq<char> {
    if dir.len() == 0 || dir.last() == '/' {
        dir + name
    } else {
        dir + seq!['/'] + name
    }
}

/// The index of the last `c` in `s`.
fn rfind(s: &str, c: char) -> (at: Option<usize>)
    ensures
        match at {
            Some(i) => last_index(s@, c) == i,
            None => last_index(s@, c) == -1,
        },
{
    let n = s.unicode_len();
    let mut i = n;
    assert(s@.take(n as int) =~= s@);
    while i > 0
        invariant
            i <= n,
            n == s@.len(),
            last_index(s@, c) == last_index(s@.take(i as int), c),
        decreases i,
    {
        if s.get_char(i - 1) == c {
            return Some(i - 1);
        }
        assert(s@.take(i as int).drop_last() =~= s@.take(i - 1));
        i -= 1;
    }
    None
}

/// The last component of `path`.
pub fn file_name(path: &str) -> (name: &str)
    ensures
        name@ == spec_file_name(path@),
{
    let n = path.unicode_len();
    proof {
        lemma_last_index(path@, '/');
    }
    let from = match rfind(path, '/') {
        Some(i) => i + 1,
        None => 0,
    };
    path.substring_char(from, n)
}

/// `name` without a trailing `.pem`.
pub fn strip_pem(name: &str) -> (stem: &str)
    ensures
        stem@ == spec_strip_pem(name@),
{
    let n = name.unicode_len();
    if n < 4 {
        return name;
    }
    let marked = name.get_char(n - 4) == '.' && name.get_char(n - 3) == 'p' && name.get_char(
        n - 2,
    ) == 'e' && name.get_char(n - 1) == 'm';
    if marked {
        assert(name@.skip(n - 4) =~= pem_suffix());
        name.substring_char(0, n - 4)
    } else {
        name
    }
}

/// What follows the last `.` of `name`.
pub fn extension(name: &str) -> (ext: Option<&str>)
    ensures
        opt_chars(ext) == spec_extension(name@),
{
    let n = name.unicode_len();
    proof {
        lemma_last_index(name@, '.');
    }
    match rfind(name, '.') {
        Some(dot) => {
            if dot + 1 == n {
                None
            } else {
                Some(name.substring_char(dot + 1, n))
            }
        },
        None => None,
    }
}

/// The extension hint for the secret at `path`.
pub fn extension_hint(path: &str) -> (ext: Option<&str>)
    ensures
        opt_chars(ext) == spec_extension_hint(path@),
{
    extension(strip_pem(file_name(path)))
}

/// `name` under `dir`.
pub fn join(dir: &str, name: &str) -> (path: String)
    ensures
        path@ == spec_join(dir@, name@),
{
    let n = dir.unicode_len();
    let mut path = String::from_str(dir);
    if n > 0 && dir.get_char(n - 1) != '/' {
        path.append("/");
        proof {
            reveal_strlit("/");
        }
    }
    path.append(name);
    path
}

/// What a scratch file is: where it lies, what it holds, and the digest of
/// what it held when it was handed out.
pub struct ScratchView {
    pub dir: Seq<char>,
    pub name: Seq<char>,
    /// The bytes of the file, or `None` where there is no file.
    pub content: Option<Seq<u8>>,
    pub hash: Option<Seq<u8>>,
}

/// A scratch file.
pub struct TempFile {
    dir: String,
    name: String,
    content: Option<Vec<u8>>,
    hash: Option<Digest>,
}

/// The bytes of an optional buffer.
pub open spec fn opt_bytes(bytes: Option<Vec<u8>>) -> Option<Seq<u8>> {
    match bytes {
        Some(bytes) => Some(bytes@),
        None => None,
    }
}

/// The bytes of an optional digest.
pub open spec fn opt_digest(d: Option<Digest>) -> Option<Seq<u8>> {
    match d {
        Some(d) => Some(d@),
        None => None,
    }
}

/// The digest of an optional content.
pub open spec fn spec_hash(content: Option<Seq<u8>>) -> Option<Seq<u8>> {
    match content {
        Some(bytes) => Some(spec_blake3(bytes)),
        None => None,
    }
}

/// Whether `name` is a random stem of letters and digits followed by the
/// suffix for `ext`.
pub open spec fn scratch_name(name: Seq<char>, ext: Option<Seq<char>>) -> bool {
    &&& name.len() >= NAME_LEN
    &&& all_alphanumeric(name.take(NAME_LEN as int))
    &&& name.skip(NAME_LEN as int) == spec_suffix(ext)
}

impl View for TempFile {
    type V = ScratchView;

    closed spec fn view(&self) -> ScratchView {
        ScratchView {
            dir: self.dir@,
            name: self.name@,
            content: opt_bytes(self.content),
            hash: opt_digest(self.hash),
        }
    }
}

impl TempFile {
    /// A scratch file under `cache_dir` with a fresh random name that ends
    /// with `ext`, if one is given. No file exists yet.
    pub fn new(cache_dir: &str, ext: Option<&str>) -> (tmp: TempFile)
        ensures
            tmp@.dir == cache_dir@,
            scratch_name(tmp@.name, opt_chars(ext)),
            tmp@.content is None,
            tmp@.hash is None,
    {
        let mut name = random_alpha_num();
        if let Some(ext) = ext {
            name.append(".");
            name.append(ext);
            proof {
                reveal_strlit(".");
            }
        }
        proof {
            assert(name@.skip(NAME_LEN as int) =~= spec_suffix(opt_chars(ext)));
        }
        TempFile { dir: String::from_str(cache_dir), name, content: None, hash: None }
    }

    /// A scratch file for the secret at `secret_path`: its name ends as the
    /// secret's does, so that an editor can tell what it holds.
    pub fn from_secret(secret_path: &str, cache_dir: &str) -> (tmp: TempFile)
        ensures
            tmp@.dir == cache_dir@,
            scratch_name(tmp@.name, spec_extension_hint(secret_path@)),
            tmp@.content is None,
            tmp@.hash is None,
    {
        TempFile::new(cache_dir, extension_hint(secret_path))
    }

    /// Creates the file, empty; what it held before is gone.
    pub fn create(&mut self)
        ensures
            final(self)@ == (ScratchView { content: Some(Seq::empty()), ..old(self)@ }),
    {
        self.content = Some(Vec::new());
    }

    /// Replaces what the file holds; `None` says that the file is gone.
    pub fn write(&mut self, content: Option<Vec<u8>>)
        ensures
            final(self)@ == (ScratchView { content: opt_bytes(content), ..old(self)@ }),
    {
        self.content = content;
    }

    /// What the file holds. A scratch file that is gone cannot be read.
    pub fn open(&self) -> (res: Result<&Vec<u8>, ErrorKind>)
        ensures
            match res {
                Ok(bytes) => self@.content == Some(bytes@),
                Err(kind) => self@.content is None && kind == ErrorKind::Io,
            },
    {
        match &self.content {
            Some(bytes) => Ok(bytes),
            None => Err(ErrorKind::Io),
        }
    }

    /// The digest of what the file holds now, if it exists.
    pub fn hash(&self) -> (d: Option<Digest>)
        ensures
            opt_digest(d) == spec_hash(self@.content),
    {
        match &self.content {
            Some(bytes) => Some(digest(bytes.as_slice())),
            None => None,
        }
    }

    /// Remembers the digest of what the file holds now.
    pub fn remember(&mut self)
        ensures
            final(self)@ == (ScratchView { hash: spec_hash(old(self)@.content), ..old(self)@ }),
    {
        self.hash = self.hash();
    }

    /// Forgets the remembered digest, so that whatever the file holds counts
    /// as new.
    pub fn forget(&mut self)
        ensures
            final(self)@ == (ScratchView { hash: None, ..old(self)@ }),
    {
        self.hash = None;
    }

    /// The digest that was remembered, if any.
    pub fn prior(&self) -> (d: &Option<Digest>)
        ensures
            opt_digest(*d) == self@.hash,
    {
        &self.hash
    }

    /// The directory that the file lies in.
    pub fn dir(&self) -> (dir: &str)
        ensures
            dir@ == self@.dir,
    {
        self.dir.as_str()
    }

    /// The file's name in its directory.
    pub fn name(&self) -> (name: &str)
        ensures
            name@ == self@.name,
    {
        self.name.as_str()
    }

    /// Where the file lies.
    pub fn path(&self) -> (path: String)
        ensures
            path@ == spec_join(self@.dir, self@.name),
    {
        join(self.dir.as_str(), self.name.as_str())
    }
}

} // verus!
