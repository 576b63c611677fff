//! The drop-in directory: which of its entries are read as configuration,
//! and in which order.

use crate::keys::texts;
use vstd::prelude::*;
use vstd::slice::slice_to_vec;

verus! {

/// The ending of the names of configuration files.
pub open spec fn toml_suffix() -> Seq<u8> {
    seq![0x2eu8, 0x74, 0x6f, 0x6d, 0x6c]
}

/// Whether an entry of the drop-in directory is read as configuration: it
/// is a regular file whose name is a stem followed by `.toml`.
pub open spec fn spec_is_drop_in(name: Seq<u8>, is_file: bool) -> bool {
    is_file && name.len() > 5 && name.skip(name.len() - 5) == toml_suffix()
}

/// Whether an entry of the drop-in directory is read as configuration.
pub fn is_drop_in(name: &[u8], is_file: bool) -> (read: bool)
    ensures
        read == spec_is_drop_in(name@, is_file),
{
    let n = name.len();
    if !is_file || n <= 5 {
        return false;
    }
    let ends = name[n - 5] == 0x2e && name[n - 4] == 0x74 && name[n - 3] == 0x6f && name[n - 2]
        == 0x6d && name[n - 1] == 0x6c;
    proof {
        if ends {
            assert(name@.skip(n - 5) =~= toml_suffix());
        }
    }
    ends
}

/// Whether `a` from its byte `i` on comes no later than `b` from its byte
/// `i` on: the first byte in which they differ decides, and what has ended
/// comes before what goes on.
pub open spec fn precedes_from(a: Seq<u8>, b: Seq<u8>, i: int) -> bool
    decreases a.len() - i,
{
    if i >= a.len() {
        true
    } else if i >= b.len() {
        false
    } else if a[i] != b[i] {
        a[i] < b[i]
    } else {
        precedes_from(a, b, i + 1)
    }
}

/// Whether the name `a` comes no later than the name `b`, byte by byte.
pub open spec fn precedes(a: Seq<u8>, b: Seq<u8>) -> bool {
    precedes_from(a, b, 0)
}

/// Of two names, one comes no later than the other.
pub proof fn lemma_precedes_total(a: Seq<u8>, b: Seq<u8>, i: int)
    requires
        0 <= i,
    ensures
        precedes_from(a, b, i) || precedes_from(b, a, i),
    decreases a.len() - i,
{
    if i < a.len() && i < b.len() && a[i] == b[i] {
        lemma_precedes_total(a, b, i + 1);
    }
}

/// What comes no later than a name comes no later than all that the name
/// comes no later than.
pub proof fn lemma_precedes_transitive(a: Seq<u8>, b: Seq<u8>, c: Seq<u8>, i: int)
    requires
        0 <= i,
        precedes_from(a, b, i),
        precedes_from(b, c, i),
    ensures
        precedes_from(a, c, i),
    decreases a.len() - i,
{
    if i < a.len() && a[i] == b[i] && b[i] == c[i] {
        lemma_precedes_transitive(a, b, c, i + 1);
    }
}

/// Whether the name `a` comes no later than the name `b`.
pub fn comes_first(a: &[u8], b: &[u8]) -> (first: bool)
    ensures
        first == precedes(a@, b@),
{
    let mut i: usize = 0;
    while i < a.len() && i < b.len()
        invariant
            i <= a@.len(),
            i <= b@.len(),
            precedes(a@, b@) == precedes_from(a@, b@, i as int),
        decreases a@.len() - i,
    {
        if a[i] != b[i] {
            return a[i] < b[i];
        }
        i += 1;
    }
    i >= a.len()
}

/// Whether `names` are in order: none comes later than one that follows.
pub open spec fn sorted(names: Seq<Seq<u8>>) -> bool {
    forall|i: int, j: int| 0 <= i < j < names.len() ==> precedes(names[i], names[j])
}

/// An entry of a directory: its name, and whether it is a regular file.
#[derive(Debug)]
pub struct Entry {
    pub name: Vec<u8>,
    pub is_file: bool,
}

/// The names of the drop-ins among the first `upto` entries, in the order
/// of the entries.
pub open spec fn selected(entries: Seq<Entry>, upto: int) -> Seq<Seq<u8>>
    decreases upto,
{
    if upto <= 0 {
        Seq::empty()
    } else if spec_is_drop_in(entries[upto - 1].name@, entries[upto - 1].is_file) {
        selected(entries, upto - 1).push(entries[upto - 1].name@)
    } else {
        selected(entries, upto - 1)
    }
}

/// A name put into a sequence is one more name in it, and the others stay.
pub proof fn lemma_insert_adds_one(names: Seq<Seq<u8>>, at: int, name: Seq<u8>)
    requires
        0 <= at <= names.len(),
    ensures
        names.insert(at, name).to_multiset() == names.to_multiset().insert(name),
{
    broadcast use vstd::seq_lib::group_to_multiset_ensures;

    let longer = names.insert(at, name);
    assert(longer.remove(at).to_multiset() == longer.to_multiset().remove(name));
}

/// Puts `name` into `names`, which are in order, so that they stay in
/// order: after every name that comes no later than it.
fn insert_in_order(names: &mut Vec<Vec<u8>>, name: Vec<u8>)
    requires
        sorted(texts(old(names)@)),
    ensures
        sorted(texts(final(names)@)),
        texts(final(names)@).to_multiset() == texts(old(names)@).to_multiset().insert(name@),
{
    let mut at: usize = 0;
    while at < names.len() && comes_first(names[at].as_slice(), name.as_slice())
        invariant
            at <= names@.len(),
            names@ == old(names)@,
            sorted(texts(names@)),
            forall|k: int| 0 <= k < at ==> precedes(#[trigger] texts(names@)[k], name@),
        decreases names@.len() - at,
    {
        at += 1;
    }
    proof {
        let before = texts(names@);
        let after = before.insert(at as int, name@);
        assert forall|i: int, j: int| 0 <= i < j < after.len() implies precedes(
            after[i],
            after[j],
        ) by {
            if i == at {
                lemma_precedes_total(before[at as int], name@, 0);
                if j - 1 > at {
                    assert(precedes(before[at as int], before[j - 1]));
                    lemma_precedes_transitive(name@, before[at as int], before[j - 1], 0);
                }
            }
        }
        lemma_insert_adds_one(before, at as int, name@);
        assert(texts(names@.insert(at as int, name)) =~= after);
    }
    names.insert(at, name);
}

/// The names of the drop-ins among `entries`, in the order in which they
/// are read: each drop-in once for each time it is listed, nothing else,
/// and none after one that it comes before.
pub fn drop_ins(entries: &Vec<Entry>) -> (names: Vec<Vec<u8>>)
    ensures
        sorted(texts(names@)),
        texts(names@).to_multiset() == selected(entries@, entries@.len() as int).to_multiset(),
{
    let mut names: Vec<Vec<u8>> = Vec::new();
    let mut i: usize = 0;
    assert(texts(names@) =~= selected(entries@, 0));
    while i < entries.len()
        invariant
            i <= entries@.len(),
            sorted(texts(names@)),
            texts(names@).to_multiset() == selected(entries@, i as int).to_multiset(),
        decreases entries@.len() - i,
    {
        let entry = &entries[i];
        if is_drop_in(entry.name.as_slice(), entry.is_file) {
            proof {
                broadcast use vstd::seq_lib::group_to_multiset_ensures;

            }
            insert_in_order(&mut names, slice_to_vec(entry.name.as_slice()));
        }
        i += 1;
    }
    names
}

} // verus!
