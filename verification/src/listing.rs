//! What the file browser lists: the entries of the directory being browsed.

use crate::persist::{format_of, Format};
use vstd::prelude::*;
use vstd::seq_lib::{to_multiset_build, to_multiset_insert};
use vstd::utf8::encode_utf8;

verus! {

/// A place in the file system as the browser sees it: the full path, the
/// last component of it, and whether a directory lies there.
#[derive(Debug)]
pub struct PathEntry {
    pub path: String,
    pub file_name: String,
    pub is_dir: bool,
}

/// What a [`PathEntry`] holds.
pub struct PathEntryView {
    pub path: Seq<char>,
    pub file_name: Seq<char>,
    pub is_dir: bool,
}

impl View for PathEntry {
    type V = PathEntryView;

    open spec fn view(&self) -> PathEntryView {
        PathEntryView { path: self.path@, file_name: self.file_name@, is_dir: self.is_dir }
    }
}

impl Clone for PathEntry {
    fn clone(&self) -> (r: PathEntry)
        ensures
            r == *self,
    {
        PathEntry {
            path: self.path.clone(),
            file_name: self.file_name.clone(),
            is_dir: self.is_dir,
        }
    }
}

/// The entries of a list.
pub open spec fn entries_of(v: Seq<PathEntry>) -> Seq<PathEntryView> {
    v.map_values(|e: PathEntry| e@)
}

/// An entry that may be absent.
pub open spec fn entry_of(e: Option<PathEntry>) -> Option<PathEntryView> {
    match e {
        Some(e) => Some(e@),
        None => None,
    }
}

/// What reading the directory being browsed gave: the directory above
/// it, if there is one, and the entries in it, in no particular order.
#[derive(Debug)]
pub struct Directory {
    pub parent: Option<PathEntry>,
    pub entries: Vec<PathEntry>,
}

/// What a [`Directory`] holds.
pub struct DirectoryView {
    pub parent: Option<PathEntryView>,
    pub entries: Seq<PathEntryView>,
}

impl View for Directory {
    type V = DirectoryView;

    open spec fn view(&self) -> DirectoryView {
        DirectoryView { parent: entry_of(self.parent), entries: entries_of(self.entries@) }
    }
}

/// Why the browser has nothing to list.
#[derive(Clone, Copy, Debug, PartialEq, Eq, Structural)]
pub enum ListingError {
    /// The directory could not be read.
    Unreadable,
}

/// Whether the byte string `a` comes before `b` in the dictionary, or is `b`.
pub open spec fn bytes_le(a: Seq<u8>, b: Seq<u8>) -> bool
    decreases a.len(),
{
    if a.len() == 0 {
        true
    } else if b.len() == 0 {
        false
    } else if a[0] == b[0] {
        bytes_le(a.drop_first(), b.drop_first())
    } else {
        a[0] < b[0]
    }
}

/// Of two byte strings one comes before the other, or they are the same.
pub proof fn lemma_bytes_le_total(a: Seq<u8>, b: Seq<u8>)
    ensures
        bytes_le(a, b) || bytes_le(b, a),
    decreases a.len(),
{
    if a.len() > 0 && b.len() > 0 && a[0] == b[0] {
        lemma_bytes_le_total(a.drop_first(), b.drop_first());
    }
}

/// What comes before something that comes before a third comes before the third.
pub proof fn lemma_bytes_le_transitive(a: Seq<u8>, b: Seq<u8>, c: Seq<u8>)
    requires
        bytes_le(a, b),
        bytes_le(b, c),
    ensures
        bytes_le(a, c),
    decreases a.len(),
{
    if a.len() > 0 && b.len() > 0 && c.len() > 0 && a[0] == b[0] && b[0] == c[0] {
        lemma_bytes_le_transitive(a.drop_first(), b.drop_first(), c.drop_first());
    }
}

/// Whether `a` is listed no later than `b`: entries go by the bytes of
/// their paths.
pub open spec fn comes_first(a: PathEntryView, b: PathEntryView) -> bool {
    bytes_le(encode_utf8(a.path), encode_utf8(b.path))
}

/// Whether each entry of `s` is listed no later than those behind it.
pub open spec fn ordered(s: Seq<PathEntryView>) -> bool {
    forall|i: int, j: int| 0 <= i <= j < s.len() ==> comes_first(s[i], s[j])
}

/// Where `x` goes in `s`: behind the last entry that is listed no later.
pub open spec fn slot(s: Seq<PathEntryView>, x: PathEntryView) -> int
    decreases s.len(),
{
    if s.len() == 0 {
        0
    } else if comes_first(s.last(), x) {
        s.len() as int
    } else {
        slot(s.drop_last(), x)
    }
}

/// The entries of `s` in order, those of one path in the order they came in.
pub open spec fn sorted(s: Seq<PathEntryView>) -> Seq<PathEntryView>
    decreases s.len(),
{
    if s.len() == 0 {
        s
    } else {
        let head = sorted(s.drop_last());
        head.insert(slot(head, s.last()), s.last())
    }
}

/// The slot of `x` lies in `s` or at its end, behind an entry that is
/// listed no later than `x` and before all that are listed later.
pub proof fn lemma_slot(s: Seq<PathEntryView>, x: PathEntryView)
    ensures
        0 <= slot(s, x) <= s.len(),
        slot(s, x) > 0 ==> comes_first(s[slot(s, x) - 1], x),
        forall|k: int| slot(s, x) <= k < s.len() ==> !comes_first(#[trigger] s[k], x),
    decreases s.len(),
{
    if s.len() > 0 && !comes_first(s.last(), x) {
        lemma_slot(s.drop_last(), x);
        assert forall|k: int| slot(s, x) <= k < s.len() implies !comes_first(
            #[trigger] s[k],
            x,
        ) by {
            if k < s.len() - 1 {
                assert(s[k] == s.drop_last()[k]);
            }
        }
    }
}

/// Sorting puts the entries in order and neither drops nor adds one.
pub proof fn lemma_sorted(s: Seq<PathEntryView>)
    ensures
        ordered(sorted(s)),
        sorted(s).len() == s.len(),
        sorted(s).to_multiset() == s.to_multiset(),
    decreases s.len(),
{
    if s.len() == 0 {
    } else {
        let rest = s.drop_last();
        let x = s.last();
        let head = sorted(rest);
        let at = slot(head, x);
        let all = head.insert(at, x);
        lemma_sorted(rest);
        lemma_slot(head, x);
        assert forall|i: int, j: int| 0 <= i <= j < all.len() implies comes_first(
            all[i],
            all[j],
        ) by {
            let a = encode_utf8(all[i].path);
            let b = encode_utf8(all[j].path);
            if i == j {
                lemma_bytes_le_total(a, a);
            } else if j < at {
                assert(all[i] == head[i] && all[j] == head[j]);
            } else if j == at {
                assert(all[i] == head[i]);
                assert(comes_first(head[i], head[at - 1]));
                lemma_bytes_le_transitive(a, encode_utf8(head[at - 1].path), b);
            } else if i < at {
                assert(all[i] == head[i] && all[j] == head[j - 1]);
            } else if i == at {
                assert(all[j] == head[j - 1]);
                assert(!comes_first(head[j - 1], x));
                lemma_bytes_le_total(a, b);
            } else {
                assert(all[i] == head[i - 1] && all[j] == head[j - 1]);
            }
        }
        to_multiset_insert(head, at, x);
        assert(s =~= rest.push(x));
        to_multiset_build(rest, x);
    }
}

/// Whether the browser shows the entry: a directory always, a file where
/// its name says that it holds an exam.
pub open spec fn shown(e: PathEntryView) -> bool {
    e.is_dir || format_of(e.file_name) is Some
}

/// What the browser lists of a directory: the directory above it first,
/// if there is one, then the entries it shows, in order.
pub open spec fn listing(dir: DirectoryView) -> Seq<PathEntryView> {
    let below = sorted(dir.entries.filter(|e: PathEntryView| shown(e)));
    match dir.parent {
        Some(parent) => seq![parent] + below,
        None => below,
    }
}

/// What the browser lists of a directory is the directory above it, if
/// there is one, and then exactly the entries it shows, each as often as
/// it was read, in order.
pub proof fn listing_is_ordered(dir: DirectoryView)
    ensures
        ({
            let below = if dir.parent is Some {
                listing(dir).skip(1)
            } else {
                listing(dir)
            };
            &&& dir.parent matches Some(parent) ==> listing(dir).len() > 0 && listing(dir)[0]
                == parent
            &&& ordered(below)
            &&& below.to_multiset() == dir.entries.filter(
                |e: PathEntryView| shown(e),
            ).to_multiset()
        }),
{
    let kept = dir.entries.filter(|e: PathEntryView| shown(e));
    lemma_sorted(kept);
    if dir.parent matches Some(parent) {
        assert(listing(dir).skip(1) =~= sorted(kept));
    }
}

/// Whether the bytes of `a` come before those of `b` in the dictionary, or
/// are the same.
fn precedes(a: &[u8], b: &[u8]) -> (r: bool)
    ensures
        r == bytes_le(a@, b@),
{
    let mut i: usize = 0;
    assert(a@.skip(0) =~= a@ && b@.skip(0) =~= b@);
    while i < a.len() && i < b.len()
        invariant
            i <= a.len(),
            i <= b.len(),
            bytes_le(a@, b@) == bytes_le(a@.skip(i as int), b@.skip(i as int)),
        decreases a.len() - i,
    {
        if a[i] != b[i] {
            return a[i] < b[i];
        }
        assert(a@.skip(i as int).drop_first() =~= a@.skip(i + 1));
        assert(b@.skip(i as int).drop_first() =~= b@.skip(i + 1));
        i += 1;
    }
    i == a.len()
}

impl PathEntry {
    /// Whether this entry is listed no later than `other`.
    pub fn comes_first(&self, other: &PathEntry) -> (r: bool)
        ensures
            r == comes_first(self@, other@),
    {
        precedes(self.path.as_str().as_bytes(), other.path.as_str().as_bytes())
    }

    /// Whether the browser shows the entry.
    pub fn shown(&self) -> (r: bool)
        ensures
            r == shown(self@),
    {
        self.is_dir || Format::of_name(self.file_name.as_str()).is_some()
    }
}

/// Puts `entry` into the ordered list `into`, at its slot.
fn place(into: &mut Vec<PathEntry>, entry: PathEntry)
    ensures
        entries_of(final(into)@) == entries_of(old(into)@).insert(
            slot(entries_of(old(into)@), entry@),
            entry@,
        ),
{
    let ghost before = entries_of(into@);
    let mut at: usize = into.len();
    assert(before.take(at as int) =~= before);
    while at > 0 && !into[at - 1].comes_first(&entry)
        invariant
            at <= into.len(),
            before == entries_of(into@),
            slot(before, entry@) == slot(before.take(at as int), entry@),
        decreases at,
    {
        assert(before.take(at as int).drop_last() =~= before.take(at - 1));
        at -= 1;
    }
    proof {
        lemma_slot(before, entry@);
        if at > 0 {
            assert(before.take(at as int).last() == before[at - 1]);
        }
    }
    into.insert(at, entry);
    assert(entries_of(into@) =~= before.insert(at as int, entry@));
}

/// The entries that the browser shows, in the order they came in.
fn keep_shown(entries: &Vec<PathEntry>) -> (kept: Vec<PathEntry>)
    ensures
        entries_of(kept@) == entries_of(entries@).filter(|e: PathEntryView| shown(e)),
{
    let ghost all = entries_of(entries@);
    let ghost pred = |e: PathEntryView| shown(e);
    let mut kept: Vec<PathEntry> = Vec::new();
    let mut i: usize = 0;
    assert(all.take(0).filter(pred) =~= Seq::<PathEntryView>::empty());
    assert(entries_of(kept@) =~= Seq::<PathEntryView>::empty());
    while i < entries.len()
        invariant
            i <= entries.len(),
            all == entries_of(entries@),
            pred == |e: PathEntryView| shown(e),
            entries_of(kept@) == all.take(i as int).filter(pred),
        decreases entries.len() - i,
    {
        proof {
            let head = all.take(i as int);
            let last = seq![all[i as int]];
            assert(all.take(i + 1) =~= head + last);
            Seq::filter_distributes_over_add(head, last, pred);
            reveal_with_fuel(Seq::filter, 2);
            assert(last.filter(pred) =~= if pred(all[i as int]) {
                last
            } else {
                Seq::<PathEntryView>::empty()
            });
        }
        if entries[i].shown() {
            let ghost before = entries_of(kept@);
            kept.push(entries[i].clone());
            assert(entries_of(kept@) =~= before.push(all[i as int]));
        }
        i += 1;
    }
    assert(all.take(entries.len() as int) =~= all);
    kept
}

/// The entries of `entries`, in order.
fn sort_entries(entries: Vec<PathEntry>) -> (out: Vec<PathEntry>)
    ensures
        entries_of(out@) == sorted(entries_of(entries@)),
{
    let ghost all = entries_of(entries@);
    let mut out: Vec<PathEntry> = Vec::new();
    let mut i: usize = 0;
    assert(entries_of(out@) =~= sorted(all.take(0)));
    while i < entries.len()
        invariant
            i <= entries.len(),
            all == entries_of(entries@),
            entries_of(out@) == sorted(all.take(i as int)),
        decreases entries.len() - i,
    {
        assert(all.take(i + 1).drop_last() =~= all.take(i as int));
        place(&mut out, entries[i].clone());
        i += 1;
    }
    assert(all.take(entries.len() as int) =~= all);
    out
}

impl Directory {
    /// What the browser lists of the directory.
    pub fn listing(&self) -> (paths: Vec<PathEntry>)
        ensures
            entries_of(paths@) == listing(self@),
    {
        let mut paths = sort_entries(keep_shown(&self.entries));
        match &self.parent {
            Some(parent) => {
                let ghost below = entries_of(paths@);
                paths.insert(0, parent.clone());
                assert(entries_of(paths@) =~= seq![parent@] + below);
            },
            None => {},
        }
        paths
    }
}

} // verus!
