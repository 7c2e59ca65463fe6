//! Directory entries and the ordered listing of one directory level.
use vstd::prelude::*;

verus! {

/// What kind of thing a directory entry is.
#[derive(Debug, Clone, Copy, PartialEq, Eq, Structural)]
pub enum FileType {
    File,
    Directory,
    Link,
    Unknown,
}

impl FileType {
    /// The kind of an entry whose metadata answers the three questions
    /// "regular file?", "directory?", "symbolic link?" in that order of
    /// precedence; anything else is `Unknown`.
    pub open spec fn from_flags_spec(is_file: bool, is_dir: bool, is_symlink: bool) -> FileType {
        if is_file {
            FileType::File
        } else if is_dir {
            FileType::Directory
        } else if is_symlink {
            FileType::Link
        } else {
            FileType::Unknown
        }
    }

    /// Derives the kind of an entry from its metadata flags.
    pub fn from_flags(is_file: bool, is_dir: bool, is_symlink: bool) -> (t: FileType)
        ensures
            t == Self::from_flags_spec(is_file, is_dir, is_symlink),
    {
        if is_file {
            FileType::File
        } else if is_dir {
            FileType::Directory
        } else if is_symlink {
            FileType::Link
        } else {
            FileType::Unknown
        }
    }
}

/// One entry of a directory: its kind and its name.
#[derive(Debug, Clone)]
pub struct File {
    pub ftype: FileType,
    pub name: String,
}

/// The mathematical value of a [`File`].
pub struct FileView {
    pub ftype: FileType,
    pub name: Seq<char>,
}

impl View for File {
    type V = FileView;

    open spec fn view(&self) -> FileView {
        FileView { ftype: self.ftype, name: self.name@ }
    }
}

/// The values of a sequence of entries, in order.
pub open spec fn files_view(files: Seq<File>) -> Seq<FileView> {
    files.map_values(|f: File| f@)
}

impl File {
    pub fn new(ftype: FileType, name: String) -> (f: File)
        ensures
            f@ == (FileView { ftype, name: name@ }),
    {
        File { ftype, name }
    }

    /// A second entry with the same kind and name.
    pub fn duplicate(&self) -> (f: File)
        ensures
            f@ == self@,
    {
        File { ftype: self.ftype, name: self.name.clone() }
    }
}

/// A name is hidden when it begins with a dot.
pub open spec fn is_hidden_name(name: Seq<char>) -> bool {
    name.len() > 0 && name[0] == '.'
}

/// Tells whether an entry's name begins with a dot.
pub fn is_hidden(name: &str) -> (hidden: bool)
    ensures
        hidden == is_hidden_name(name@),
{
    if name.is_empty() {
        false
    } else {
        name.get_char(0) == '.'
    }
}

/// Lexicographic "less than or equal" on byte strings: the first differing
/// byte decides, and a proper prefix comes first.
pub open spec fn bytes_le(a: Seq<u8>, b: Seq<u8>) -> bool
    decreases a.len(),
{
    if a.len() == 0 {
        true
    } else if b.len() == 0 {
        false
    } else if a[0] != b[0] {
        a[0] < b[0]
    } else {
        bytes_le(a.drop_first(), b.drop_first())
    }
}

/// Names are compared by their UTF-8 bytes.
pub open spec fn name_le(a: Seq<char>, b: Seq<char>) -> bool {
    bytes_le(vstd::utf8::encode_utf8(a), vstd::utf8::encode_utf8(b))
}

/// Directories rank before everything else.
pub open spec fn rank(t: FileType) -> int {
    if t is Directory {
        0
    } else {
        1
    }
}

/// The listing order: directories first, then ascending by name.
pub open spec fn entry_le(a: FileView, b: FileView) -> bool {
    rank(a.ftype) < rank(b.ftype) || (rank(a.ftype) == rank(b.ftype) && name_le(a.name, b.name))
}

/// Every earlier entry is less than or equal to every later one.
pub open spec fn is_sorted(s: Seq<FileView>) -> bool {
    forall|i: int, j: int| 0 <= i < j < s.len() ==> entry_le(#[trigger] s[i], #[trigger] s[j])
}

/// `e` placed into the sorted sequence `s` behind the last entry that is
/// less than or equal to it.
pub open spec fn insert_entry(s: Seq<FileView>, e: FileView) -> Seq<FileView>
    decreases s.len(),
{
    if s.len() == 0 {
        seq![e]
    } else if entry_le(s.last(), e) {
        s.push(e)
    } else {
        insert_entry(s.drop_last(), e).push(s.last())
    }
}

/// The entries of `s` in listing order; entries that compare equal keep the
/// order in which they came.
pub open spec fn sort_entries(s: Seq<FileView>) -> Seq<FileView>
    decreases s.len(),
{
    if s.len() == 0 {
        Seq::empty()
    } else {
        insert_entry(sort_entries(s.drop_last()), s.last())
    }
}

/// The entries that are shown: all of them, or those that are not hidden.
pub open spec fn visible_entries(s: Seq<FileView>, show_hidden: bool) -> Seq<FileView> {
    s.filter(|f: FileView| show_hidden || !is_hidden_name(f.name))
}

/// The listing of a directory whose raw entries are `s`.
pub open spec fn listing(s: Seq<FileView>, show_hidden: bool) -> Seq<FileView> {
    sort_entries(visible_entries(s, show_hidden))
}

pub proof fn lemma_bytes_le_reflexive(a: Seq<u8>)
    ensures
        bytes_le(a, a),
    decreases a.len(),
{
    if a.len() > 0 {
        lemma_bytes_le_reflexive(a.drop_first());
    }
}

pub proof fn lemma_bytes_le_total(a: Seq<u8>, b: Seq<u8>)
    ensures
        bytes_le(a, b) || bytes_le(b, a),
    decreases a.len(),
{
    if a.len() > 0 && b.len() > 0 && a[0] == b[0] {
        lemma_bytes_le_total(a.drop_first(), b.drop_first());
    }
}

pub proof fn lemma_bytes_le_transitive(a: Seq<u8>, b: Seq<u8>, c: Seq<u8>)
    requires
        bytes_le(a, b),
        bytes_le(b, c),
    ensures
        bytes_le(a, c),
    decreases a.len(),
{
    if a.len() > 0 && b.len() > 0 && c.len() > 0 && a[0] == b[0] && b[0] == c[0] {
        lemma_bytes_le_transitive(a.drop_first(), b.drop_first(), c.drop_first());
    }
}

pub proof fn lemma_bytes_le_antisymmetric(a: Seq<u8>, b: Seq<u8>)
    requires
        bytes_le(a, b),
        bytes_le(b, a),
    ensures
        a == b,
    decreases a.len(),
{
    if a.len() > 0 && b.len() > 0 {
        lemma_bytes_le_antisymmetric(a.drop_first(), b.drop_first());
        assert(a =~= seq![a[0]] + a.drop_first());
        assert(b =~= seq![b[0]] + b.drop_first());
    } else {
        assert(a =~= b);
    }
}

/// Any two entries are comparable.
pub proof fn lemma_entry_le_total(a: FileView, b: FileView)
    ensures
        entry_le(a, b) || entry_le(b, a),
{
    lemma_bytes_le_total(vstd::utf8::encode_utf8(a.name), vstd::utf8::encode_utf8(b.name));
}

/// The listing order is transitive.
pub proof fn lemma_entry_le_transitive(a: FileView, b: FileView, c: FileView)
    requires
        entry_le(a, b),
        entry_le(b, c),
    ensures
        entry_le(a, c),
{
    if rank(a.ftype) == rank(b.ftype) && rank(b.ftype) == rank(c.ftype) {
        lemma_bytes_le_transitive(
            vstd::utf8::encode_utf8(a.name),
            vstd::utf8::encode_utf8(b.name),
            vstd::utf8::encode_utf8(c.name),
        );
    }
}

/// Two entries that precede each other are both directories or both not,
/// and have the same name.
pub proof fn lemma_entry_le_antisymmetric(a: FileView, b: FileView)
    requires
        entry_le(a, b),
        entry_le(b, a),
    ensures
        rank(a.ftype) == rank(b.ftype),
        a.name == b.name,
{
    let ea = vstd::utf8::encode_utf8(a.name);
    let eb = vstd::utf8::encode_utf8(b.name);
    lemma_bytes_le_antisymmetric(ea, eb);
    vstd::utf8::encode_utf8_decode_utf8(a.name);
    vstd::utf8::encode_utf8_decode_utf8(b.name);
}

/// Where `e` goes in the sorted sequence `s`: behind the last entry that is
/// less than or equal to it.
pub open spec fn insertion_point(s: Seq<FileView>, e: FileView) -> int
    decreases s.len(),
{
    if s.len() == 0 {
        0
    } else if entry_le(s.last(), e) {
        s.len() as int
    } else {
        insertion_point(s.drop_last(), e)
    }
}

/// `insert_entry` puts `e` at the insertion point and moves nothing else.
pub proof fn lemma_insert_entry_at_point(s: Seq<FileView>, e: FileView)
    ensures
        0 <= insertion_point(s, e) <= s.len(),
        insert_entry(s, e) == s.insert(insertion_point(s, e), e),
        insertion_point(s, e) > 0 ==> entry_le(s[insertion_point(s, e) - 1], e),
        forall|j: int| insertion_point(s, e) <= j < s.len() ==> !entry_le(#[trigger] s[j], e),
    decreases s.len(),
{
    if s.len() == 0 {
        assert(insert_entry(s, e) =~= s.insert(0, e));
    } else if entry_le(s.last(), e) {
        assert(s.push(e) =~= s.insert(s.len() as int, e));
    } else {
        let t = s.drop_last();
        lemma_insert_entry_at_point(t, e);
        let p = insertion_point(t, e);
        assert(t.insert(p, e).push(s.last()) =~= s.insert(p, e));
        assert forall|j: int| p <= j < s.len() implies !entry_le(#[trigger] s[j], e) by {
            if j < t.len() {
                assert(t[j] == s[j]);
            }
        }
    }
}

/// Inserting into a sorted sequence keeps it sorted.
pub proof fn lemma_insert_entry_sorted(s: Seq<FileView>, e: FileView)
    requires
        is_sorted(s),
    ensures
        is_sorted(insert_entry(s, e)),
{
    lemma_insert_entry_at_point(s, e);
    let p = insertion_point(s, e);
    let r = s.insert(p, e);
    assert forall|i: int, j: int| 0 <= i < j < r.len() implies entry_le(
        #[trigger] r[i],
        #[trigger] r[j],
    ) by {
        if j == p {
            // r[i] == s[i] with i < p, and s[i] <= s[p - 1] <= e
            if i < p - 1 {
                lemma_entry_le_transitive(s[i], s[p - 1], e);
            }
        } else if i == p {
            // r[j] == s[j - 1] with j - 1 >= p, which does not precede e
            lemma_entry_le_total(s[j - 1], e);
        } else {
            let si = if i < p { i } else { i - 1 };
            let sj = if j < p { j } else { j - 1 };
            assert(r[i] == s[si] && r[j] == s[sj]);
        }
    }
}

/// The sorted sequence is in listing order.
pub proof fn lemma_sort_entries_sorted(s: Seq<FileView>)
    ensures
        is_sorted(sort_entries(s)),
    decreases s.len(),
{
    if s.len() > 0 {
        lemma_sort_entries_sorted(s.drop_last());
        lemma_insert_entry_sorted(sort_entries(s.drop_last()), s.last());
    }
}

/// Sorting neither adds nor drops nor changes an entry.
pub proof fn lemma_sort_entries_permutation(s: Seq<FileView>)
    ensures
        sort_entries(s).to_multiset() == s.to_multiset(),
        sort_entries(s).len() == s.len(),
    decreases s.len(),
{
    broadcast use vstd::seq_lib::group_to_multiset_ensures;

    if s.len() == 0 {
        assert(sort_entries(s) =~= s);
    } else {
        let t = s.drop_last();
        lemma_sort_entries_permutation(t);
        lemma_insert_entry_at_point(sort_entries(t), s.last());
        assert(s =~= t.push(s.last()));
    }
}

/// A listing is in listing order, holds exactly the visible entries, each as
/// often as it was given, and with hidden entries filtered out none of its
/// names begins with a dot.
pub proof fn lemma_listing_properties(s: Seq<FileView>, show_hidden: bool)
    ensures
        is_sorted(listing(s, show_hidden)),
        listing(s, show_hidden).to_multiset() == visible_entries(s, show_hidden).to_multiset(),
        show_hidden ==> listing(s, show_hidden).to_multiset() == s.to_multiset(),
        listing(s, show_hidden).len() <= s.len(),
        !show_hidden ==> forall|i: int|
            0 <= i < listing(s, show_hidden).len() ==> !is_hidden_name(
                (#[trigger] listing(s, show_hidden)[i]).name,
            ),
{
    broadcast use vstd::seq_lib::group_to_multiset_ensures;

    let pred = |f: FileView| show_hidden || !is_hidden_name(f.name);
    let v = visible_entries(s, show_hidden);
    let l = listing(s, show_hidden);
    lemma_sort_entries_sorted(v);
    lemma_sort_entries_permutation(v);
    s.lemma_filter_len(pred);
    if show_hidden {
        assert(v =~= s) by {
            lemma_filter_all(s, pred);
        }
    } else {
        assert forall|i: int| 0 <= i < l.len() implies !is_hidden_name((#[trigger] l[i]).name) by {
            assert(l.to_multiset().count(l[i]) > 0);
            assert(v.contains(l[i]));
            let k = choose|k: int| 0 <= k < v.len() && v[k] == l[i];
            s.lemma_filter_pred(pred, k);
        }
    }
}

/// A filter that accepts every element changes nothing.
proof fn lemma_filter_all(s: Seq<FileView>, pred: spec_fn(FileView) -> bool)
    requires
        forall|f: FileView| #[trigger] pred(f),
    ensures
        s.filter(pred) == s,
    decreases s.len(),
{
    reveal(Seq::filter);
    if s.len() > 0 {
        lemma_filter_all(s.drop_last(), pred);
        assert(s =~= s.drop_last().push(s.last()));
    }
}

/// Compares two names by their UTF-8 bytes.
pub fn name_precedes(a: &str, b: &str) -> (le: bool)
    ensures
        le == name_le(a@, b@),
{
    let x = a.as_bytes();
    let y = b.as_bytes();
    let mut i: usize = 0;
    proof {
        assert(x@.skip(0) =~= x@);
        assert(y@.skip(0) =~= y@);
    }
    while i < x.len() && i < y.len()
        invariant
            i <= x.len(),
            i <= y.len(),
            x@ == vstd::utf8::encode_utf8(a@),
            y@ == vstd::utf8::encode_utf8(b@),
            bytes_le(x@, y@) == bytes_le(x@.skip(i as int), y@.skip(i as int)),
        decreases x.len() - i,
    {
        assert(x@.skip(i as int)[0] == x[i as int]);
        assert(y@.skip(i as int)[0] == y[i as int]);
        if x[i] != y[i] {
            return x[i] < y[i];
        }
        proof {
            assert(x@.skip(i as int).drop_first() =~= x@.skip(i + 1));
            assert(y@.skip(i as int).drop_first() =~= y@.skip(i + 1));
        }
        i += 1;
    }
    i == x.len()
}

/// Tells whether `a` may stand before `b` in a listing.
pub fn precedes(a: &File, b: &File) -> (le: bool)
    ensures
        le == entry_le(a@, b@),
{
    let a_dir = a.ftype == FileType::Directory;
    let b_dir = b.ftype == FileType::Directory;
    if a_dir && !b_dir {
        true
    } else if !a_dir && b_dir {
        false
    } else {
        name_precedes(a.name.as_str(), b.name.as_str())
    }
}

/// Tells whether entries stand in listing order.
pub fn in_listing_order(files: &Vec<File>) -> (sorted: bool)
    ensures
        sorted == is_sorted(files_view(files@)),
{
    let ghost all = files_view(files@);
    if files.len() == 0 {
        return true;
    }
    let mut i: usize = 1;
    while i < files.len()
        invariant
            1 <= i <= files.len(),
            all == files_view(files@),
            is_sorted(all.take(i as int)),
        decreases files.len() - i,
    {
        if !precedes(&files[i - 1], &files[i]) {
            proof {
                assert(all[i - 1] == files@[i - 1]@);
                assert(all[i as int] == files@[i as int]@);
            }
            return false;
        }
        proof {
            let longer = all.take(i + 1);
            assert forall|a: int, b: int| 0 <= a < b < longer.len() implies entry_le(
                #[trigger] longer[a],
                #[trigger] longer[b],
            ) by {
                if b < i {
                    assert(all.take(i as int)[a] == longer[a]);
                    assert(all.take(i as int)[b] == longer[b]);
                } else if a < i - 1 {
                    assert(all.take(i as int)[a] == longer[a]);
                    assert(all.take(i as int)[i - 1] == longer[i - 1]);
                    lemma_entry_le_transitive(longer[a], longer[i - 1], longer[b]);
                }
            }
        }
        i += 1;
    }
    proof {
        assert(all.take(i as int) =~= all);
    }
    true
}

/// Turns the raw entries of one directory level into its listing: hidden
/// entries are dropped unless `show_hidden`, directories come first, and
/// within each group names ascend.
pub fn directory_contents(entries: &Vec<File>, show_hidden: bool) -> (files: Vec<File>)
    ensures
        files_view(files@) == listing(files_view(entries@), show_hidden),
        is_sorted(files_view(files@)),
        files@.len() <= entries@.len(),
{
    let ghost raw = files_view(entries@);
    let ghost pred = |f: FileView| show_hidden || !is_hidden_name(f.name);
    let mut files: Vec<File> = Vec::new();
    let mut i: usize = 0;
    proof {
        assert(raw.take(0) =~= Seq::<FileView>::empty());
        assert(files_view(files@) =~= Seq::<FileView>::empty());
    }
    while i < entries.len()
        invariant
            i <= entries.len(),
            raw == files_view(entries@),
            pred == (|f: FileView| show_hidden || !is_hidden_name(f.name)),
            files_view(files@) == sort_entries(raw.take(i as int).filter(pred)),
        decreases entries.len() - i,
    {
        let entry = &entries[i];
        let ghost before = files_view(files@);
        proof {
            assert(raw.take(i + 1) =~= raw.take(i as int).push(entry@));
            raw.take(i as int).lemma_filter_push(entry@, pred);
            if pred(entry@) {
                assert(raw.take(i as int).filter(pred).push(entry@).drop_last() =~= raw.take(
                    i as int,
                ).filter(pred));
            }
        }
        if show_hidden || !is_hidden(entry.name.as_str()) {
            let mut pos: usize = files.len();
            proof {
                assert(before.take(pos as int) =~= before);
                assert(insert_entry(before, entry@) =~= insert_entry(before, entry@)
                    + before.skip(pos as int));
            }
            while pos > 0 && !precedes(&files[pos - 1], entry)
                invariant
                    pos <= files.len(),
                    before == files_view(files@),
                    insert_entry(before, entry@) == insert_entry(
                        before.take(pos as int),
                        entry@,
                    ) + before.skip(pos as int),
                decreases pos,
            {
                proof {
                    let t = before.take(pos as int);
                    assert(t.last() == before[pos - 1]);
                    assert(t.drop_last() =~= before.take(pos - 1));
                    assert(insert_entry(t.drop_last(), entry@).push(t.last()) + before.skip(
                        pos as int,
                    ) =~= insert_entry(before.take(pos - 1), entry@) + before.skip(pos - 1));
                }
                pos -= 1;
            }
            proof {
                let t = before.take(pos as int);
                if pos > 0 {
                    assert(t.last() == before[pos - 1]);
                }
                assert(insert_entry(t, entry@) =~= t.push(entry@));
                assert(t.push(entry@) + before.skip(pos as int) =~= before.insert(
                    pos as int,
                    entry@,
                ));
            }
            files.insert(pos, entry.duplicate());
            proof {
                assert(files_view(files@) =~= before.insert(pos as int, entry@));
            }
        }
        i += 1;
    }
    proof {
        assert(raw.take(i as int) =~= raw);
        lemma_listing_properties(raw, show_hidden);
    }
    files
}

} // verus!
