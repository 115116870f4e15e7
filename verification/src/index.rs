//! The recording-directory index: classifies directory entries, renders
//! their size and modification time for display, orders them newest first
//! by the rendered timestamp, and finds the freshest recording for the
//! stop report. The directory itself is read by the caller, which hands
//! the entries in as plain values; an unreadable directory is kept
//! distinct from an empty one.

use vstd::prelude::*;
use vstd::multiset::Multiset;
use crate::render::{size_chars, format_file_size};
use crate::stamp::{LocalStamp, stamp_minute_chars};
use crate::text::{
    lex_lt,
    lex_le,
    suffix_of,
    has_substring,
    str_ends_with,
    str_contains,
    str_le,
    lemma_lex_lt_total,
    lemma_lex_le_transitive,
};

verus! {

/// One directory entry as observed by the caller: the file name, whether
/// it is a regular file, its byte size, its modification time as an epoch
/// second count, and the same instant as a local calendar stamp.
pub struct FileEntry {
    pub name: String,
    pub is_file: bool,
    pub size_bytes: u64,
    pub modified_secs: i64,
    pub modified: LocalStamp,
}

impl FileEntry {
    /// The entry's calendar stamp is within its field ranges.
    pub open spec fn wf(self) -> bool {
        self.modified.wf()
    }
}

/// One row of the rendered index: name, human-readable size, and the
/// display form of the modification time.
pub struct RecordingFile {
    pub name: String,
    pub size: String,
    pub modified: String,
}

/// What the caller observed when reading the directory: the entries, or
/// the reason the directory could not be read.
pub enum DirectoryScan {
    Unreadable(String),
    Entries(Vec<FileEntry>),
}

/// The index outcome: an unreadable directory, a readable one with no
/// recording artifacts, or the rendered rows.
pub enum IndexListing {
    Error(String),
    Empty,
    Items(Vec<RecordingFile>),
}

/// The characters of `".mp4"`.
pub open spec fn ext_mp4() -> Seq<char> {
    seq!['.', 'm', 'p', '4']
}

/// The characters of `".mkv"`.
pub open spec fn ext_mkv() -> Seq<char> {
    seq!['.', 'm', 'k', 'v']
}

/// The characters of `".webm"`.
pub open spec fn ext_webm() -> Seq<char> {
    seq!['.', 'w', 'e', 'b', 'm']
}

/// The characters of the recorder's naming token, `"wf-recorder"`.
pub open spec fn recorder_token() -> Seq<char> {
    seq!['w', 'f', '-', 'r', 'e', 'c', 'o', 'r', 'd', 'e', 'r']
}

/// A name counts as a recording artifact when it carries a recognized
/// video extension or contains the recorder's naming token.
pub open spec fn is_artifact_name(name: Seq<char>) -> bool {
    suffix_of(ext_mp4(), name) || suffix_of(ext_mkv(), name) || suffix_of(ext_webm(), name)
        || has_substring(name, recorder_token())
}

/// An entry is kept by the index when it is a regular file with an
/// artifact name.
pub open spec fn keeps(e: FileEntry) -> bool {
    e.is_file && is_artifact_name(e.name@)
}

/// An entry counts for the stop report when its name carries the output
/// container extension.
pub open spec fn is_mp4_entry(e: FileEntry) -> bool {
    suffix_of(ext_mp4(), e.name@)
}

/// The displayed content of one rendered row: its three strings as
/// character sequences.
pub open spec fn file_model(f: RecordingFile) -> (Seq<char>, Seq<char>, Seq<char>) {
    (f.name@, f.size@, f.modified@)
}

/// The displayed content of a sequence of rendered rows.
pub open spec fn files_model(s: Seq<RecordingFile>) -> Seq<(Seq<char>, Seq<char>, Seq<char>)> {
    s.map_values(|f: RecordingFile| file_model(f))
}

/// The row an entry renders to: its name, its size rendering, and the
/// display form of its stamp.
pub open spec fn entry_model(e: FileEntry) -> (Seq<char>, Seq<char>, Seq<char>) {
    (e.name@, size_chars(e.size_bytes as nat), stamp_minute_chars(e.modified))
}

/// The rows of the kept entries, in directory order.
pub open spec fn index_model(entries: Seq<FileEntry>) -> Seq<(Seq<char>, Seq<char>, Seq<char>)>
    decreases entries.len(),
{
    if entries.len() == 0 {
        Seq::empty()
    } else if keeps(entries.last()) {
        index_model(entries.drop_last()).push(entry_model(entries.last()))
    } else {
        index_model(entries.drop_last())
    }
}

/// Rows ordered newest first by their rendered timestamp: every later row
/// sorts at or below every earlier one.
pub open spec fn sorted_desc(s: Seq<RecordingFile>) -> bool {
    forall|i: int, j: int| 0 <= i < j < s.len() ==> lex_le(s[j].modified@, s[i].modified@)
}

/// Whether the name counts as a recording artifact, per
/// `is_artifact_name`.
pub fn is_recording_artifact(name: &str) -> (r: bool)
    ensures
        r == is_artifact_name(name@),
{
    proof {
        reveal_strlit(".mp4");
        reveal_strlit(".mkv");
        reveal_strlit(".webm");
        reveal_strlit("wf-recorder");
        assert(".mp4"@ =~= ext_mp4());
        assert(".mkv"@ =~= ext_mkv());
        assert(".webm"@ =~= ext_webm());
        assert("wf-recorder"@ =~= recorder_token());
    }
    if str_ends_with(name, ".mp4") {
        true
    } else if str_ends_with(name, ".mkv") {
        true
    } else if str_ends_with(name, ".webm") {
        true
    } else {
        str_contains(name, "wf-recorder")
    }
}

/// The position at which a row with the given timestamp key belongs in a
/// descending sequence: the first index whose key is at or below it.
fn insert_position(v: &Vec<RecordingFile>, key: &String) -> (i: usize)
    requires
        sorted_desc(v@),
    ensures
        i <= v@.len(),
        forall|k: int| 0 <= k < i ==> lex_lt(key@, v@[k].modified@),
        i < v@.len() ==> lex_le(v@[i as int].modified@, key@),
{
    let n = v.len();
    let mut i: usize = 0;
    while i < n
        invariant
            n == v@.len(),
            sorted_desc(v@),
            i <= n,
            forall|k: int| 0 <= k < i ==> lex_lt(key@, v@[k].modified@),
        decreases n - i,
    {
        if str_le(&v[i].modified, key) {
            return i;
        }
        proof {
            lemma_lex_lt_total(key@, v@[i as int].modified@);
        }
        i = i + 1;
    }
    n
}

/// Inserts a row into a descending sequence, keeping it descending; the
/// rendered content grows by exactly that row.
fn insert_sorted(v: &mut Vec<RecordingFile>, x: RecordingFile)
    requires
        sorted_desc(old(v)@),
    ensures
        sorted_desc(final(v)@),
        files_model(final(v)@).to_multiset() == files_model(old(v)@).to_multiset().insert(
            file_model(x),
        ),
{
    broadcast use vstd::seq_lib::group_to_multiset_ensures;
    broadcast use vstd::multiset::group_multiset_axioms;

    let ghost pre = v@;
    let ghost fx = file_model(x);
    let i = insert_position(v, &x.modified);
    let ghost gi = i as int;
    let ghost key = x.modified@;
    v.insert(i, x);
    proof {
        assert(v@ =~= pre.take(gi) + seq![x] + pre.skip(gi));
        assert(forall|k: int| 0 <= k < gi ==> v@[k] == pre[k]);
        assert(forall|k: int| gi < k < v@.len() ==> v@[k] == pre[k - 1]);
        assert forall|a: int, b: int| 0 <= a < b < v@.len() implies lex_le(
            v@[b].modified@,
            v@[a].modified@,
        ) by {
            if a < gi && b == gi {
                // the new row sorts below everything before it
            } else if a == gi && b > gi {
                if b - 1 > gi {
                    lemma_lex_le_transitive(pre[b - 1].modified@, pre[gi].modified@, key);
                }
            }
        }
        // content: the three-way split turns the insertion into a multiset insert
        assert(files_model(v@) =~= files_model(pre.take(gi)) + seq![fx] + files_model(
            pre.skip(gi),
        ));
        assert(files_model(pre) =~= files_model(pre.take(gi)) + files_model(pre.skip(gi)));
        vstd::seq_lib::lemma_multiset_commutative(
            files_model(pre.take(gi)) + seq![fx],
            files_model(pre.skip(gi)),
        );
        vstd::seq_lib::lemma_multiset_commutative(files_model(pre.take(gi)), seq![fx]);
        vstd::seq_lib::lemma_multiset_commutative(
            files_model(pre.take(gi)),
            files_model(pre.skip(gi)),
        );
        assert(seq![fx] =~= Seq::<(Seq<char>, Seq<char>, Seq<char>)>::empty().push(fx));
        assert(seq![fx].to_multiset() =~= Multiset::<(Seq<char>, Seq<char>, Seq<char>)>::empty()
            .insert(fx));
        assert(files_model(v@).to_multiset() =~= files_model(pre).to_multiset().insert(fx));
    }
}

/// Orders rows newest first by their rendered timestamp. Rows with equal
/// timestamps may come out in any order, but the rendered content is kept
/// exactly.
pub fn sort_files_desc(files: Vec<RecordingFile>) -> (r: Vec<RecordingFile>)
    ensures
        sorted_desc(r@),
        files_model(r@).to_multiset() == files_model(files@).to_multiset(),
{
    broadcast use vstd::seq_lib::group_to_multiset_ensures;
    broadcast use vstd::multiset::group_multiset_axioms;

    let ghost orig = files@;
    let mut input = files;
    let mut out: Vec<RecordingFile> = Vec::new();
    proof {
        assert(files_model(out@).to_multiset().add(files_model(input@).to_multiset())
            =~= files_model(orig).to_multiset());
    }
    while input.len() > 0
        invariant
            sorted_desc(out@),
            files_model(out@).to_multiset().add(files_model(input@).to_multiset())
                == files_model(orig).to_multiset(),
        decreases input.len(),
    {
        let ghost in_pre = input@;
        let ghost out_pre = out@;
        let x = input.pop().unwrap();
        proof {
            assert(in_pre =~= in_pre.take(in_pre.len() - 1).push(in_pre.last()));
            assert(files_model(in_pre) =~= files_model(input@).push(file_model(x)));
            files_model(input@).to_multiset_ensures();
            assert(files_model(input@).push(file_model(x)).to_multiset() == files_model(
                input@,
            ).to_multiset().insert(file_model(x)));
            assert(files_model(in_pre).to_multiset() =~= files_model(input@).to_multiset().insert(
                file_model(x),
            ));
        }
        insert_sorted(&mut out, x);
        proof {
            assert(files_model(out@).to_multiset().add(files_model(input@).to_multiset())
                =~= files_model(orig).to_multiset());
        }
    }
    proof {
        assert(files_model(input@).to_multiset() =~= Multiset::<(
            Seq<char>,
            Seq<char>,
            Seq<char>,
        )>::empty());
        assert(files_model(out@).to_multiset() =~= files_model(orig).to_multiset());
    }
    out
}

/// Renders the kept entries of a directory scan and orders them newest
/// first; an unreadable directory keeps its reason, and a readable one
/// with nothing kept reports itself empty.
pub fn list_recording_files(scan: DirectoryScan) -> (r: IndexListing)
    requires
        scan matches DirectoryScan::Entries(entries) ==> forall|k: int|
            0 <= k < entries@.len() ==> (#[trigger] entries@[k]).wf(),
    ensures
        scan matches DirectoryScan::Unreadable(reason) ==> r matches IndexListing::Error(m) && m
            == reason,
        scan matches DirectoryScan::Entries(entries) ==> (if index_model(entries@).len() == 0 {
            r is Empty
        } else {
            r matches IndexListing::Items(v) && files_model(v@).to_multiset() == index_model(
                entries@,
            ).to_multiset() && sorted_desc(v@)
        }),
{
    let entries = match scan {
        DirectoryScan::Unreadable(reason) => {
            return IndexListing::Error(reason);
        },
        DirectoryScan::Entries(entries) => entries,
    };
    let mut out: Vec<RecordingFile> = Vec::new();
    let n = entries.len();
    let mut i: usize = 0;
    while i < n
        invariant
            n == entries@.len(),
            forall|k: int| 0 <= k < n ==> (#[trigger] entries@[k]).wf(),
            i <= n,
            files_model(out@) == index_model(entries@.take(i as int)),
        decreases n - i,
    {
        let ghost out_pre = out@;
        let e = &entries[i];
        if e.is_file && is_recording_artifact(e.name.as_str()) {
            let row = RecordingFile {
                name: e.name.clone(),
                size: format_file_size(e.size_bytes),
                modified: e.modified.render_minute(),
            };
            proof {
                assert(file_model(row) == entry_model(entries@[i as int]));
            }
            out.push(row);
            proof {
                assert(files_model(out@) =~= files_model(out_pre).push(
                    entry_model(entries@[i as int]),
                ));
            }
        }
        proof {
            assert(entries@.take(i as int + 1).drop_last() =~= entries@.take(i as int));
            assert(entries@.take(i as int + 1).last() == entries@[i as int]);
        }
        i = i + 1;
    }
    proof {
        assert(entries@.take(n as int) =~= entries@);
    }
    if out.len() == 0 {
        proof {
            assert(files_model(out@) =~= Seq::<(Seq<char>, Seq<char>, Seq<char>)>::empty());
        }
        IndexListing::Empty
    } else {
        let sorted = sort_files_desc(out);
        IndexListing::Items(sorted)
    }
}

/// The full path of a listed file: the directory, a separator, the name.
pub open spec fn file_path_chars(dir: Seq<char>, name: Seq<char>) -> Seq<char> {
    dir + "/"@ + name
}

/// Builds the full path of a file in the recording directory, for the
/// play and delete actions.
pub fn file_path(dir: &str, name: &str) -> (r: String)
    ensures
        r@ == file_path_chars(dir@, name@),
{
    let mut s = String::from_str(dir);
    s.append("/");
    s.append(name);
    assert(s@ =~= file_path_chars(dir@, name@));
    s
}

/// The characters a name is shown as in a file row: over forty
/// characters is cut to the first thirty-seven with an ellipsis.
pub open spec fn display_name_chars(name: Seq<char>) -> Seq<char> {
    if name.len() > 40 {
        name.take(37) + "..."@
    } else {
        name
    }
}

/// The form a file name is shown in: long names are shortened to their
/// first thirty-seven characters and an ellipsis.
pub fn display_name(name: &str) -> (r: String)
    ensures
        r@ == display_name_chars(name@),
{
    let n = name.unicode_len();
    if n > 40 {
        let head = name.substring_char(0, 37);
        let mut s = String::from_str(head);
        s.append("...");
        assert(s@ =~= display_name_chars(name@));
        s
    } else {
        String::from_str(name)
    }
}

/// The name belongs to an entry with the output container extension
/// whose modification time no other such entry exceeds.
pub open spec fn is_newest_mp4(entries: Seq<FileEntry>, name: Seq<char>) -> bool {
    exists|k: int|
        0 <= k < entries.len() && is_mp4_entry(#[trigger] entries[k]) && name == entries[k].name@
            && forall|j: int|
            0 <= j < entries.len() && is_mp4_entry(#[trigger] entries[j])
                ==> entries[j].modified_secs <= entries[k].modified_secs
}

/// No entry carries the output container extension.
pub open spec fn no_mp4(entries: Seq<FileEntry>) -> bool {
    forall|k: int| 0 <= k < entries.len() ==> !is_mp4_entry(#[trigger] entries[k])
}

/// The name of a most recently modified entry carrying the output
/// container extension, or nothing when no entry carries it.
pub fn newest_mp4(entries: &Vec<FileEntry>) -> (r: Option<String>)
    ensures
        r is None <==> no_mp4(entries@),
        r matches Some(name) ==> is_newest_mp4(entries@, name@),
{
    let n = entries.len();
    let mut best: usize = 0;
    let mut found: bool = false;
    let mut i: usize = 0;
    while i < n
        invariant
            n == entries@.len(),
            i <= n,
            !found ==> forall|k: int| 0 <= k < i ==> !is_mp4_entry(#[trigger] entries@[k]),
            found ==> best < i && is_mp4_entry(entries@[best as int]) && forall|j: int|
                0 <= j < i && is_mp4_entry(#[trigger] entries@[j]) ==> entries@[j].modified_secs
                    <= entries@[best as int].modified_secs,
        decreases n - i,
    {
        proof {
            reveal_strlit(".mp4");
            assert(".mp4"@ =~= ext_mp4());
        }
        if str_ends_with(entries[i].name.as_str(), ".mp4") {
            if !found {
                best = i;
                found = true;
            } else if entries[i].modified_secs >= entries[best].modified_secs {
                best = i;
            }
        }
        i = i + 1;
    }
    if found {
        Some(entries[best].name.clone())
    } else {
        None
    }
}

} // verus!
