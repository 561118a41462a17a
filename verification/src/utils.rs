use color_thief::get_palette;
use color_thief::ColorFormat;
use vstd::prelude::*;
use vstd::string::StrSliceExecFns;
use vstd::string::StringExecFns;
use vstd::utf8::encode_utf8;

use crate::audio::song::dominant;
use crate::audio::song::opt_palette;
use crate::audio::song::Rgb;

verus! {

/// Copies a byte buffer.
pub fn clone_bytes(v: &Vec<u8>) -> (r: Vec<u8>)
    ensures
        r@ == v@,
{
    let mut r: Vec<u8> = Vec::new();
    let mut i: usize = 0;
    while i < v.len()
        invariant
            i <= v.len(),
            r@ == v@.subrange(0, i as int),
        decreases v.len() - i,
    {
        r.push(v[i]);
        i += 1;
        assert(r@ =~= v@.subrange(0, i as int));
    }
    assert(v@.subrange(0, v.len() as int) =~= v@);
    r
}

/// The text held by an optional string, if any.
pub open spec fn opt_text(o: Option<String>) -> Option<Seq<char>> {
    match o {
        Some(s) => Some(s@),
        None => None,
    }
}

/// Copies an optional string.
pub fn clone_opt_string(o: &Option<String>) -> (r: Option<String>)
    ensures
        opt_text(r) == opt_text(*o),
{
    match o {
        Some(s) => Some(s.clone()),
        None => None,
    }
}

/// The character of a decimal digit.
pub open spec fn digit_char(d: nat) -> char {
    if d == 0 {
        '0'
    } else if d == 1 {
        '1'
    } else if d == 2 {
        '2'
    } else if d == 3 {
        '3'
    } else if d == 4 {
        '4'
    } else if d == 5 {
        '5'
    } else if d == 6 {
        '6'
    } else if d == 7 {
        '7'
    } else if d == 8 {
        '8'
    } else {
        '9'
    }
}

/// The decimal numeral of a number, without leading zeros.
pub open spec fn decimal(n: nat) -> Seq<char>
    decreases n,
{
    if n < 10 {
        seq![digit_char(n)]
    } else {
        decimal(n / 10).push(digit_char(n % 10))
    }
}

/// The decimal numeral of a number, with a leading zero below ten.
pub open spec fn two_digits(n: nat) -> Seq<char> {
    if n < 10 {
        seq!['0'] + decimal(n)
    } else {
        decimal(n)
    }
}

/// A time in seconds as minutes and seconds, `m:ss`.
pub open spec fn clock_text(seconds: nat) -> Seq<char> {
    decimal(seconds / 60) + seq![':'] + two_digits(seconds % 60)
}

/// Elapsed and total time side by side, `m:ss / m:ss`.
pub open spec fn time_text(seconds: nat, total: nat) -> Seq<char> {
    clock_text(seconds) + seq![' ', '/', ' '] + clock_text(total)
}

/// The numeral of one decimal digit.
fn digit_str(d: u64) -> (r: &'static str)
    requires
        d < 10,
    ensures
        r@ == seq![digit_char(d as nat)],
{
    proof {
        reveal_strlit("0");
        reveal_strlit("1");
        reveal_strlit("2");
        reveal_strlit("3");
        reveal_strlit("4");
        reveal_strlit("5");
        reveal_strlit("6");
        reveal_strlit("7");
        reveal_strlit("8");
        reveal_strlit("9");
    }
    let r = if d == 0 {
        "0"
    } else if d == 1 {
        "1"
    } else if d == 2 {
        "2"
    } else if d == 3 {
        "3"
    } else if d == 4 {
        "4"
    } else if d == 5 {
        "5"
    } else if d == 6 {
        "6"
    } else if d == 7 {
        "7"
    } else if d == 8 {
        "8"
    } else {
        "9"
    };
    assert(r@ =~= seq![digit_char(d as nat)]);
    r
}

/// Appends the decimal numeral of `n` to `s`.
pub fn push_decimal(s: &mut String, n: u64)
    ensures
        final(s)@ == old(s)@ + decimal(n as nat),
    decreases n,
{
    if n >= 10 {
        push_decimal(s, n / 10);
        s.append(digit_str(n % 10));
        assert(s@ =~= old(s)@ + decimal(n as nat));
    } else {
        s.append(digit_str(n));
    }
}

/// Appends a time in seconds to `s` as minutes and seconds.
fn push_clock(s: &mut String, seconds: u64)
    ensures
        final(s)@ == old(s)@ + clock_text(seconds as nat),
{
    proof {
        reveal_strlit(":");
        reveal_strlit("0");
    }
    push_decimal(s, seconds / 60);
    s.append(":");
    if seconds % 60 < 10 {
        s.append("0");
    }
    push_decimal(s, seconds % 60);
    assert(s@ =~= old(s)@ + clock_text(seconds as nat));
}

/// Formats elapsed and total time, both in seconds, as `m:ss / m:ss`.
pub fn format_time(seconds: u64, total: u64) -> (r: String)
    ensures
        r@ == time_text(seconds as nat, total as nat),
{
    proof {
        reveal_strlit(" / ");
    }
    let mut r = String::new();
    push_clock(&mut r, seconds);
    r.append(" / ");
    push_clock(&mut r, total);
    assert(r@ =~= time_text(seconds as nat, total as nat));
    r
}

/// What kind of thing an entry of a folder listing is.
#[derive(Clone, Copy, Debug, PartialEq, Eq, Structural)]
pub enum EntryKind {
    /// A regular file.
    Regular,
    /// A folder.
    Directory,
    /// Anything else: a link, a device, a socket.
    Other,
}

/// What is done with an entry of a folder listing.
#[derive(Clone, Copy, Debug, PartialEq, Eq, Structural)]
pub enum EntryAction {
    /// The entry is a file to queue.
    Take,
    /// The entry is a folder whose own entries are listed too.
    Descend,
    /// The entry is passed over.
    Skip,
}

/// The rule for the entries of a folder listing: regular files of an audio
/// type are taken, folders are entered when the listing is recursive, and
/// everything else is passed over.
pub open spec fn action_for(kind: EntryKind, is_audio: bool, recursive: bool) -> EntryAction {
    match kind {
        EntryKind::Regular => if is_audio {
            EntryAction::Take
        } else {
            EntryAction::Skip
        },
        EntryKind::Directory => if recursive {
            EntryAction::Descend
        } else {
            EntryAction::Skip
        },
        EntryKind::Other => EntryAction::Skip,
    }
}

/// Decides what is done with one entry of a folder listing.
pub fn entry_action(kind: EntryKind, is_audio: bool, recursive: bool) -> (r: EntryAction)
    ensures
        r == action_for(kind, is_audio, recursive),
{
    match kind {
        EntryKind::Regular => {
            if is_audio {
                EntryAction::Take
            } else {
                EntryAction::Skip
            }
        },
        EntryKind::Directory => {
            if recursive {
                EntryAction::Descend
            } else {
                EntryAction::Skip
            }
        },
        EntryKind::Other => EntryAction::Skip,
    }
}

/// A file found while a folder is listed: the base name of the folder it
/// lies in, its own base name, and its URI.
#[derive(Debug)]
pub struct FileEntry {
    pub parent: String,
    pub name: String,
    pub uri: String,
}

/// Whether byte string `a` comes before `b`, or is `b`, in lexicographic
/// order.
pub open spec fn bytes_le(a: Seq<u8>, b: Seq<u8>) -> bool
    decreases a.len(),
{
    if a.len() == 0 {
        true
    } else if b.len() == 0 {
        false
    } else if a[0] != b[0] {
        a[0] < b[0]
    } else {
        bytes_le(a.drop_first(), b.drop_first())
    }
}

/// The text that files are ordered by: the folder's base name, a hyphen,
/// and the file's base name.
pub open spec fn sort_key(e: FileEntry) -> Seq<char> {
    e.parent@ + seq!['-'] + e.name@
}

/// Whether `a` is listed no later than `b`: by the bytes of their keys.
pub open spec fn listed_before(a: FileEntry, b: FileEntry) -> bool {
    bytes_le(encode_utf8(sort_key(a)), encode_utf8(sort_key(b)))
}

/// Whether a list of files is in listing order.
pub open spec fn in_listing_order(files: Seq<FileEntry>) -> bool {
    forall|i: int, j: int| 0 <= i < j < files.len() ==> listed_before(files[i], files[j])
}

/// The lexicographic order of byte strings is total.
pub proof fn lemma_bytes_le_total(a: Seq<u8>, b: Seq<u8>)
    ensures
        bytes_le(a, b) || bytes_le(b, a),
    decreases a.len(),
{
    if a.len() > 0 && b.len() > 0 && a[0] == b[0] {
        lemma_bytes_le_total(a.drop_first(), b.drop_first());
    }
}

/// The lexicographic order of byte strings is transitive.
pub proof fn lemma_bytes_le_transitive(a: Seq<u8>, b: Seq<u8>, c: Seq<u8>)
    requires
        bytes_le(a, b),
        bytes_le(b, c),
    ensures
        bytes_le(a, c),
    decreases a.len(),
{
    if a.len() > 0 && b.len() > 0 && c.len() > 0 && a[0] == b[0] && b[0] == c[0] {
        lemma_bytes_le_transitive(a.drop_first(), b.drop_first(), c.drop_first());
    }
}

/// Compares two byte strings lexicographically.
pub fn bytes_less_or_equal(a: &Vec<u8>, b: &Vec<u8>) -> (r: bool)
    ensures
        r == bytes_le(a@, b@),
{
    let mut i: usize = 0;
    assert(a@.subrange(0, a@.len() as int) =~= a@);
    assert(b@.subrange(0, b@.len() as int) =~= b@);
    while i < a.len() && i < b.len()
        invariant
            i <= a.len(),
            i <= b.len(),
            bytes_le(a@, b@) == bytes_le(
                a@.subrange(i as int, a@.len() as int),
                b@.subrange(i as int, b@.len() as int),
            ),
        decreases a.len() - i,
    {
        let ghost ra = a@.subrange(i as int, a@.len() as int);
        let ghost rb = b@.subrange(i as int, b@.len() as int);
        assert(ra[0] == a[i as int]);
        assert(rb[0] == b[i as int]);
        assert(ra.drop_first() =~= a@.subrange(i + 1, a@.len() as int));
        assert(rb.drop_first() =~= b@.subrange(i + 1, b@.len() as int));
        if a[i] != b[i] {
            return a[i] < b[i];
        }
        i += 1;
    }
    i >= a.len()
}

/// The bytes of the key that a file is ordered by.
pub fn sort_key_bytes(e: &FileEntry) -> (r: Vec<u8>)
    ensures
        r@ == encode_utf8(sort_key(*e)),
{
    proof {
        reveal_strlit("-");
    }
    let mut key = String::new();
    key.append(e.parent.as_str());
    key.append("-");
    key.append(e.name.as_str());
    assert(key@ =~= sort_key(*e));
    key.as_str().as_bytes_vec()
}

/// Whether `sorted` is `files` rearranged with ties left as they were:
/// `origin` gives, for each place of `sorted`, the place in `files` that
/// its file came from, no place is used twice, and of two files that
/// neither key puts first the one listed earlier in `files` stays earlier.
pub open spec fn is_stable_arrangement(
    files: Seq<FileEntry>,
    sorted: Seq<FileEntry>,
    origin: Seq<int>,
) -> bool {
    &&& sorted.len() == files.len()
    &&& origin.len() == files.len()
    &&& forall|i: int|
        0 <= i < origin.len() ==> 0 <= (#[trigger] origin[i]) < files.len() && sorted[i]
            == files[origin[i]]
    &&& forall|i: int, j: int|
        0 <= i < j < origin.len() ==> (#[trigger] origin[i]) != (#[trigger] origin[j])
    &&& forall|i: int, j: int|
        0 <= i < j < origin.len() && listed_before(sorted[j], sorted[i]) ==> (#[trigger] origin[i])
            < (#[trigger] origin[j])
}

/// Puts the files of a folder listing in order: by the bytes of their
/// keys, smallest first, files with the same key in the order they came
/// in. The result holds the same files, each as often.
pub fn sort_files(files: Vec<FileEntry>) -> (sorted: Vec<FileEntry>)
    ensures
        sorted@.to_multiset() == files@.to_multiset(),
        in_listing_order(sorted@),
        exists|origin: Seq<int>| is_stable_arrangement(files@, sorted@, origin),
{
    broadcast use vstd::seq_lib::group_to_multiset_ensures;

    let mut rest = files;
    let mut keys: Vec<Vec<u8>> = Vec::new();
    let mut k: usize = 0;
    while k < rest.len()
        invariant
            k <= rest.len(),
            rest == files,
            keys.len() == k,
            forall|i: int| 0 <= i < k ==> (#[trigger] keys[i])@ == encode_utf8(sort_key(rest[i])),
        decreases rest.len() - k,
    {
        keys.push(sort_key_bytes(&rest[k]));
        k += 1;
    }
    let mut sorted: Vec<FileEntry> = Vec::new();
    let ghost mut rest_origin: Seq<int> = Seq::new(files@.len(), |i: int| i);
    let ghost mut sorted_origin: Seq<int> = Seq::empty();
    assert(sorted@.to_multiset().add(rest@.to_multiset()) =~= files@.to_multiset());
    while rest.len() > 0
        invariant
            keys.len() == rest.len(),
            forall|i: int|
                0 <= i < rest.len() ==> (#[trigger] keys[i])@ == encode_utf8(sort_key(rest[i])),
            sorted@.to_multiset().add(rest@.to_multiset()) == files@.to_multiset(),
            in_listing_order(sorted@),
            forall|i: int, j: int|
                0 <= i < sorted.len() && 0 <= j < rest.len() ==> listed_before(
                    #[trigger] sorted[i],
                    #[trigger] rest[j],
                ),
            sorted.len() + rest.len() == files.len(),
            rest_origin.len() == rest.len(),
            sorted_origin.len() == sorted.len(),
            forall|i: int|
                0 <= i < rest.len() ==> 0 <= (#[trigger] rest_origin[i]) < files.len() && rest[i]
                    == files[rest_origin[i]],
            forall|i: int, j: int|
                0 <= i < j < rest.len() ==> (#[trigger] rest_origin[i]) < (
                #[trigger] rest_origin[j]),
            forall|i: int|
                0 <= i < sorted.len() ==> 0 <= (#[trigger] sorted_origin[i]) < files.len()
                    && sorted[i] == files[sorted_origin[i]],
            forall|i: int, j: int|
                0 <= i < j < sorted.len() ==> (#[trigger] sorted_origin[i]) != (
                #[trigger] sorted_origin[j]),
            forall|i: int, j: int|
                0 <= i < sorted.len() && 0 <= j < rest.len() ==> (#[trigger] sorted_origin[i]) != (
                #[trigger] rest_origin[j]),
            forall|i: int, j: int|
                0 <= i < j < sorted.len() && listed_before(sorted[j], sorted[i]) ==> (
                #[trigger] sorted_origin[i]) < (#[trigger] sorted_origin[j]),
            forall|i: int, j: int|
                0 <= i < sorted.len() && 0 <= j < rest.len() && listed_before(rest[j], sorted[i])
                    ==> (#[trigger] sorted_origin[i]) < (#[trigger] rest_origin[j]),
        decreases rest.len(),
    {
        let mut best: usize = 0;
        let mut j: usize = 1;
        proof {
            lemma_bytes_le_total(keys[0]@, keys[0]@);
        }
        while j < rest.len()
            invariant
                1 <= j <= rest.len(),
                best < j,
                keys.len() == rest.len(),
                forall|i: int| 0 <= i < j ==> bytes_le(keys[best as int]@, (#[trigger] keys[i])@),
                forall|i: int|
                    0 <= i < best ==> !bytes_le((#[trigger] keys[i])@, keys[best as int]@),
            decreases rest.len() - j,
        {
            if !bytes_less_or_equal(&keys[best], &keys[j]) {
                proof {
                    lemma_bytes_le_total(keys[best as int]@, keys[j as int]@);
                    lemma_bytes_le_total(keys[j as int]@, keys[j as int]@);
                    assert forall|i: int| 0 <= i < j implies bytes_le(
                        keys[j as int]@,
                        (#[trigger] keys[i])@,
                    ) by {
                        lemma_bytes_le_transitive(keys[j as int]@, keys[best as int]@, keys[i]@);
                    }
                    assert forall|i: int| 0 <= i < j implies !bytes_le(
                        (#[trigger] keys[i])@,
                        keys[j as int]@,
                    ) by {
                        if bytes_le(keys[i]@, keys[j as int]@) {
                            lemma_bytes_le_transitive(
                                keys[best as int]@,
                                keys[i]@,
                                keys[j as int]@,
                            );
                        }
                    }
                }
                best = j;
            }
            j += 1;
        }
        let ghost rest_before = rest@;
        let ghost keys_before = keys@;
        let ghost sorted_before = sorted@;
        let ghost rest_origin_before = rest_origin;
        let ghost sorted_origin_before = sorted_origin;
        let _ = keys.remove(best);
        let smallest = rest.remove(best);
        sorted.push(smallest);
        proof {
            rest_origin = rest_origin_before.remove(best as int);
            sorted_origin = sorted_origin_before.push(rest_origin_before[best as int]);
            assert(rest_before.to_multiset() == rest@.to_multiset().insert(smallest)) by {
                assert(rest_before =~= rest@.insert(best as int, smallest));
                vstd::seq_lib::to_multiset_insert(rest@, best as int, smallest);
            }
            assert(sorted@.to_multiset() == sorted_before.to_multiset().insert(smallest)) by {
                assert(sorted@ =~= sorted_before.push(smallest));
                vstd::seq_lib::to_multiset_build(sorted_before, smallest);
            }
            assert(sorted@.to_multiset().add(rest@.to_multiset()) =~= sorted_before.to_multiset().add(
                rest_before.to_multiset(),
            ));
            assert forall|i: int, j: int| 0 <= i < j < sorted.len() implies listed_before(
                sorted[i],
                sorted[j],
            ) by {
                if j == sorted.len() - 1 {
                    assert(sorted[i] == sorted_before[i]);
                    assert(smallest == rest_before[best as int]);
                } else {
                    assert(sorted[i] == sorted_before[i]);
                    assert(sorted[j] == sorted_before[j]);
                }
            }
            assert forall|i: int, j: int|
                0 <= i < sorted.len() && 0 <= j < rest.len() implies listed_before(
                #[trigger] sorted[i],
                #[trigger] rest[j],
            ) by {
                let jj = if j < best {
                    j
                } else {
                    j + 1
                };
                assert(rest[j] == rest_before[jj]);
                if i == sorted.len() - 1 {
                    assert(sorted[i] == rest_before[best as int]);
                    assert(keys_before[best as int]@ == encode_utf8(
                        sort_key(rest_before[best as int]),
                    ));
                    assert(keys_before[jj]@ == encode_utf8(sort_key(rest_before[jj])));
                    assert(bytes_le(keys_before[best as int]@, keys_before[jj]@));
                } else {
                    assert(sorted[i] == sorted_before[i]);
                }
            }
            assert forall|i: int| 0 <= i < rest.len() implies 0 <= (#[trigger] rest_origin[i])
                < files.len() && rest[i] == files[rest_origin[i]] by {
                let ii = if i < best {
                    i
                } else {
                    i + 1
                };
                assert(rest[i] == rest_before[ii]);
                assert(rest_origin[i] == rest_origin_before[ii]);
            }
            assert forall|i: int, j: int| 0 <= i < j < rest.len() implies (
            #[trigger] rest_origin[i]) < (#[trigger] rest_origin[j]) by {
                let ii = if i < best {
                    i
                } else {
                    i + 1
                };
                let jj = if j < best {
                    j
                } else {
                    j + 1
                };
                assert(rest_origin[i] == rest_origin_before[ii]);
                assert(rest_origin[j] == rest_origin_before[jj]);
            }
            assert forall|i: int| 0 <= i < sorted.len() implies 0 <= (#[trigger] sorted_origin[i])
                < files.len() && sorted[i] == files[sorted_origin[i]] by {
                if i < sorted_before.len() {
                    assert(sorted[i] == sorted_before[i]);
                    assert(sorted_origin[i] == sorted_origin_before[i]);
                } else {
                    assert(sorted[i] == rest_before[best as int]);
                    assert(sorted_origin[i] == rest_origin_before[best as int]);
                }
            }
            assert forall|i: int, j: int| 0 <= i < j < sorted.len() implies (
            #[trigger] sorted_origin[i]) != (#[trigger] sorted_origin[j]) by {
                assert(sorted_origin[i] == sorted_origin_before[i]);
                if j < sorted_before.len() {
                    assert(sorted_origin[j] == sorted_origin_before[j]);
                } else {
                    assert(sorted_origin[j] == rest_origin_before[best as int]);
                }
            }
            assert forall|i: int, j: int|
                0 <= i < sorted.len() && 0 <= j < rest.len() implies (#[trigger] sorted_origin[i])
                != (#[trigger] rest_origin[j]) by {
                let jj = if j < best {
                    j
                } else {
                    j + 1
                };
                assert(rest_origin[j] == rest_origin_before[jj]);
                if i < sorted_before.len() {
                    assert(sorted_origin[i] == sorted_origin_before[i]);
                } else {
                    assert(sorted_origin[i] == rest_origin_before[best as int]);
                }
            }
            assert forall|i: int, j: int|
                0 <= i < j < sorted.len() && listed_before(sorted[j], sorted[i]) implies (
            #[trigger] sorted_origin[i]) < (#[trigger] sorted_origin[j]) by {
                assert(sorted[i] == sorted_before[i]);
                assert(sorted_origin[i] == sorted_origin_before[i]);
                if j < sorted_before.len() {
                    assert(sorted[j] == sorted_before[j]);
                    assert(sorted_origin[j] == sorted_origin_before[j]);
                } else {
                    assert(sorted[j] == rest_before[best as int]);
                    assert(sorted_origin[j] == rest_origin_before[best as int]);
                }
            }
            assert forall|i: int, j: int|
                0 <= i < sorted.len() && 0 <= j < rest.len() && listed_before(
                    rest[j],
                    sorted[i],
                ) implies (#[trigger] sorted_origin[i]) < (#[trigger] rest_origin[j]) by {
                let jj = if j < best {
                    j
                } else {
                    j + 1
                };
                assert(rest[j] == rest_before[jj]);
                assert(rest_origin[j] == rest_origin_before[jj]);
                if i < sorted_before.len() {
                    assert(sorted[i] == sorted_before[i]);
                    assert(sorted_origin[i] == sorted_origin_before[i]);
                } else {
                    assert(sorted[i] == rest_before[best as int]);
                    assert(sorted_origin[i] == rest_origin_before[best as int]);
                    assert(keys_before[best as int]@ == encode_utf8(
                        sort_key(rest_before[best as int]),
                    ));
                    assert(keys_before[jj]@ == encode_utf8(sort_key(rest_before[jj])));
                    if jj < best {
                        assert(!bytes_le(keys_before[jj]@, keys_before[best as int]@));
                    }
                }
            }
        }
    }
    assert(rest@ =~= Seq::<FileEntry>::empty());
    assert(sorted@.to_multiset().add(rest@.to_multiset()) =~= sorted@.to_multiset());
    assert(is_stable_arrangement(files@, sorted@, sorted_origin));
    sorted
}

/// One entry of a folder listing, as it was read: what kind of thing it
/// is, whether its content type is audio, how many folders below the
/// listed folder it lies (zero for the folder's own entries), and its names.
#[derive(Debug)]
pub struct ListedEntry {
    pub kind: EntryKind,
    pub is_audio: bool,
    pub depth: u32,
    pub file: FileEntry,
}

/// Whether an entry of a listing is a file to queue: a regular file of an
/// audio type, among the folder's own entries or, in a recursive listing,
/// anywhere below it.
pub open spec fn is_listed_file(e: ListedEntry, recursive: bool) -> bool {
    action_for(e.kind, e.is_audio, recursive) == EntryAction::Take && (e.depth == 0 || recursive)
}

/// The files to queue of a listing, in the order of the listing.
pub open spec fn listed_files(entries: Seq<ListedEntry>, recursive: bool) -> Seq<FileEntry>
    decreases entries.len(),
{
    if entries.len() == 0 {
        Seq::<FileEntry>::empty()
    } else {
        let earlier = listed_files(entries.drop_last(), recursive);
        if is_listed_file(entries.last(), recursive) {
            earlier.push(entries.last().file)
        } else {
            earlier
        }
    }
}

/// Picks the files to queue out of a listing, in the order of the listing.
pub fn select_files(entries: &Vec<ListedEntry>, recursive: bool) -> (files: Vec<FileEntry>)
    ensures
        files@ == listed_files(entries@, recursive),
{
    let mut files: Vec<FileEntry> = Vec::new();
    let mut i: usize = 0;
    assert(entries@.subrange(0, 0) =~= Seq::<ListedEntry>::empty());
    while i < entries.len()
        invariant
            i <= entries.len(),
            files@ == listed_files(entries@.subrange(0, i as int), recursive),
        decreases entries.len() - i,
    {
        let entry = &entries[i];
        proof {
            let longer = entries@.subrange(0, i + 1);
            assert(longer.drop_last() =~= entries@.subrange(0, i as int));
            assert(longer.last() == entries[i as int]);
        }
        let take = match entry_action(entry.kind, entry.is_audio, recursive) {
            EntryAction::Take => entry.depth == 0 || recursive,
            _ => false,
        };
        if take {
            files.push(
                FileEntry {
                    parent: entry.file.parent.clone(),
                    name: entry.file.name.clone(),
                    uri: entry.file.uri.clone(),
                },
            );
        }
        i += 1;
    }
    assert(entries@.subrange(0, entries.len() as int) =~= entries@);
    files
}

/// The files to queue of a folder listing, in the order they are queued
/// in: exactly the regular files of an audio type among the folder's own
/// entries and, when the listing is recursive, below them, each as often
/// as the listing has it, ordered by the bytes of their keys with ties
/// left in the order of the listing.
pub fn load_files_from_folder(entries: &Vec<ListedEntry>, recursive: bool) -> (sorted: Vec<
    FileEntry,
>)
    ensures
        sorted@.to_multiset() == listed_files(entries@, recursive).to_multiset(),
        in_listing_order(sorted@),
        exists|origin: Seq<int>|
            is_stable_arrangement(listed_files(entries@, recursive), sorted@, origin),
{
    sort_files(select_files(entries, recursive))
}

/// Layout of the four bytes of a pixel in a downloaded texture, which
/// depends on the byte order of the machine.
#[derive(Clone, Copy, Debug, PartialEq, Eq, Structural)]
pub enum PixelFormat {
    /// Alpha, red, green, blue: big-endian machines.
    Argb,
    /// Blue, green, red, alpha: little-endian machines.
    Bgra,
}

/// How coarsely the pixels are sampled when a palette is extracted.
pub const PALETTE_QUALITY: u8 = 5;

/// The most colours a palette has.
pub const PALETTE_COLORS: u8 = 4;

/// The most bytes of pixels a palette is extracted from, for each step of
/// the sampling quality.
pub const PALETTE_BYTES_PER_STEP: usize = 0x800_0000;

/// The largest pixel buffer a palette is extracted from, in bytes.
pub const PALETTE_MAX_BYTES: usize = 0x2800_0000;

/// The representative colours of an image, dominant first, as the palette
/// extraction finds them, or nothing where it fails.
pub uninterp spec fn palette_of(pixels: Seq<u8>, argb: bool, quality: u8, max_colors: u8) -> Option<
    Seq<Rgb>,
>;

/// Extracts a palette with `color_thief::get_palette`, which quantizes the
/// sampled pixels by median cut and returns the average colour of each box.
/// The contract only gives the result its name: it is a function of the
/// pixels, their layout and the two settings alone. The outside function
/// asserts the ranges of the two settings. It takes one sample every
/// `4 * quality` pixels of four bytes, so the bound on the buffer holds
/// the samples to 2^23 and with them its thirty-two-bit sums in range.
#[verifier::external_body]
fn palette_colors(pixels: &Vec<u8>, format: PixelFormat, quality: u8, max_colors: u8) -> (r: Option<
    Vec<Rgb>,
>)
    requires
        1 <= quality <= 10,
        2 <= max_colors,
        pixels@.len() <= PALETTE_BYTES_PER_STEP * quality,
    ensures
        opt_palette(r) == palette_of(pixels@, format == PixelFormat::Argb, quality, max_colors),
{
    let color_format = match format {
        PixelFormat::Argb => ColorFormat::Argb,
        PixelFormat::Bgra => ColorFormat::Bgra,
    };
    match get_palette(pixels, color_format, quality, max_colors) {
        Ok(palette) => Some(palette.iter().map(|c| Rgb { r: c.r, g: c.g, b: c.b }).collect()),
        Err(_) => None,
    }
}

/// Extracts the colour palette of a cover from its pixels, four bytes
/// each. A buffer beyond the size limit has no palette.
pub fn load_palette(pixels: &Vec<u8>, format: PixelFormat) -> (r: Option<Vec<Rgb>>)
    ensures
        opt_palette(r) == if pixels@.len() <= PALETTE_MAX_BYTES {
            palette_of(pixels@, format == PixelFormat::Argb, PALETTE_QUALITY, PALETTE_COLORS)
        } else {
            None
        },
{
    if pixels.len() > PALETTE_MAX_BYTES {
        return None;
    }
    palette_colors(pixels, format, PALETTE_QUALITY, PALETTE_COLORS)
}

/// Picks the dominant colour out of an extracted palette.
pub fn dominant_color(palette: &Option<Vec<Rgb>>) -> (r: Option<Rgb>)
    ensures
        r == dominant(opt_palette(*palette)),
{
    match palette {
        Some(p) => if p.len() > 0 {
            Some(p[0])
        } else {
            None
        },
        None => None,
    }
}

/// Extracts the dominant colour of a cover from its pixels.
pub fn load_dominant_color(pixels: &Vec<u8>, format: PixelFormat) -> (r: Option<Rgb>)
    ensures
        r == dominant(
            if pixels@.len() <= PALETTE_MAX_BYTES {
                palette_of(pixels@, format == PixelFormat::Argb, PALETTE_QUALITY, PALETTE_COLORS)
            } else {
                None
            },
        ),
{
    let palette = load_palette(pixels, format);
    dominant_color(&palette)
}

} // verus!
