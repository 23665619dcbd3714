//! What a directory shows: its visible sub-directories, decorated with the
//! directory marker, then its supported audio files, each part in order.

use vstd::prelude::*;
use vstd::string::*;
use crate::names::{
    decorate, decorated, has_marker, is_hidden, is_supported_file_name, is_supported_name,
    lemma_decorated_has_marker, lemma_marked_round_trip, parent_token, starts_with_dot,
    string_views, strip_marker, stripped,
};
use crate::order::{
    lemma_sorted_names_ascending, lemma_sorted_names_contains, lemma_sorted_names_mapped,
    lemma_sorted_names_permutation, names_ascending, sort_names, sorted_names,
};

verus! {

/// What kind of thing a directory entry is, links followed.
#[derive(Clone, Copy, Debug, PartialEq, Eq)]
pub enum EntryKind {
    Directory,
    File,
    Other,
}

/// One entry of a directory, as it was read: its name and its kind.
#[derive(Clone, Debug, PartialEq, Eq)]
pub struct DirEntry {
    pub name: String,
    pub kind: EntryKind,
}

/// A sub-directory is listed unless it is hidden.
pub open spec fn is_listed_directory(entry: DirEntry) -> bool {
    entry.kind is Directory && !is_hidden(entry.name@)
}

/// A file is listed when its name is not hidden and has a supported extension.
pub open spec fn is_listed_file(entry: DirEntry) -> bool {
    entry.kind is File && is_supported_name(entry.name@)
}

/// The display names of the listed sub-directories, in the order of the
/// entries.
pub open spec fn listed_directories(entries: Seq<DirEntry>) -> Seq<Seq<char>> {
    entries.filter(|e: DirEntry| is_listed_directory(e)).map_values(
        |e: DirEntry| decorated(e.name@),
    )
}

/// The names of the listed files, in the order of the entries.
pub open spec fn listed_files(entries: Seq<DirEntry>) -> Seq<Seq<char>> {
    entries.filter(|e: DirEntry| is_listed_file(e)).map_values(|e: DirEntry| e.name@)
}

/// The entry for the parent directory, where there is a parent.
pub open spec fn parent_part(has_parent: bool) -> Seq<Seq<char>> {
    if has_parent {
        seq![decorated(parent_token())]
    } else {
        Seq::empty()
    }
}

/// The directory part of a listing: the parent entry first, then the listed
/// sub-directories in ascending order.
pub open spec fn directory_part(entries: Seq<DirEntry>, has_parent: bool) -> Seq<Seq<char>> {
    parent_part(has_parent) + sorted_names(listed_directories(entries))
}

/// The file part of a listing: the listed files in ascending order.
pub open spec fn file_part(entries: Seq<DirEntry>) -> Seq<Seq<char>> {
    sorted_names(listed_files(entries))
}

/// No entry is listed twice: the two parts together are no longer than the
/// entries.
pub proof fn lemma_listed_counts(entries: Seq<DirEntry>)
    ensures
        listed_directories(entries).len() + listed_files(entries).len() <= entries.len(),
    decreases entries.len(),
{
    reveal(Seq::filter);
    if entries.len() > 0 {
        lemma_listed_counts(entries.drop_last());
    }
}

/// Every listed sub-directory carries the marker.
pub proof fn lemma_listed_directories_marked(entries: Seq<DirEntry>)
    ensures
        forall|i: int|
            0 <= i < listed_directories(entries).len() ==> has_marker(
                #[trigger] listed_directories(entries)[i],
            ),
{
    assert forall|i: int| 0 <= i < listed_directories(entries).len() implies has_marker(
        #[trigger] listed_directories(entries)[i],
    ) by {
        let e = entries.filter(|e: DirEntry| is_listed_directory(e))[i];
        assert(listed_directories(entries)[i] == decorated(e.name@));
        lemma_decorated_has_marker(e.name@);
    }
}

/// The display names of the sub-directories of a directory, the parent entry
/// first where there is a parent, the others in the order of the entries.
pub fn get_directories_in_dir(entries: &Vec<DirEntry>, has_parent: bool) -> (names: Vec<String>)
    ensures
        string_views(names@) == parent_part(has_parent) + listed_directories(entries@),
{
    let mut names: Vec<String> = Vec::new();
    if has_parent {
        names.push(decorate(".."));
    }
    assert(entries@.take(0).filter(|e: DirEntry| is_listed_directory(e)) =~= Seq::empty()) by {
        reveal(Seq::filter);
    }
    assert(string_views(names@) =~= parent_part(has_parent) + listed_directories(
        entries@.take(0),
    ));
    let n = entries.len();
    let mut i: usize = 0;
    while i < n
        invariant
            i <= n,
            n == entries.len(),
            string_views(names@) == parent_part(has_parent) + listed_directories(
                entries@.take(i as int),
            ),
        decreases n - i,
    {
        let ghost earlier = names@;
        let listed = match entries[i].kind {
            EntryKind::Directory => !starts_with_dot(entries[i].name.as_str()),
            _ => false,
        };
        if listed {
            names.push(decorate(entries[i].name.as_str()));
        }
        proof {
            reveal(Seq::filter);
            let next = entries@.take(i + 1);
            assert(next.drop_last() =~= entries@.take(i as int));
            assert(next.last() == entries@[i as int]);
            if listed {
                assert(string_views(names@) =~= string_views(earlier).push(
                    decorated(entries@[i as int].name@),
                ));
            }
            assert(string_views(names@) =~= parent_part(has_parent) + listed_directories(next));
        }
        i += 1;
    }
    assert(entries@.take(n as int) =~= entries@);
    names
}

/// The entries of a directory that are supported audio files, in their order.
pub fn get_supported_files_in_dir(entries: &Vec<DirEntry>) -> (files: Vec<DirEntry>)
    ensures
        files@ == entries@.filter(|e: DirEntry| is_listed_file(e)),
{
    let mut files: Vec<DirEntry> = Vec::new();
    assert(files@ =~= entries@.take(0).filter(|e: DirEntry| is_listed_file(e))) by {
        reveal(Seq::filter);
    }
    let n = entries.len();
    let mut i: usize = 0;
    while i < n
        invariant
            i <= n,
            n == entries.len(),
            files@ == entries@.take(i as int).filter(|e: DirEntry| is_listed_file(e)),
        decreases n - i,
    {
        let listed = match entries[i].kind {
            EntryKind::File => is_supported_file_name(entries[i].name.as_str()),
            _ => false,
        };
        if listed {
            files.push(DirEntry { name: entries[i].name.clone(), kind: EntryKind::File });
        }
        proof {
            reveal(Seq::filter);
            let next = entries@.take(i + 1);
            assert(next.drop_last() =~= entries@.take(i as int));
            assert(next.last() == entries@[i as int]);
        }
        i += 1;
    }
    assert(entries@.take(n as int) =~= entries@);
    files
}

/// The names of the supported audio files of a directory, in the order of
/// the entries.
pub fn get_supported_filenames_in_dir(entries: &Vec<DirEntry>) -> (names: Vec<String>)
    ensures
        string_views(names@) == listed_files(entries@),
{
    let files = get_supported_files_in_dir(entries);
    let n = files.len();
    let mut names: Vec<String> = Vec::new();
    let mut i: usize = 0;
    while i < n
        invariant
            i <= n,
            n == files.len(),
            names.len() == i,
            files@ == entries@.filter(|e: DirEntry| is_listed_file(e)),
            string_views(names@) == listed_files(entries@).take(i as int),
        decreases n - i,
    {
        names.push(files[i].name.clone());
        assert(string_views(names@) =~= listed_files(entries@).take(i + 1));
        i += 1;
    }
    assert(listed_files(entries@).take(n as int) =~= listed_files(entries@));
    names
}

/// Every element that a filter keeps is an element of the sequence and
/// satisfies the predicate.
proof fn lemma_filter_member(entries: Seq<DirEntry>, pred: spec_fn(DirEntry) -> bool, i: int)
    requires
        0 <= i < entries.filter(pred).len(),
    ensures
        pred(entries.filter(pred)[i]),
        exists|k: int| 0 <= k < entries.len() && entries[k] == entries.filter(pred)[i],
    decreases entries.len(),
{
    reveal(Seq::filter);
    if entries.len() > 0 {
        let front = entries.drop_last();
        if i < front.filter(pred).len() {
            lemma_filter_member(front, pred, i);
            let k = choose|k: int| 0 <= k < front.len() && front[k] == front.filter(pred)[i];
            assert(entries[k] == entries.filter(pred)[i]);
        } else {
            assert(entries[entries.len() - 1] == entries.filter(pred)[i]);
        }
    }
}

/// The listing of one directory: the display names of its sub-directories,
/// then the names of its audio files.
pub struct DirectoryListing {
    directory_names: Vec<String>,
    file_names: Vec<String>,
    has_parent: bool,
}

impl DirectoryListing {
    /// The display names of the directories, the parent entry included.
    pub closed spec fn dirs(&self) -> Seq<Seq<char>> {
        string_views(self.directory_names@)
    }

    /// The names of the files.
    pub closed spec fn files(&self) -> Seq<Seq<char>> {
        string_views(self.file_names@)
    }

    /// Whether the first directory entry stands for the parent directory.
    pub closed spec fn parent_shown(&self) -> bool {
        self.has_parent
    }

    /// The combined list: the directories, then the files.
    pub open spec fn combined(&self) -> Seq<Seq<char>> {
        self.dirs() + self.files()
    }

    /// The number of entries of the combined list.
    pub open spec fn count(&self) -> nat {
        self.dirs().len() + self.files().len()
    }

    /// The directories without the parent entry.
    pub open spec fn sub_directories(&self) -> Seq<Seq<char>> {
        self.dirs().skip(
            if self.parent_shown() {
                1
            } else {
                0
            },
        )
    }

    /// What holds of every listing: each directory carries the marker, the
    /// parent entry comes first, both parts are in ascending order, and the
    /// entries can be counted.
    pub open spec fn wf(&self) -> bool {
        &&& forall|i: int| 0 <= i < self.dirs().len() ==> has_marker(#[trigger] self.dirs()[i])
        &&& self.parent_shown() ==> self.dirs().len() > 0 && self.dirs()[0] == decorated(
            parent_token(),
        )
        &&& names_ascending(self.sub_directories())
        &&& names_ascending(self.files())
        &&& self.count() <= usize::MAX
    }

    /// The real name behind an entry of the combined list: a directory's
    /// display name without the marker, a file's name as it is.
    pub open spec fn resolved(&self, index: int) -> Seq<char> {
        if index < self.dirs().len() {
            stripped(self.dirs()[index])
        } else {
            self.files()[index - self.dirs().len()]
        }
    }

    /// A listing without entries.
    pub fn empty() -> (listing: Self)
        ensures
            listing.wf(),
            listing.dirs() == Seq::<Seq<char>>::empty(),
            listing.files() == Seq::<Seq<char>>::empty(),
            !listing.parent_shown(),
    {
        let listing = DirectoryListing {
            directory_names: Vec::new(),
            file_names: Vec::new(),
            has_parent: false,
        };
        assert(listing.dirs() =~= Seq::<Seq<char>>::empty());
        assert(listing.files() =~= Seq::<Seq<char>>::empty());
        listing
    }

    /// Lists a directory from its entries: the parent entry first where there
    /// is a parent, then the visible sub-directories, then the supported audio
    /// files, each of the two in ascending order of the lower-case names.
    pub fn list_directories_and_files(entries: &Vec<DirEntry>, has_parent: bool) -> (listing: Self)
        requires
            entries.len() < usize::MAX,
        ensures
            listing.wf(),
            listing.dirs() == directory_part(entries@, has_parent),
            listing.files() == file_part(entries@),
            listing.parent_shown() == has_parent,
    {
        let mut sorted_directories = sort_names(&get_directories_in_dir(entries, false));
        let mut directory_names: Vec<String> = Vec::new();
        if has_parent {
            directory_names.push(decorate(".."));
        }
        let ghost parent = directory_names@;
        directory_names.append(&mut sorted_directories);
        let file_names = sort_names(&get_supported_filenames_in_dir(entries));
        let listing = DirectoryListing { directory_names, file_names, has_parent };
        proof {
            let shown = listed_directories(entries@);
            assert(parent_part(false) + shown =~= shown);
            assert(string_views(parent) =~= parent_part(has_parent));
            assert(listing.dirs() =~= directory_part(entries@, has_parent));
            lemma_listing_wf(entries@, has_parent);
        }
        listing
    }

    /// The display names of the directories.
    pub fn directory_names(&self) -> (names: &Vec<String>)
        ensures
            string_views(names@) == self.dirs(),
    {
        &self.directory_names
    }

    /// The names of the files.
    pub fn file_names(&self) -> (names: &Vec<String>)
        ensures
            string_views(names@) == self.files(),
    {
        &self.file_names
    }

    /// Whether the listing starts with the entry for the parent directory.
    pub fn has_parent(&self) -> (shown: bool)
        ensures
            shown == self.parent_shown(),
    {
        self.has_parent
    }

    /// The number of directory entries.
    pub fn dir_count(&self) -> (n: usize)
        ensures
            n == self.dirs().len(),
    {
        self.directory_names.len()
    }

    /// The number of file entries.
    pub fn file_count(&self) -> (n: usize)
        ensures
            n == self.files().len(),
    {
        self.file_names.len()
    }

    /// The number of entries of the combined list.
    pub fn total_count(&self) -> (n: usize)
        requires
            self.wf(),
        ensures
            n == self.count(),
    {
        self.directory_names.len() + self.file_names.len()
    }

    /// The combined list: the directories, then the files.
    pub fn combined_names(&self) -> (names: Vec<String>)
        ensures
            string_views(names@) == self.combined(),
    {
        let mut names: Vec<String> = Vec::new();
        let mut i: usize = 0;
        while i < self.directory_names.len()
            invariant
                i <= self.directory_names.len(),
                names.len() == i,
                string_views(names@) == self.dirs().take(i as int),
            decreases self.directory_names.len() - i,
        {
            names.push(self.directory_names[i].clone());
            assert(string_views(names@) =~= self.dirs().take(i + 1));
            i += 1;
        }
        assert(self.dirs().take(i as int) =~= self.dirs());
        let mut j: usize = 0;
        while j < self.file_names.len()
            invariant
                j <= self.file_names.len(),
                names.len() == self.directory_names.len() + j,
                string_views(names@) == self.dirs() + self.files().take(j as int),
            decreases self.file_names.len() - j,
        {
            let ghost earlier = names@;
            names.push(self.file_names[j].clone());
            proof {
                let d = self.dirs().len() as int;
                let wanted = self.dirs() + self.files().take(j + 1);
                assert forall|k: int| 0 <= k < d + j + 1 implies string_views(names@)[k]
                    == wanted[k] by {
                    if k < d + j {
                        assert(string_views(earlier)[k] == (self.dirs() + self.files().take(
                            j as int,
                        ))[k]);
                    } else {
                        assert(names@[k] == self.file_names@[j as int]);
                        assert(self.files()[j as int] == self.file_names@[j as int]@);
                    }
                }
                assert(string_views(names@) =~= wanted);
            }
            j += 1;
        }
        assert(self.files().take(j as int) =~= self.files());
        names
    }

    /// The real name behind an entry of the combined list.
    pub fn resolve_name(&self, index: usize) -> (name: String)
        requires
            self.wf(),
            index < self.count(),
        ensures
            name@ == self.resolved(index as int),
    {
        if index < self.directory_names.len() {
            assert(has_marker(self.dirs()[index as int]));
            strip_marker(self.directory_names[index].as_str())
        } else {
            self.file_names[index - self.directory_names.len()].clone()
        }
    }
}

/// What is listed from the entries of a directory is a listing: marked,
/// ordered and countable.
proof fn lemma_listing_wf(entries: Seq<DirEntry>, has_parent: bool)
    requires
        entries.len() < usize::MAX,
    ensures
        forall|i: int|
            0 <= i < directory_part(entries, has_parent).len() ==> has_marker(
                #[trigger] directory_part(entries, has_parent)[i],
            ),
        has_parent ==> directory_part(entries, has_parent).len() > 0 && directory_part(
            entries,
            has_parent,
        )[0] == decorated(parent_token()),
        names_ascending(
            directory_part(entries, has_parent).skip(
                if has_parent {
                    1
                } else {
                    0
                },
            ),
        ),
        names_ascending(file_part(entries)),
        directory_part(entries, has_parent).len() + file_part(entries).len() <= usize::MAX,
{
    let shown = listed_directories(entries);
    let offset: int = if has_parent {
        1
    } else {
        0
    };
    lemma_listing_holds_what_is_visible(entries, has_parent);
    lemma_sorted_names_permutation(shown);
    lemma_sorted_names_permutation(listed_files(entries));
    lemma_sorted_names_ascending(shown);
    lemma_sorted_names_ascending(listed_files(entries));
    lemma_listed_counts(entries);
    assert(directory_part(entries, has_parent).skip(offset) =~= sorted_names(shown));
}

/// The names of the visible sub-directories among the entries, in the order
/// of the entries.
pub open spec fn visible_directory_names(entries: Seq<DirEntry>) -> Seq<Seq<char>> {
    entries.filter(|e: DirEntry| is_listed_directory(e)).map_values(|e: DirEntry| e.name@)
}

/// Display names without their markers.
pub open spec fn stripped_names(displays: Seq<Seq<char>>) -> Seq<Seq<char>> {
    displays.map_values(|display: Seq<char>| stripped(display))
}

/// The directory part of a listing holds the visible sub-directories and
/// nothing else: every entry carries the marker, the entry for the parent
/// comes first where there is a parent, and the other entries, without
/// their markers, are the names of the visible sub-directories among the
/// entries of the directory, each as often as it occurs there. The file part
/// holds the names of the supported files in the same way.
pub proof fn lemma_listing_holds_what_is_visible(entries: Seq<DirEntry>, has_parent: bool)
    ensures
        forall|i: int|
            0 <= i < directory_part(entries, has_parent).len() ==> has_marker(
                #[trigger] directory_part(entries, has_parent)[i],
            ),
        has_parent ==> directory_part(entries, has_parent).len() > 0 && directory_part(
            entries,
            has_parent,
        )[0] == decorated(parent_token()),
        stripped_names(
            directory_part(entries, has_parent).skip(
                if has_parent {
                    1
                } else {
                    0
                },
            ),
        ).to_multiset() == visible_directory_names(entries).to_multiset(),
        file_part(entries).to_multiset() == listed_files(entries).to_multiset(),
{
    let shown = listed_directories(entries);
    let sorted = sorted_names(shown);
    let dirs = directory_part(entries, has_parent);
    let offset: int = if has_parent {
        1
    } else {
        0
    };
    let strip = |display: Seq<char>| stripped(display);
    lemma_sorted_names_permutation(shown);
    lemma_sorted_names_permutation(listed_files(entries));
    lemma_listed_directories_marked(entries);
    lemma_decorated_has_marker(parent_token());
    assert(dirs.skip(offset) =~= sorted);
    assert forall|i: int| 0 <= i < dirs.len() implies has_marker(#[trigger] dirs[i]) by {
        if i >= offset {
            let name = sorted[i - offset];
            assert(sorted.contains(name));
            lemma_sorted_names_contains(shown, name);
            let k = choose|k: int| 0 <= k < shown.len() && shown[k] == name;
            assert(has_marker(shown[k]));
        }
    }
    lemma_sorted_names_mapped(shown, strip);
    assert(shown.map_values(strip) =~= visible_directory_names(entries)) by {
        let kept = entries.filter(|e: DirEntry| is_listed_directory(e));
        assert forall|i: int| 0 <= i < kept.len() implies shown.map_values(strip)[i]
            == visible_directory_names(entries)[i] by {
            lemma_decorated_has_marker(kept[i].name@);
        }
    }
}

/// In a listing, stripping the marker from a directory entry gives the name
/// that is resolved for its index, and decorating that name gives the entry
/// back; the entry for the parent resolves to the name of the parent.
pub proof fn lemma_resolved_round_trip(listing: DirectoryListing, i: int)
    requires
        listing.wf(),
        0 <= i < listing.dirs().len(),
    ensures
        listing.resolved(i) == stripped(listing.dirs()[i]),
        decorated(listing.resolved(i)) == listing.dirs()[i],
        listing.parent_shown() && i == 0 ==> listing.resolved(i) == parent_token(),
{
    lemma_marked_round_trip(listing.dirs()[i]);
    if listing.parent_shown() && i == 0 {
        lemma_decorated_has_marker(parent_token());
    }
}

/// Every directory entry but the one for the parent is the decorated name of
/// a visible sub-directory among the entries; stripping its marker gives that
/// name, and decorating the name again gives the entry.
pub proof fn lemma_directory_names_round_trip(entries: Seq<DirEntry>, has_parent: bool, i: int)
    requires
        0 <= i < directory_part(entries, has_parent).len(),
        !(has_parent && i == 0),
    ensures
        decorated(stripped(directory_part(entries, has_parent)[i])) == directory_part(
            entries,
            has_parent,
        )[i],
        exists|k: int|
            0 <= k < entries.len() && is_listed_directory(#[trigger] entries[k])
                && entries[k].name@ == stripped(directory_part(entries, has_parent)[i]),
{
    let shown = listed_directories(entries);
    let sorted = sorted_names(shown);
    let offset: int = if has_parent {
        1
    } else {
        0
    };
    let name = directory_part(entries, has_parent)[i];
    lemma_sorted_names_permutation(shown);
    assert(name == sorted[i - offset]);
    assert(sorted.contains(name));
    lemma_sorted_names_contains(shown, name);
    let m = choose|m: int| 0 <= m < shown.len() && shown[m] == name;
    let pred = |e: DirEntry| is_listed_directory(e);
    let kept = entries.filter(pred);
    assert(shown[m] == decorated(kept[m].name@));
    lemma_filter_member(entries, pred, m);
    lemma_decorated_has_marker(kept[m].name@);
    let k = choose|k: int| 0 <= k < entries.len() && entries[k] == kept[m];
    assert(is_listed_directory(entries[k]) && entries[k].name@ == stripped(name));
}

} // verus!
