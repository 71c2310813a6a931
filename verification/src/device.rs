//! The device control adapter: what the daemon asks of the control files
//! that the kernel exposes, and what it is told in return.
//!
//! The library never touches a file. It names the next thing to do as a
//! [`DeviceRequest`]; whoever owns the files performs it and answers with a
//! [`DeviceReply`].

use vstd::prelude::*;

verus! {

/// One operation on the device control files.
#[derive(Clone, Debug, PartialEq, Eq)]
pub enum DeviceRequest {
    /// List, in expansion order, the paths that match a glob pattern. A
    /// path that cannot be read on the way is listed as such, in its place.
    Enumerate { pattern: String },
    /// Read the whole content of a file.
    Read { path: String },
    /// Write `value` to a file as a single whole-value write.
    Write { path: String, value: String },
}

/// A [`DeviceRequest`] over sequences of characters.
pub enum RequestView {
    Enumerate { pattern: Seq<char> },
    Read { path: Seq<char> },
    Write { path: Seq<char>, value: Seq<char> },
}

impl View for DeviceRequest {
    type V = RequestView;

    open spec fn view(&self) -> RequestView {
        match self {
            DeviceRequest::Enumerate { pattern } => RequestView::Enumerate { pattern: pattern@ },
            DeviceRequest::Read { path } => RequestView::Read { path: path@ },
            DeviceRequest::Write { path, value } => RequestView::Write {
                path: path@,
                value: value@,
            },
        }
    }
}

/// One entry of the answer to a listing.
#[derive(Clone, Debug, PartialEq, Eq)]
pub enum PathEntry {
    /// A path that matches the pattern.
    Found(String),
    /// A path that could not be read while the pattern was expanded.
    Unreadable(String),
}

/// A [`PathEntry`] over sequences of characters.
pub enum EntryView {
    Found(Seq<char>),
    Unreadable(Seq<char>),
}

impl View for PathEntry {
    type V = EntryView;

    open spec fn view(&self) -> EntryView {
        match self {
            PathEntry::Found(path) => EntryView::Found(path@),
            PathEntry::Unreadable(path) => EntryView::Unreadable(path@),
        }
    }
}

impl EntryView {
    /// The path that the entry is about.
    pub open spec fn path(self) -> Seq<char> {
        match self {
            EntryView::Found(path) => path,
            EntryView::Unreadable(path) => path,
        }
    }
}

/// The answer to a [`DeviceRequest`].
#[derive(Clone, Debug, PartialEq, Eq)]
pub enum DeviceReply {
    /// The entries of a listing, in expansion order.
    Paths(Vec<PathEntry>),
    /// The content of a file.
    Content(String),
    /// The write went through.
    Written,
    /// The operation failed.
    Failed,
}

/// A [`DeviceReply`] over sequences of characters.
pub enum ReplyView {
    Paths(Seq<EntryView>),
    Content(Seq<char>),
    Written,
    Failed,
}

/// The elements of `entries`, each by its view.
pub open spec fn entry_views(entries: Seq<PathEntry>) -> Seq<EntryView> {
    Seq::new(entries.len(), |i: int| entries[i]@)
}

/// The listing in which each of `paths` was found, in order.
pub open spec fn all_found(paths: Seq<Seq<char>>) -> Seq<EntryView> {
    Seq::new(paths.len(), |i: int| EntryView::Found(paths[i]))
}

/// The paths that the entries of a listing are about, in order.
pub open spec fn entry_paths(entries: Seq<EntryView>) -> Seq<Seq<char>> {
    Seq::new(entries.len(), |i: int| entries[i].path())
}

/// The path of the last entry of a listing that was found; `None` if none
/// was.
pub open spec fn last_found(entries: Seq<EntryView>) -> Option<Seq<char>>
    decreases entries.len(),
{
    if entries.len() == 0 {
        None
    } else {
        match entries.last() {
            EntryView::Found(path) => Some(path),
            EntryView::Unreadable(_) => last_found(entries.drop_last()),
        }
    }
}

impl View for DeviceReply {
    type V = ReplyView;

    open spec fn view(&self) -> ReplyView {
        match self {
            DeviceReply::Paths(entries) => ReplyView::Paths(entry_views(entries@)),
            DeviceReply::Content(content) => ReplyView::Content(content@),
            DeviceReply::Written => ReplyView::Written,
            DeviceReply::Failed => ReplyView::Failed,
        }
    }
}

/// The path of the entry `leaf` in the directory `dir`.
pub open spec fn joined(dir: Seq<char>, leaf: Seq<char>) -> Seq<char> {
    dir + seq!['/'] + leaf
}

/// The directory that holds `path`: what stands before its last `/`.
/// A path without `/` names no directory.
pub open spec fn directory_of(path: Seq<char>) -> Option<Seq<char>>
    decreases path.len(),
{
    if path.len() == 0 {
        None
    } else if path.last() == '/' {
        Some(path.drop_last())
    } else {
        directory_of(path.drop_last())
    }
}

/// The path of the entry `leaf` in the directory `dir`.
pub fn join_path(dir: &str, leaf: &str) -> (path: String)
    ensures
        path@ == joined(dir@, leaf@),
{
    proof {
        reveal_strlit("/");
    }
    let mut path = String::from_str(dir);
    path.append("/");
    path.append(leaf);
    assert(path@ =~= joined(dir@, leaf@));
    path
}

/// The path of the last entry of a listing that was found.
pub fn last_found_path(entries: &Vec<PathEntry>) -> (path: Option<String>)
    ensures
        path is Some <==> last_found(entry_views(entries@)) is Some,
        path matches Some(p) ==> p@ == last_found(entry_views(entries@))->0,
{
    let ghost all = entry_views(entries@);
    let mut end: usize = entries.len();
    assert(all.take(end as int) =~= all);
    while end > 0
        invariant
            end <= entries@.len(),
            all == entry_views(entries@),
            last_found(all) == last_found(all.take(end as int)),
        decreases end,
    {
        let ghost prefix = all.take(end as int);
        assert(prefix.last() == entries@[end - 1]@);
        assert(prefix.drop_last() =~= all.take(end - 1));
        match &entries[end - 1] {
            PathEntry::Found(path) => {
                return Some(path.clone());
            },
            PathEntry::Unreadable(_) => {},
        }
        end = end - 1;
    }
    assert(all.take(0).len() == 0);
    None
}

/// The directory that holds `path`, if `path` has a `/` in it.
pub fn parent_directory(path: &str) -> (dir: Option<String>)
    ensures
        dir is Some <==> directory_of(path@) is Some,
        dir matches Some(d) ==> d@ == directory_of(path@)->0,
{
    let len: usize = path.unicode_len();
    let mut end: usize = len;
    assert(path@.take(len as int) =~= path@);
    while end > 0
        invariant
            end <= len,
            len == path@.len(),
            directory_of(path@) == directory_of(path@.take(end as int)),
        decreases end,
    {
        let c = path.get_char(end - 1);
        let ghost prefix = path@.take(end as int);
        assert(prefix.last() == c);
        assert(prefix.drop_last() =~= path@.take(end - 1));
        if c == '/' {
            let dir = path.substring_char(0, end - 1);
            assert(dir@ =~= path@.take(end - 1));
            return Some(String::from_str(dir));
        }
        end = end - 1;
    }
    assert(path@.take(0).len() == 0);
    None
}

/// A file found in a directory is found again by joining the directory and
/// the file's name, as long as the name holds no `/`.
pub proof fn lemma_directory_of_joined(dir: Seq<char>, leaf: Seq<char>)
    requires
        forall|i: int| 0 <= i < leaf.len() ==> leaf[i] != '/',
    ensures
        directory_of(joined(dir, leaf)) == Some(dir),
    decreases leaf.len(),
{
    let path = joined(dir, leaf);
    if leaf.len() == 0 {
        assert(path.last() == '/');
        assert(path.drop_last() =~= dir);
    } else {
        assert(path.last() == leaf.last());
        assert(path.drop_last() =~= joined(dir, leaf.drop_last()));
        lemma_directory_of_joined(dir, leaf.drop_last());
    }
}

} // verus!
