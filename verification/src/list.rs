//! Listing a directory through the decode engine.
//!
//! The directory is resolved unless it is the root, its inode is checked for
//! being a directory, its names are enumerated, and for every name but `.` and
//! `..` the engine is asked to describe the inode. Size, kind, time and
//! permissions of an entry come from that description alone.

use vstd::prelude::*;
use crate::engine::{
    lookup, lookup_request, nearer, Child, ChildView, Reply, ReplyView, Request, RequestView,
    ROOT_INODE,
};
use crate::entry::{
    entry_from_stat, entry_of, is_pseudo_entry, is_pseudo_name, is_root, is_root_path, EntryView,
    FileMetadata,
};
use crate::error::RawFsError;

verus! {

/// Where a listing stands.
#[derive(Debug, Clone, Copy, PartialEq, Eq, Structural)]
pub enum ListPhase {
    /// The directory is being resolved.
    Resolving,
    /// The inode is being checked for being a directory.
    Checking,
    /// The names of the directory are being asked for.
    Listing,
    /// The inode of one name is being described.
    Describing,
    /// The listing has ended.
    Finished,
}

/// A listing in progress.
#[derive(Debug)]
pub struct ListDirectory {
    dir: String,
    phase: ListPhase,
    inode: u32,
    children: Vec<Child>,
    next: usize,
    entries: Vec<FileMetadata>,
}

/// What a [`ListDirectory`] holds.
pub struct ListState {
    /// The path of the directory.
    pub dir: Seq<char>,
    pub phase: ListPhase,
    /// The inode of the directory, once it is known.
    pub inode: u32,
    /// The names that the engine enumerated.
    pub children: Seq<ChildView>,
    /// The position in `children` of the name that is being described.
    pub next: int,
    /// The entries made so far.
    pub entries: Seq<EntryView>,
}

/// What a listing does next.
#[derive(Debug)]
pub enum ListStep {
    /// The engine is to perform this request.
    Ask(Request),
    /// The listing has ended with this result.
    Finished(Result<Vec<FileMetadata>, RawFsError>),
}

/// What a [`ListStep`] holds, with texts as sequences.
pub enum ListStepView {
    Ask(RequestView),
    Finished(Result<Seq<EntryView>, RawFsError>),
}

impl View for ListStep {
    type V = ListStepView;

    open spec fn view(&self) -> ListStepView {
        match self {
            ListStep::Ask(req) => ListStepView::Ask(req@),
            ListStep::Finished(Ok(entries)) => ListStepView::Finished(Ok(entries.deep_view())),
            ListStep::Finished(Err(e)) => ListStepView::Finished(Err(*e)),
        }
    }
}

/// The first position from `from` on whose name is a real entry, or the
/// length of `children` if there is none.
pub open spec fn next_listable(children: Seq<ChildView>, from: int) -> int
    decreases children.len() - from,
{
    if from < 0 || from >= children.len() {
        children.len() as int
    } else if is_pseudo_name(children[from].name) {
        next_listable(children, from + 1)
    } else {
        from
    }
}

/// No entry is named `.` or `..`.
pub open spec fn no_pseudo_entries(entries: Seq<EntryView>) -> bool {
    forall|i: int| 0 <= i < entries.len() ==> !is_pseudo_name(#[trigger] entries[i].name)
}

/// The name that is being described is a real entry, and so is every entry
/// made so far.
pub open spec fn list_wf(s: ListState) -> bool {
    &&& 0 <= s.next <= s.children.len()
    &&& s.phase == ListPhase::Describing ==> s.next < s.children.len() && !is_pseudo_name(
        s.children[s.next].name,
    )
    &&& no_pseudo_entries(s.entries)
}

/// How far a listing is from its end: the phases still to pass, and within
/// the last of them the names still to look at.
pub open spec fn list_distance(s: ListState) -> (nat, nat) {
    match s.phase {
        ListPhase::Resolving => (4, 0),
        ListPhase::Checking => (3, 0),
        ListPhase::Listing => (2, 0),
        ListPhase::Describing => (1, (s.children.len() - s.next) as nat),
        ListPhase::Finished => (0, 0),
    }
}

/// A state without names and entries.
pub open spec fn list_state(dir: Seq<char>, phase: ListPhase, inode: u32) -> ListState {
    ListState { dir, phase, inode, children: Seq::empty(), next: 0, entries: Seq::empty() }
}

/// The state in which the inode `inode` is checked for being a directory,
/// with the request for its description.
pub open spec fn list_check(dir: Seq<char>, inode: u32) -> (ListState, ListStepView) {
    (list_state(dir, ListPhase::Checking, inode), ListStepView::Ask(RequestView::Stat { inode }))
}

/// The state and the first request of a listing of `path`. The empty path and
/// `/` stand for the root directory, which needs no resolving.
pub open spec fn list_start(path: Seq<char>) -> (ListState, ListStepView) {
    if is_root(path) {
        list_check(path, ROOT_INODE)
    } else {
        (list_state(path, ListPhase::Resolving, 0), ListStepView::Ask(lookup(path)))
    }
}

/// The end of a listing with `result`.
pub open spec fn list_stop(s: ListState, result: Result<Seq<EntryView>, RawFsError>) -> (
    ListState,
    ListStepView,
) {
    (list_state(s.dir, ListPhase::Finished, s.inode), ListStepView::Finished(result))
}

/// The state in which the name at position `at` is described, or the end of
/// the listing if `at` is past the last name.
pub open spec fn list_describe(
    s: ListState,
    children: Seq<ChildView>,
    at: int,
    entries: Seq<EntryView>,
) -> (ListState, ListStepView) {
    if at >= children.len() {
        list_stop(s, Ok(entries))
    } else {
        (
            ListState {
                dir: s.dir,
                phase: ListPhase::Describing,
                inode: s.inode,
                children,
                next: at,
                entries,
            },
            ListStepView::Ask(RequestView::Stat { inode: children[at].inode }),
        )
    }
}

/// How a listing goes on after `reply`.
///
/// A path that leads nowhere, or to something that is no directory, ends the
/// listing with `PathNotFound`; names are asked for of a directory only. The
/// names `.` and `..` are passed over; every other name gets one entry, in the
/// order of the enumeration, made from the engine's description of its inode.
/// Any other reply, and any reply to a listing that has ended, ends it with
/// `IoError`.
pub open spec fn list_next(s: ListState, reply: ReplyView) -> (ListState, ListStepView) {
    match (s.phase, reply) {
        (ListPhase::Resolving, ReplyView::Inode(i)) => list_check(s.dir, i),
        (ListPhase::Resolving, ReplyView::NotFound) => list_stop(
            s,
            Err(RawFsError::PathNotFound),
        ),
        (ListPhase::Checking, ReplyView::Stat(stat)) => if stat.is_dir {
            (
                list_state(s.dir, ListPhase::Listing, s.inode),
                ListStepView::Ask(RequestView::ListChildren { inode: s.inode }),
            )
        } else {
            list_stop(s, Err(RawFsError::PathNotFound))
        },
        (ListPhase::Listing, ReplyView::Children(children)) => list_describe(
            s,
            children,
            next_listable(children, 0),
            Seq::empty(),
        ),
        (ListPhase::Describing, ReplyView::Stat(stat)) => list_describe(
            s,
            s.children,
            next_listable(s.children, s.next + 1),
            s.entries.push(entry_of(s.dir, s.children[s.next].name, stat)),
        ),
        _ => list_stop(s, Err(RawFsError::IoError)),
    }
}

/// The position that `next_listable` gives lies between `from` and the
/// length, and where it is a position its name is a real entry.
pub proof fn lemma_next_listable(children: Seq<ChildView>, from: int)
    requires
        0 <= from,
    ensures
        next_listable(children, from) <= children.len(),
        from <= children.len() ==> from <= next_listable(children, from),
        next_listable(children, from) < children.len() ==> !is_pseudo_name(
            children[next_listable(children, from)].name,
        ),
    decreases children.len() - from,
{
    if from < children.len() && is_pseudo_name(children[from].name) {
        lemma_next_listable(children, from + 1);
    }
}

impl View for ListDirectory {
    type V = ListState;

    closed spec fn view(&self) -> ListState {
        ListState {
            dir: self.dir@,
            phase: self.phase,
            inode: self.inode,
            children: self.children.deep_view(),
            next: self.next as int,
            entries: self.entries.deep_view(),
        }
    }
}

/// Finds the first real entry from `from` on.
fn skip_pseudo(children: &Vec<Child>, from: usize) -> (at: usize)
    requires
        from <= children.len(),
    ensures
        at == next_listable(children.deep_view(), from as int),
        from <= at <= children.len(),
{
    let mut at: usize = from;
    let ghost names = children.deep_view();
    while at < children.len() && is_pseudo_entry(children[at].name.as_str())
        invariant
            from <= at <= children.len(),
            names == children.deep_view(),
            next_listable(names, from as int) == next_listable(names, at as int),
        decreases children.len() - at,
    {
        proof {
            assert(names[at as int] == children@[at as int]@);
        }
        at += 1;
    }
    proof {
        if at < children.len() {
            assert(names[at as int] == children@[at as int]@);
        }
    }
    at
}

/// Begins to list the directory at `relative_path`: gives the listing and its
/// first request.
pub fn list_directory_raw(relative_path: &str) -> (begun: (ListDirectory, ListStep))
    ensures
        (begun.0@, begun.1@) == list_start(relative_path@),
        list_wf(begun.0@),
{
    if is_root_path(relative_path) {
        ListDirectory::check(relative_path.to_owned(), ROOT_INODE)
    } else {
        (
            ListDirectory::bare(relative_path.to_owned(), ListPhase::Resolving, 0),
            ListStep::Ask(lookup_request(relative_path)),
        )
    }
}

impl ListDirectory {
    #[verifier::type_invariant]
    closed spec fn inv(&self) -> bool {
        list_wf(self@)
    }

    /// Whether the listing has ended.
    pub fn is_finished(&self) -> (b: bool)
        ensures
            b == (self@.phase == ListPhase::Finished),
    {
        self.phase == ListPhase::Finished
    }

    /// A listing without names and entries.
    fn bare(dir: String, phase: ListPhase, inode: u32) -> (machine: ListDirectory)
        requires
            phase != ListPhase::Describing,
        ensures
            machine@ == list_state(dir@, phase, inode),
    {
        let machine = ListDirectory {
            dir,
            phase,
            inode,
            children: Vec::new(),
            next: 0,
            entries: Vec::new(),
        };
        proof {
            assert(machine.children.deep_view() =~= Seq::<ChildView>::empty());
            assert(machine.entries.deep_view() =~= Seq::<EntryView>::empty());
        }
        machine
    }

    /// A listing that checks `inode` for being a directory.
    fn check(dir: String, inode: u32) -> (next: (ListDirectory, ListStep))
        ensures
            (next.0@, next.1@) == list_check(dir@, inode),
            list_wf(next.0@),
    {
        (
            ListDirectory::bare(dir, ListPhase::Checking, inode),
            ListStep::Ask(Request::Stat { inode }),
        )
    }

    /// A listing that has ended with `result`.
    fn stop(self, result: Result<Vec<FileMetadata>, RawFsError>) -> (next: (
        ListDirectory,
        ListStep,
    ))
        requires
            result matches Ok(entries) ==> no_pseudo_entries(entries.deep_view()),
        ensures
            (next.0@, next.1@) == list_stop(
                self@,
                match result {
                    Ok(entries) => Ok(entries.deep_view()),
                    Err(e) => Err(e),
                },
            ),
            list_wf(next.0@),
    {
        let inode: u32 = self.inode;
        (
            ListDirectory::bare(self.dir, ListPhase::Finished, inode),
            ListStep::Finished(result),
        )
    }

    /// Goes on to describe the name at position `at`, or ends the listing if
    /// `at` is past the last name.
    fn describe(
        dir: String,
        inode: u32,
        children: Vec<Child>,
        at: usize,
        entries: Vec<FileMetadata>,
        Ghost(s): Ghost<ListState>,
    ) -> (next: (ListDirectory, ListStep))
        requires
            s.dir == dir@,
            s.inode == inode,
            at <= children.len(),
            at < children.len() ==> !is_pseudo_name(children.deep_view()[at as int].name),
            no_pseudo_entries(entries.deep_view()),
        ensures
            (next.0@, next.1@) == list_describe(
                s,
                children.deep_view(),
                at as int,
                entries.deep_view(),
            ),
            list_wf(next.0@),
    {
        if at >= children.len() {
            (
                ListDirectory::bare(dir, ListPhase::Finished, inode),
                ListStep::Finished(Ok(entries)),
            )
        } else {
            let child: u32 = children[at].inode;
            proof {
                assert(children.deep_view()[at as int] == children@[at as int]@);
            }
            (
                ListDirectory {
                    dir,
                    phase: ListPhase::Describing,
                    inode,
                    children,
                    next: at,
                    entries,
                },
                ListStep::Ask(Request::Stat { inode: child }),
            )
        }
    }

    /// Takes the engine's answer to the last request and decides how the
    /// listing goes on.
    ///
    /// Whatever the engine answers, a listing that ends well holds no entry
    /// named `.` or `..`.
    pub fn step(self, reply: Reply) -> (next: (ListDirectory, ListStep))
        ensures
            (next.0@, next.1@) == list_next(self@, reply@),
            list_wf(next.0@),
            next.1 matches ListStep::Finished(Ok(entries)) ==> no_pseudo_entries(
                entries.deep_view(),
            ),
            next.1 is Ask ==> next.0@.phase != ListPhase::Finished && nearer(
                list_distance(next.0@),
                list_distance(self@),
            ),
    {
        proof {
            use_type_invariant(&self);
        }
        let ghost s = self@;
        match (self.phase, reply) {
            (ListPhase::Resolving, Reply::Inode(i)) => ListDirectory::check(self.dir, i),
            (ListPhase::Resolving, Reply::NotFound) => self.stop(Err(RawFsError::PathNotFound)),
            (ListPhase::Checking, Reply::Stat(stat)) => {
                if stat.is_dir {
                    let inode: u32 = self.inode;
                    (
                        ListDirectory::bare(self.dir, ListPhase::Listing, inode),
                        ListStep::Ask(Request::ListChildren { inode }),
                    )
                } else {
                    self.stop(Err(RawFsError::PathNotFound))
                }
            },
            (ListPhase::Listing, Reply::Children(children)) => {
                let at = skip_pseudo(&children, 0);
                let entries: Vec<FileMetadata> = Vec::new();
                proof {
                    lemma_next_listable(children.deep_view(), 0);
                    assert(entries.deep_view() =~= Seq::<EntryView>::empty());
                }
                let inode: u32 = self.inode;
                ListDirectory::describe(self.dir, inode, children, at, entries, Ghost(s))
            },
            (ListPhase::Describing, Reply::Stat(stat)) => {
                let ListDirectory { dir, phase, inode, children, next, entries } = self;
                let mut entries = entries;
                let ghost before = entries.deep_view();
                proof {
                    assert(s.children == children.deep_view());
                    assert(s.next == next);
                    assert(next < children.len());
                    assert(children.deep_view()[next as int] == children@[next as int]@);
                }
                let entry = entry_from_stat(dir.as_str(), children[next].name.as_str(), stat);
                entries.push(entry);
                proof {
                    assert(entries.deep_view() =~= before.push(
                        entry_of(s.dir, s.children[s.next].name, stat),
                    ));
                    lemma_next_listable(children.deep_view(), next + 1);
                }
                let at = skip_pseudo(&children, next + 1);
                ListDirectory::describe(dir, inode, children, at, entries, Ghost(s))
            },
            (_, _) => self.stop(Err(RawFsError::IoError)),
        }
    }
}

/// Stepping keeps a listing well-formed, and a listing that ends well holds
/// no entry named `.` or `..`, whatever the engine answered.
pub proof fn lemma_listing_excludes_pseudo_entries(s: ListState, reply: ReplyView)
    requires
        list_wf(s),
    ensures
        list_wf(list_next(s, reply).0),
        list_next(s, reply).1 matches ListStepView::Finished(Ok(entries)) ==> no_pseudo_entries(
            entries,
        ),
{
    match (s.phase, reply) {
        (ListPhase::Listing, ReplyView::Children(children)) => {
            lemma_next_listable(children, 0);
        },
        (ListPhase::Describing, ReplyView::Stat(stat)) => {
            lemma_next_listable(s.children, s.next + 1);
        },
        _ => {},
    }
}

/// The engine is asked for the names of an inode only after it described that
/// inode as a directory.
pub proof fn lemma_names_are_asked_of_a_directory(s: ListState, reply: ReplyView)
    ensures
        list_next(s, reply).1 matches ListStepView::Ask(
            RequestView::ListChildren { inode },
        ) ==> {
            &&& s.phase == ListPhase::Checking
            &&& inode == s.inode
            &&& reply matches ReplyView::Stat(stat) && stat.is_dir
        },
{
}

/// Every request brings a listing nearer to its end, whatever the engine
/// answers: no run of a listing goes on for ever.
pub proof fn lemma_listing_advances(s: ListState, reply: ReplyView)
    requires
        list_wf(s),
    ensures
        list_next(s, reply).1 is Ask ==> nearer(
            list_distance(list_next(s, reply).0),
            list_distance(s),
        ),
{
    match (s.phase, reply) {
        (ListPhase::Listing, ReplyView::Children(children)) => {
            lemma_next_listable(children, 0);
        },
        (ListPhase::Describing, ReplyView::Stat(stat)) => {
            lemma_next_listable(s.children, s.next + 1);
        },
        _ => {},
    }
}

} // verus!
