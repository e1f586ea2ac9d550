//! The list of recently used files: newest first, each path once, at most
//! twenty.

use vstd::prelude::*;

verus! {

/// The most entries that the list keeps.
pub const RECENT_LIMIT: usize = 20;

/// A file that was used, with the time of its use.
#[derive(Debug)]
pub struct RecentFile {
    pub path: String,
    pub name: String,
    pub timestamp: u64,
}

/// What a [`RecentFile`] holds, with its texts as character sequences.
pub struct RecentView {
    pub path: Seq<char>,
    pub name: Seq<char>,
    pub timestamp: u64,
}

impl View for RecentFile {
    type V = RecentView;

    open spec fn view(&self) -> RecentView {
        RecentView { path: self.path@, name: self.name@, timestamp: self.timestamp }
    }
}

impl DeepView for RecentFile {
    type V = RecentView;

    open spec fn deep_view(&self) -> RecentView {
        self@
    }
}

/// The entries of `list` for other paths than `path`, in their order.
pub open spec fn others(list: Seq<RecentView>, path: Seq<char>) -> Seq<RecentView>
    decreases list.len(),
{
    if list.len() == 0 {
        Seq::empty()
    } else if list.last().path == path {
        others(list.drop_last(), path)
    } else {
        others(list.drop_last(), path).push(list.last())
    }
}

/// The list after `entry` was used: `entry` first, then the former entries
/// for other paths, cut after the twentieth.
pub open spec fn remembered(list: Seq<RecentView>, entry: RecentView) -> Seq<RecentView> {
    let all = seq![entry] + others(list, entry.path);
    if all.len() > RECENT_LIMIT {
        all.subrange(0, RECENT_LIMIT as int)
    } else {
        all
    }
}

/// The entries for other paths are entries of the list, none of them for
/// `path`, and no more than the list has.
pub proof fn lemma_others(list: Seq<RecentView>, path: Seq<char>)
    ensures
        others(list, path).len() <= list.len(),
        forall|i: int|
            0 <= i < others(list, path).len() ==> (#[trigger] others(list, path)[i]).path != path
                && list.contains(others(list, path)[i]),
    decreases list.len(),
{
    if list.len() > 0 {
        let shorter = list.drop_last();
        lemma_others(shorter, path);
        assert forall|i: int| 0 <= i < others(list, path).len() implies (#[trigger] others(
            list,
            path,
        )[i]).path != path && list.contains(others(list, path)[i]) by {
            if i < others(shorter, path).len() {
                let e = others(shorter, path)[i];
                assert(shorter.contains(e));
                let k = choose|k: int| 0 <= k < shorter.len() && shorter[k] == e;
                assert(list[k] == e);
            } else {
                assert(list[list.len() - 1] == list.last());
            }
        }
    }
}

/// After a file was used the list begins with it, holds its path nowhere
/// else, and has at most twenty entries.
pub proof fn lemma_remembered(list: Seq<RecentView>, entry: RecentView)
    ensures
        1 <= remembered(list, entry).len() <= RECENT_LIMIT,
        remembered(list, entry)[0] == entry,
        forall|i: int|
            1 <= i < remembered(list, entry).len() ==> (#[trigger] remembered(
                list,
                entry,
            )[i]).path != entry.path,
{
    lemma_others(list, entry.path);
    let rest = others(list, entry.path);
    let all = seq![entry] + rest;
    assert forall|i: int| 1 <= i < remembered(list, entry).len() implies (#[trigger] remembered(
        list,
        entry,
    )[i]).path != entry.path by {
        assert(remembered(list, entry)[i] == rest[i - 1]);
    }
}

/// A copy of an entry.
fn copy_of(r: &RecentFile) -> (c: RecentFile)
    ensures
        c@ == r@,
{
    RecentFile { path: r.path.clone(), name: r.name.clone(), timestamp: r.timestamp }
}

/// Puts `entry` at the head of the list, drops the former entries for its
/// path and keeps the first twenty.
pub fn track_recent_file(recent: Vec<RecentFile>, entry: RecentFile) -> (list: Vec<RecentFile>)
    ensures
        list.deep_view() == remembered(recent.deep_view(), entry@),
        1 <= list.len() <= RECENT_LIMIT,
{
    let path = entry.path.clone();
    let ghost first = entry@;
    let ghost former = recent.deep_view();
    let mut list: Vec<RecentFile> = Vec::new();
    list.push(entry);
    assert(list.deep_view() =~= seq![first] + others(former.subrange(0, 0), path@));
    let mut i: usize = 0;
    while i < recent.len()
        invariant
            i <= recent.len(),
            former == recent.deep_view(),
            path@ == first.path,
            list.deep_view() == seq![first] + others(former.subrange(0, i as int), path@),
        decreases recent.len() - i,
    {
        let ghost before = list.deep_view();
        proof {
            assert(former.subrange(0, i + 1).drop_last() =~= former.subrange(0, i as int));
            assert(former.subrange(0, i + 1).last() == recent@[i as int]@);
        }
        if !(recent[i].path == path) {
            let c = copy_of(&recent[i]);
            list.push(c);
            assert(list.deep_view() =~= before.push(recent@[i as int]@));
            assert(before.push(recent@[i as int]@) =~= seq![first] + others(
                former.subrange(0, i as int),
                path@,
            ).push(recent@[i as int]@));
        }
        i += 1;
    }
    proof {
        assert(former.subrange(0, recent.len() as int) =~= former);
        lemma_remembered(former, first);
    }
    let ghost all = list.deep_view();
    if list.len() > RECENT_LIMIT {
        list.truncate(RECENT_LIMIT);
        assert(list.deep_view() =~= all.subrange(0, RECENT_LIMIT as int));
    }
    list
}

} // verus!
