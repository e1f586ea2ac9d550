//! What the access layer expects of a decode engine, and what follows from
//! it: a file that was written through a conforming engine reads back
//! byte for byte, and a listing holds one entry for each real name of the
//! directory.
//!
//! The engine is described by the volume it holds, which inode each path
//! leads to and which bytes each file has, and by the answers that it may give
//! to a request on such a volume. A failure is always a possible answer. The
//! description is a statement about engines, none is built here.

use vstd::prelude::*;
use crate::engine::{lookup, ChildView, ReplyView, RequestView, ROOT_INODE};
use crate::entry::{
    components, entry_of, file_name_of, is_pseudo_name, is_root, lemma_components_of_child,
    lemma_root_has_no_components, lemma_root_names_no_file, parent_of, EntryView, InodeStat,
};
use crate::error::RawFsError;
use crate::list::{
    lemma_next_listable, list_next, list_start, list_wf, next_listable, ListPhase, ListState,
    ListStepView,
};
use crate::read::{chunk_len, read_next, read_start, read_wf, ReadPhase, ReadState, ReadStepView};
use crate::write::{
    create_request, write_next, write_request, write_start, write_wf, WritePhase, WriteState,
    WriteStepView,
};

verus! {

/// What a decode engine holds.
pub struct Volume {
    /// The inode that each path leads to from the root, by the components of
    /// the path.
    pub names: Map<Seq<Seq<char>>, u32>,
    /// The bytes of each regular file, by inode. A directory has none.
    pub contents: Map<u32, Seq<u8>>,
    /// The names in each directory, by inode, pseudo-entries included.
    pub children: Map<u32, Seq<ChildView>>,
}

/// One answer of the engine together with the volume that it left.
pub struct Exchange {
    pub reply: ReplyView,
    pub after: Volume,
}

/// The path without components leads to the root inode.
pub open spec fn volume_wf(v: Volume) -> bool {
    v.names.contains_key(Seq::empty()) && v.names[Seq::empty()] == ROOT_INODE
}

/// Whether `path` leads to `inode` on the volume.
pub open spec fn leads_to(v: Volume, path: Seq<char>, inode: u32) -> bool {
    v.names.contains_key(components(path)) && v.names[components(path)] == inode
}

/// Whether `path` leads to a regular file with the bytes `data`.
pub open spec fn file_holds(v: Volume, path: Seq<char>, data: Seq<u8>) -> bool {
    &&& v.names.contains_key(components(path))
    &&& v.contents.contains_key(v.names[components(path)])
    &&& v.contents[v.names[components(path)]] == data
}

/// The bytes of a file after `data` was written at `offset`: the file grows
/// where the write passes its end, and a gap before the write holds zeros.
pub open spec fn spliced(old_bytes: Seq<u8>, offset: int, data: Seq<u8>) -> Seq<u8> {
    Seq::new(
        if old_bytes.len() >= offset + data.len() {
            old_bytes.len()
        } else {
            (offset + data.len()) as nat
        },
        |i: int|
            if offset <= i < offset + data.len() {
                data[i - offset]
            } else if i < old_bytes.len() {
                old_bytes[i]
            } else {
                0u8
            },
    )
}

/// Whether `stat` describes the inode: as a directory exactly if it has no
/// bytes, and as a file with its size.
pub open spec fn describes(v: Volume, inode: u32, stat: InodeStat) -> bool {
    &&& stat.is_dir <==> !v.contents.contains_key(inode)
    &&& !stat.is_dir ==> stat.size == v.contents[inode].len()
}

/// Whether every path that led to the directory `parent` before leads, when
/// extended by `name`, to `inode` after.
pub open spec fn entered(
    v: Volume,
    after: Volume,
    parent: u32,
    name: Seq<char>,
    inode: u32,
) -> bool {
    forall|dir: Seq<Seq<char>>|
        v.names.contains_key(dir) && v.names[dir] == parent ==> after.names.contains_key(
            #[trigger] dir.push(name),
        ) && after.names[dir.push(name)] == inode
}

/// Whether a conforming engine that holds the volume `v` may give `reply` to
/// `req` and then hold `after`.
///
/// * Resolving, enumerating, describing and reading leave the volume as it
///   is.
/// * A path is resolved to the inode that it leads to.
/// * A directory is enumerated with the names that it holds.
/// * An inode is described as a directory exactly if it has no bytes, and a
///   file with its size.
/// * A read gives bytes of the file from the offset on.
/// * A write reports how many of the bytes it took, and the file holds them
///   from the offset on.
/// * A creation gives an inode that had no bytes before and has none after,
///   and every path to the directory, extended by the name, leads to it.
/// * A truncation keeps the first bytes of the file.
pub open spec fn answers(v: Volume, req: RequestView, reply: ReplyView, after: Volume) -> bool {
    match req {
        RequestView::Resolve { path, parent, create_if_missing, mode } => {
            &&& after == v
            &&& reply matches ReplyView::Inode(i) ==> parent == ROOT_INODE ==> leads_to(v, path, i)
        },
        RequestView::ListChildren { inode } => {
            &&& after == v
            &&& reply matches ReplyView::Children(children) ==> v.children.contains_key(inode)
                && children == v.children[inode]
        },
        RequestView::Stat { inode } => {
            &&& after == v
            &&& reply matches ReplyView::Stat(stat) ==> describes(v, inode, stat)
        },
        RequestView::ReadAt { inode, offset, len } => {
            &&& after == v
            &&& reply matches ReplyView::Data(bytes) ==> {
                &&& v.contents.contains_key(inode)
                &&& offset + bytes.len() <= v.contents[inode].len()
                &&& bytes == v.contents[inode].subrange(offset as int, offset + bytes.len())
            }
        },
        RequestView::WriteAt { inode, offset, data } => {
            reply matches ReplyView::Written(n) ==> {
                &&& n <= data.len()
                &&& v.contents.contains_key(inode)
                &&& after.names == v.names
                &&& after.contents == v.contents.insert(
                    inode,
                    spliced(v.contents[inode], offset as int, data.subrange(0, n as int)),
                )
            }
        },
        RequestView::Create { parent, name, mode } => {
            reply matches ReplyView::Inode(i) ==> {
                &&& !v.contents.contains_key(i)
                &&& after.contents == v.contents.insert(i, Seq::empty())
                &&& entered(v, after, parent, name, i)
            }
        },
        RequestView::Truncate { inode, size } => {
            reply is Completed ==> {
                &&& v.contents.contains_key(inode)
                &&& size <= v.contents[inode].len()
                &&& after.names == v.names
                &&& after.contents == v.contents.insert(
                    inode,
                    v.contents[inode].subrange(0, size as int),
                )
            }
        },
        _ => true,
    }
}

/// What a write against a conforming engine comes to: the result and the
/// volume at its end, if `trace` is a run of the write from the state `s`
/// with the request `pending` on the volume `v`, each answer one that the
/// engine may give, and the last one ending the write.
pub open spec fn write_run(
    s: WriteState,
    pending: RequestView,
    v: Volume,
    trace: Seq<Exchange>,
) -> Option<(Result<(), RawFsError>, Volume)>
    decreases trace.len(),
{
    if trace.len() == 0 || !answers(v, pending, trace[0].reply, trace[0].after) {
        None
    } else {
        match write_next(s, trace[0].reply).1 {
            WriteStepView::Ask(req) => write_run(
                write_next(s, trace[0].reply).0,
                req,
                trace[0].after,
                trace.drop_first(),
            ),
            WriteStepView::Finished(result) => if trace.len() == 1 {
                Some((result, trace[0].after))
            } else {
                None
            },
        }
    }
}

/// What a read against a conforming engine comes to, in the manner of
/// [`write_run`].
pub open spec fn read_run(
    s: ReadState,
    pending: RequestView,
    v: Volume,
    trace: Seq<Exchange>,
) -> Option<(Result<Seq<u8>, RawFsError>, Volume)>
    decreases trace.len(),
{
    if trace.len() == 0 || !answers(v, pending, trace[0].reply, trace[0].after) {
        None
    } else {
        match read_next(s, trace[0].reply).1 {
            ReadStepView::Ask(req) => read_run(
                read_next(s, trace[0].reply).0,
                req,
                trace[0].after,
                trace.drop_first(),
            ),
            ReadStepView::Finished(result) => if trace.len() == 1 {
                Some((result, trace[0].after))
            } else {
                None
            },
        }
    }
}

/// What writing `data` to `path` comes to on the volume `v`.
pub open spec fn write_outcome(
    path: Seq<char>,
    data: Seq<u8>,
    v: Volume,
    trace: Seq<Exchange>,
) -> Option<(Result<(), RawFsError>, Volume)> {
    match write_start(path, data).1 {
        WriteStepView::Ask(req) => write_run(write_start(path, data).0, req, v, trace),
        WriteStepView::Finished(_) => None,
    }
}

/// What reading `path` comes to on the volume `v`.
pub open spec fn read_outcome(path: Seq<char>, v: Volume, trace: Seq<Exchange>) -> Option<
    (Result<Seq<u8>, RawFsError>, Volume),
> {
    match read_start(path).1 {
        ReadStepView::Ask(req) => read_run(read_start(path).0, req, v, trace),
        ReadStepView::Finished(_) => None,
    }
}

/// The file begins with the first `written` bytes of the data.
pub open spec fn begins_with(file: Seq<u8>, data: Seq<u8>, written: int) -> bool {
    &&& written <= file.len()
    &&& written <= data.len()
    &&& forall|i: int| 0 <= i < written ==> file[i] == data[i]
}

/// The larger of a former size and a number of bytes written.
pub open spec fn grown(prior_size: u64, written: int) -> int {
    if prior_size >= written {
        prior_size as int
    } else {
        written
    }
}

/// What holds between a write, its pending request and the volume at every
/// point of a run.
pub open spec fn write_inv(s: WriteState, pending: RequestView, v: Volume) -> bool {
    match s.phase {
        WritePhase::Resolving => pending == lookup(s.path) && volume_wf(v) && !is_root(s.path),
        WritePhase::ResolvingParent => {
            &&& pending == lookup(parent_of(s.path))
            &&& file_name_of(s.path).len() > 0
        },
        WritePhase::Creating => {
            &&& pending == create_request(s, s.parent)
            &&& file_name_of(s.path).len() > 0
            &&& leads_to(v, parent_of(s.path), s.parent)
        },
        WritePhase::Sizing => {
            &&& pending == RequestView::Stat { inode: s.inode }
            &&& leads_to(v, s.path, s.inode)
            &&& is_root(s.path) ==> s.inode == ROOT_INODE
        },
        WritePhase::Writing => {
            &&& pending == write_request(s, s.written)
            &&& leads_to(v, s.path, s.inode)
            &&& is_root(s.path) ==> s.inode == ROOT_INODE
            &&& v.contents.contains_key(s.inode)
            &&& begins_with(v.contents[s.inode], s.data, s.written)
            &&& v.contents[s.inode].len() == grown(s.prior_size, s.written)
        },
        WritePhase::Truncating => {
            &&& pending == RequestView::Truncate { inode: s.inode, size: s.data.len() as u64 }
            &&& leads_to(v, s.path, s.inode)
            &&& is_root(s.path) ==> s.inode == ROOT_INODE
            &&& v.contents.contains_key(s.inode)
            &&& begins_with(v.contents[s.inode], s.data, s.data.len() as int)
            &&& v.contents[s.inode].len() > s.data.len()
        },
        _ => true,
    }
}

/// One answer of a conforming engine keeps [`write_inv`], and where it ends
/// the write well the file holds the data.
pub proof fn lemma_write_step(
    s: WriteState,
    pending: RequestView,
    v: Volume,
    reply: ReplyView,
    after: Volume,
)
    requires
        write_wf(s),
        write_inv(s, pending, v),
        answers(v, pending, reply, after),
    ensures
        write_next(s, reply).0.path == s.path,
        write_next(s, reply).0.data == s.data,
        write_wf(write_next(s, reply).0),
        match write_next(s, reply).1 {
            WriteStepView::Ask(req) => write_inv(write_next(s, reply).0, req, after),
            WriteStepView::Finished(Ok(_)) => file_holds(after, s.path, s.data) && (is_root(s.path)
                ==> volume_wf(after)),
            WriteStepView::Finished(Err(_)) => true,
        },
{
    if is_root(s.path) {
        lemma_root_has_no_components(s.path);
        lemma_root_names_no_file(s.path);
    }
    match (s.phase, reply) {
        (WritePhase::Resolving, ReplyView::NotFound) => {
            if file_name_of(s.path).len() > 0 && is_root(parent_of(s.path)) {
                lemma_root_has_no_components(parent_of(s.path));
            }
        },
        (WritePhase::Creating, ReplyView::Inode(i)) => {
            lemma_components_of_child(s.path);
            let dir = components(parent_of(s.path));
            assert(after.names.contains_key(dir.push(file_name_of(s.path))));
            assert(after.contents[i] =~= Seq::<u8>::empty());
            if s.data.len() == 0 {
                assert(after.contents[i] =~= s.data);
            }
        },
        (WritePhase::Sizing, ReplyView::Stat(stat)) => {
            if !stat.is_dir && s.data.len() == 0 && stat.size == 0 {
                assert(v.contents[s.inode] =~= s.data);
            }
        },
        (WritePhase::Writing, ReplyView::Written(n)) => {
            let remaining = s.data.len() - s.written;
            if 0 < n <= remaining {
                let rest = s.data.subrange(s.written, s.data.len() as int);
                let file = after.contents[s.inode];
                assert(file == spliced(v.contents[s.inode], s.written, rest.subrange(0, n as int)));
                assert(begins_with(file, s.data, s.written + n)) by {
                    assert forall|i: int| 0 <= i < s.written + n implies file[i] == s.data[i] by {
                        if i >= s.written {
                            assert(rest.subrange(0, n as int)[i - s.written] == s.data[i]);
                        }
                    }
                }
                assert(file.len() == grown(s.prior_size, s.written + n));
                if n == remaining && s.prior_size <= s.data.len() {
                    assert(file =~= s.data);
                }
            }
        },
        (WritePhase::Truncating, ReplyView::Completed) => {
            assert(after.contents[s.inode] =~= s.data);
        },
        _ => {},
    }
}

/// A write that ends well against a conforming engine leaves a file with the
/// data at its path.
pub proof fn lemma_write_run(s: WriteState, pending: RequestView, v: Volume, trace: Seq<Exchange>)
    requires
        write_wf(s),
        write_inv(s, pending, v),
    ensures
        write_run(s, pending, v, trace) matches Some((Ok(_), end)) ==> file_holds(
            end,
            s.path,
            s.data,
        ) && (is_root(s.path) ==> volume_wf(end)),
    decreases trace.len(),
{
    if trace.len() > 0 && answers(v, pending, trace[0].reply, trace[0].after) {
        lemma_write_step(s, pending, v, trace[0].reply, trace[0].after);
        match write_next(s, trace[0].reply).1 {
            WriteStepView::Ask(req) => {
                lemma_write_run(
                    write_next(s, trace[0].reply).0,
                    req,
                    trace[0].after,
                    trace.drop_first(),
                );
            },
            _ => {},
        }
    }
}

/// What holds between a read of a file with the bytes `data`, its pending
/// request and the volume at every point of a run.
pub open spec fn read_inv(s: ReadState, pending: RequestView, v: Volume, data: Seq<u8>) -> bool {
    &&& file_holds(v, s.path, data)
    &&& match s.phase {
        ReadPhase::Resolving => pending == lookup(s.path),
        ReadPhase::Sizing => {
            &&& pending == RequestView::Stat { inode: s.inode }
            &&& leads_to(v, s.path, s.inode)
        },
        ReadPhase::Reading => {
            &&& pending == RequestView::ReadAt {
                inode: s.inode,
                offset: s.data.len() as u64,
                len: chunk_len(s.size - s.data.len()),
            }
            &&& leads_to(v, s.path, s.inode)
            &&& s.size == data.len()
            &&& s.data == data.subrange(0, s.data.len() as int)
        },
        ReadPhase::Finished => true,
    }
}

/// One answer of a conforming engine keeps [`read_inv`], and where it ends the
/// read well the bytes handed out are those of the file.
pub proof fn lemma_read_step(
    s: ReadState,
    pending: RequestView,
    v: Volume,
    data: Seq<u8>,
    reply: ReplyView,
    after: Volume,
)
    requires
        read_wf(s),
        read_inv(s, pending, v, data),
        answers(v, pending, reply, after),
    ensures
        s.phase != ReadPhase::Finished ==> after == v,
        read_next(s, reply).1 is Ask ==> read_next(s, reply).0.phase != ReadPhase::Finished,
        read_wf(read_next(s, reply).0),
        match read_next(s, reply).1 {
            ReadStepView::Ask(req) => read_inv(read_next(s, reply).0, req, after, data),
            ReadStepView::Finished(Ok(bytes)) => bytes == data,
            ReadStepView::Finished(Err(_)) => true,
        },
{
    match (s.phase, reply) {
        (ReadPhase::Sizing, ReplyView::Stat(stat)) => {
            if stat.size == 0 {
                assert(data =~= Seq::<u8>::empty());
            } else if stat.size <= usize::MAX {
                assert(Seq::<u8>::empty() =~= data.subrange(0, 0));
            }
        },
        (ReadPhase::Reading, ReplyView::Data(bytes)) => {
            let remaining = s.size - s.data.len();
            if 0 < bytes.len() <= chunk_len(remaining) {
                let got = s.data + bytes;
                assert(got =~= data.subrange(0, got.len() as int));
                if bytes.len() == remaining {
                    assert(got =~= data);
                }
            }
        },
        _ => {},
    }
}

/// A read against a conforming engine leaves the volume as it was, and where
/// it ends well it hands out the bytes of the file.
pub proof fn lemma_read_run(
    s: ReadState,
    pending: RequestView,
    v: Volume,
    data: Seq<u8>,
    trace: Seq<Exchange>,
)
    requires
        read_wf(s),
        read_inv(s, pending, v, data),
    ensures
        read_run(s, pending, v, trace) matches Some((Ok(bytes), _)) ==> bytes == data,
        s.phase != ReadPhase::Finished ==> (read_run(s, pending, v, trace) matches Some(
            (_, end),
        ) ==> end == v),
    decreases trace.len(),
{
    if trace.len() > 0 && answers(v, pending, trace[0].reply, trace[0].after) {
        lemma_read_step(s, pending, v, data, trace[0].reply, trace[0].after);
        match read_next(s, trace[0].reply).1 {
            ReadStepView::Ask(req) => {
                lemma_read_run(
                    read_next(s, trace[0].reply).0,
                    req,
                    trace[0].after,
                    data,
                    trace.drop_first(),
                );
            },
            _ => {},
        }
    }
}

/// The names of a directory without `.` and `..`, in their order.
pub open spec fn real_children(children: Seq<ChildView>) -> Seq<ChildView>
    decreases children.len(),
{
    if children.len() == 0 {
        Seq::empty()
    } else if is_pseudo_name(children.last().name) {
        real_children(children.drop_last())
    } else {
        real_children(children.drop_last()).push(children.last())
    }
}

/// Whether `entry` is the entry of `child` in a listing of the directory
/// `dir`, made from a description of the child's inode.
pub open spec fn entry_for(v: Volume, dir: Seq<char>, child: ChildView, entry: EntryView) -> bool {
    exists|stat: InodeStat|
        describes(v, child.inode, stat) && entry == entry_of(dir, child.name, stat)
}

/// Whether `entries` is the listing of a directory with the names
/// `children`: one entry for each real name, in the same order.
pub open spec fn listing_matches(
    v: Volume,
    dir: Seq<char>,
    children: Seq<ChildView>,
    entries: Seq<EntryView>,
) -> bool {
    &&& entries.len() == real_children(children).len()
    &&& forall|k: int|
        0 <= k < entries.len() ==> entry_for(
            v,
            dir,
            real_children(children)[k],
            #[trigger] entries[k],
        )
}

/// Whether the directory at `path` is the inode `dir`: the root inode for a
/// path that names the root, else the inode that the path leads to.
pub open spec fn directory_at(v: Volume, path: Seq<char>, dir: u32) -> bool {
    if is_root(path) {
        dir == ROOT_INODE
    } else {
        leads_to(v, path, dir)
    }
}

/// What a listing against a conforming engine comes to, in the manner of
/// [`write_run`].
pub open spec fn list_run(
    s: ListState,
    pending: RequestView,
    v: Volume,
    trace: Seq<Exchange>,
) -> Option<(Result<Seq<EntryView>, RawFsError>, Volume)>
    decreases trace.len(),
{
    if trace.len() == 0 || !answers(v, pending, trace[0].reply, trace[0].after) {
        None
    } else {
        match list_next(s, trace[0].reply).1 {
            ListStepView::Ask(req) => list_run(
                list_next(s, trace[0].reply).0,
                req,
                trace[0].after,
                trace.drop_first(),
            ),
            ListStepView::Finished(result) => if trace.len() == 1 {
                Some((result, trace[0].after))
            } else {
                None
            },
        }
    }
}

/// What listing the directory at `path` comes to on the volume `v`.
pub open spec fn list_outcome(path: Seq<char>, v: Volume, trace: Seq<Exchange>) -> Option<
    (Result<Seq<EntryView>, RawFsError>, Volume),
> {
    match list_start(path).1 {
        ListStepView::Ask(req) => list_run(list_start(path).0, req, v, trace),
        ListStepView::Finished(_) => None,
    }
}

/// What holds between a listing of the directory `dir`, its pending request
/// and the volume at every point of a run.
pub open spec fn list_inv(s: ListState, pending: RequestView, v: Volume, dir: u32) -> bool {
    &&& directory_at(v, s.dir, dir)
    &&& match s.phase {
        ListPhase::Resolving => pending == lookup(s.dir) && !is_root(s.dir),
        ListPhase::Checking => pending == RequestView::Stat { inode: dir } && s.inode == dir,
        ListPhase::Listing => {
            &&& pending == RequestView::ListChildren { inode: dir }
            &&& s.inode == dir
            &&& !v.contents.contains_key(dir)
        },
        ListPhase::Describing => {
            &&& pending == RequestView::Stat { inode: s.children[s.next].inode }
            &&& v.children.contains_key(dir)
            &&& s.children == v.children[dir]
            &&& listing_matches(v, s.dir, s.children.subrange(0, s.next), s.entries)
        },
        ListPhase::Finished => true,
    }
}

/// The names that `next_listable` passes over are no real names.
pub proof fn lemma_real_children_up_to_next(children: Seq<ChildView>, from: int)
    requires
        0 <= from <= children.len(),
    ensures
        real_children(children.subrange(0, next_listable(children, from))) == real_children(
            children.subrange(0, from),
        ),
    decreases children.len() - from,
{
    lemma_next_listable(children, from);
    if from < children.len() && is_pseudo_name(children[from].name) {
        lemma_real_children_up_to_next(children, from + 1);
        let longer = children.subrange(0, from + 1);
        assert(longer.drop_last() =~= children.subrange(0, from));
        assert(longer.last() == children[from]);
    }
}

/// One answer of a conforming engine keeps [`list_inv`], and where it ends the
/// listing well the entries are those of the directory.
pub proof fn lemma_list_step(
    s: ListState,
    pending: RequestView,
    v: Volume,
    dir: u32,
    reply: ReplyView,
    after: Volume,
)
    requires
        list_wf(s),
        list_inv(s, pending, v, dir),
        answers(v, pending, reply, after),
    ensures
        s.phase != ListPhase::Finished ==> after == v,
        list_next(s, reply).1 is Ask ==> list_next(s, reply).0.phase != ListPhase::Finished,
        list_next(s, reply).0.dir == s.dir,
        list_wf(list_next(s, reply).0),
        match list_next(s, reply).1 {
            ListStepView::Ask(req) => list_inv(list_next(s, reply).0, req, v, dir),
            ListStepView::Finished(Ok(entries)) => v.children.contains_key(dir) && listing_matches(
                v,
                s.dir,
                v.children[dir],
                entries,
            ),
            ListStepView::Finished(Err(_)) => true,
        },
{
    match (s.phase, reply) {
        (ListPhase::Listing, ReplyView::Children(children)) => {
            lemma_next_listable(children, 0);
            lemma_real_children_up_to_next(children, 0);
            let at = next_listable(children, 0);
            assert(real_children(children.subrange(0, 0)) =~= Seq::<ChildView>::empty());
            if at >= children.len() {
                assert(children.subrange(0, at) =~= children);
            }
        },
        (ListPhase::Describing, ReplyView::Stat(stat)) => {
            let children = s.children;
            let child = children[s.next];
            let entries = s.entries.push(entry_of(s.dir, child.name, stat));
            let at = next_listable(children, s.next + 1);
            lemma_next_listable(children, s.next + 1);
            lemma_real_children_up_to_next(children, s.next + 1);
            let longer = children.subrange(0, s.next + 1);
            assert(longer.drop_last() =~= children.subrange(0, s.next));
            assert(longer.last() == child);
            let listed = real_children(children.subrange(0, at));
            assert(listed == real_children(children.subrange(0, s.next)).push(child));
            assert(listing_matches(v, s.dir, children.subrange(0, at), entries)) by {
                assert forall|k: int| 0 <= k < entries.len() implies entry_for(
                    v,
                    s.dir,
                    listed[k],
                    #[trigger] entries[k],
                ) by {
                    if k == entries.len() - 1 {
                        assert(describes(v, child.inode, stat));
                    } else {
                        assert(entries[k] == s.entries[k]);
                    }
                }
            }
            if at >= children.len() {
                assert(children.subrange(0, at) =~= children);
            }
        },
        _ => {},
    }
}

/// A listing against a conforming engine leaves the volume as it was, and
/// where it ends well it holds the entries of the directory.
pub proof fn lemma_list_run(
    s: ListState,
    pending: RequestView,
    v: Volume,
    dir: u32,
    trace: Seq<Exchange>,
)
    requires
        list_wf(s),
        list_inv(s, pending, v, dir),
    ensures
        list_run(s, pending, v, trace) matches Some((Ok(entries), _)) ==> v.children.contains_key(
            dir,
        ) && listing_matches(v, s.dir, v.children[dir], entries),
        s.phase != ListPhase::Finished ==> (list_run(s, pending, v, trace) matches Some(
            (_, end),
        ) ==> end == v),
    decreases trace.len(),
{
    if trace.len() > 0 && answers(v, pending, trace[0].reply, trace[0].after) {
        lemma_list_step(s, pending, v, dir, trace[0].reply, trace[0].after);
        match list_next(s, trace[0].reply).1 {
            ListStepView::Ask(req) => {
                lemma_list_run(list_next(s, trace[0].reply).0, req, v, dir, trace.drop_first());
            },
            _ => {},
        }
    }
}

/// Listing: where listing the directory at `path` ends well, with whatever
/// answers a conforming engine gives, the listing holds one entry for each
/// name of the directory but `.` and `..`, in the order of the directory, and
/// each entry is made from a description of the inode of its name. However a
/// listing ends, it leaves the volume as it was.
pub proof fn lemma_listing_holds_the_directory(
    path: Seq<char>,
    v: Volume,
    dir: u32,
    trace: Seq<Exchange>,
)
    requires
        directory_at(v, path, dir),
    ensures
        list_outcome(path, v, trace) matches Some((Ok(entries), _)) ==> v.children.contains_key(
            dir,
        ) && listing_matches(v, path, v.children[dir], entries),
        list_outcome(path, v, trace) matches Some((_, end)) ==> end == v,
{
    match list_start(path).1 {
        ListStepView::Ask(req) => {
            lemma_list_run(list_start(path).0, req, v, dir, trace);
        },
        _ => {},
    }
}

/// Round trip: where writing `data` to `path` ends well, on whatever volume
/// and with whatever answers a conforming engine gives, the file at `path`
/// holds exactly `data`; and a read of `path` that then ends well hands out
/// exactly `data`, without padding and without truncation. However the read
/// ends, it leaves the volume as the write left it.
pub proof fn lemma_write_then_read_round_trip(
    path: Seq<char>,
    data: Seq<u8>,
    v: Volume,
    writes: Seq<Exchange>,
    reads: Seq<Exchange>,
)
    requires
        volume_wf(v),
        data.len() <= usize::MAX,
    ensures
        write_outcome(path, data, v, writes) matches Some((Ok(_), written)) ==> {
            &&& file_holds(written, path, data)
            &&& read_outcome(path, written, reads) matches Some((Ok(bytes), _)) ==> bytes == data
            &&& read_outcome(path, written, reads) matches Some((_, end)) ==> end == written
        },
{
    if is_root(path) {
        lemma_root_has_no_components(path);
    }
    match write_start(path, data).1 {
        WriteStepView::Ask(req) => {
            lemma_write_run(write_start(path, data).0, req, v, writes);
        },
        _ => {},
    }
    match write_outcome(path, data, v, writes) {
        Some((Ok(_), written)) => {
            lemma_file_reads_back(path, written, data, reads);
        },
        _ => {},
    }
}

/// Reading: a read of `path` on a volume where `path` leads to a file with
/// the bytes `data` leaves the volume as it was, and where it ends well it
/// hands out exactly `data`. For a path that names the root the volume must
/// have its root at the root inode.
pub proof fn lemma_file_reads_back(
    path: Seq<char>,
    v: Volume,
    data: Seq<u8>,
    trace: Seq<Exchange>,
)
    requires
        file_holds(v, path, data),
        is_root(path) ==> volume_wf(v),
    ensures
        read_outcome(path, v, trace) matches Some((Ok(bytes), _)) ==> bytes == data,
        read_outcome(path, v, trace) matches Some((_, end)) ==> end == v,
{
    if is_root(path) {
        lemma_root_has_no_components(path);
    }
    match read_start(path).1 {
        ReadStepView::Ask(req) => {
            lemma_read_run(read_start(path).0, req, v, data, trace);
        },
        _ => {},
    }
}

} // verus!
