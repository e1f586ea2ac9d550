//! Writing a whole file through the decode engine.
//!
//! The path is resolved unless it names the root. A file that exists is
//! overwritten from offset zero and cut down to the new length if it was
//! longer before; the engine is asked to cut only a file that is longer. A
//! file that does not exist is created in the directory that the path names,
//! with mode `rw-r--r--`, and then written. If writing fails on a file that
//! was just created, the new entry is removed again before the failure is
//! reported.

use vstd::prelude::*;
use vstd::slice::{slice_subrange, slice_to_vec};
use crate::engine::{
    lookup, lookup_request, nearer, Reply, ReplyView, Request, RequestView, NEW_FILE_MODE,
    ROOT_INODE,
};
use crate::entry::{file_name_of, is_root, is_root_path, parent_of, split_path};
use crate::error::RawFsError;

verus! {

/// Where a write stands.
#[derive(Debug, Clone, Copy, PartialEq, Eq, Structural)]
pub enum WritePhase {
    /// The path is being resolved.
    Resolving,
    /// The file does not exist; its directory is being resolved.
    ResolvingParent,
    /// The file is being created.
    Creating,
    /// The file exists; its former size is being asked for.
    Sizing,
    /// The contents are being written.
    Writing,
    /// The file is being cut down to the new length.
    Truncating,
    /// Writing failed; the entry that was created is being removed.
    Removing,
    /// The write has ended.
    Finished,
}

/// A write in progress.
#[derive(Debug)]
pub struct WriteFile {
    path: String,
    data: Vec<u8>,
    phase: WritePhase,
    inode: u32,
    parent: u32,
    created: bool,
    prior_size: u64,
    written: usize,
}

/// What a [`WriteFile`] holds.
pub struct WriteState {
    pub path: Seq<char>,
    /// The new contents of the file.
    pub data: Seq<u8>,
    pub phase: WritePhase,
    pub inode: u32,
    /// The directory in which the file was or is being created.
    pub parent: u32,
    /// Whether this write created the file.
    pub created: bool,
    /// The size of the file before the write.
    pub prior_size: u64,
    /// The number of bytes written so far.
    pub written: int,
}

/// What a write does next.
#[derive(Debug)]
pub enum WriteStep {
    /// The engine is to perform this request.
    Ask(Request),
    /// The write has ended with this result.
    Finished(Result<(), RawFsError>),
}

/// What a [`WriteStep`] holds, with texts and bytes as sequences.
pub enum WriteStepView {
    Ask(RequestView),
    Finished(Result<(), RawFsError>),
}

impl View for WriteStep {
    type V = WriteStepView;

    open spec fn view(&self) -> WriteStepView {
        match self {
            WriteStep::Ask(req) => WriteStepView::Ask(req@),
            WriteStep::Finished(r) => WriteStepView::Finished(*r),
        }
    }
}

/// The data fits in memory, the bytes written so far never exceed it, while
/// writing some are still to come, and an entry is removed only if this write
/// created it.
pub open spec fn write_wf(s: WriteState) -> bool {
    &&& s.data.len() <= usize::MAX
    &&& 0 <= s.written <= s.data.len()
    &&& s.phase == WritePhase::Writing ==> s.written < s.data.len()
    &&& s.phase == WritePhase::Removing ==> s.created
}

/// How far a write is from its end: the phases still to pass, and while
/// writing the bytes still to be taken.
pub open spec fn write_distance(s: WriteState) -> (nat, nat) {
    match s.phase {
        WritePhase::Resolving => (5, 0),
        WritePhase::ResolvingParent => (4, 0),
        WritePhase::Creating => (3, 0),
        WritePhase::Sizing => (3, 0),
        WritePhase::Writing => (2, (s.data.len() - s.written) as nat),
        WritePhase::Truncating => (1, 0),
        WritePhase::Removing => (1, 0),
        WritePhase::Finished => (0, 0),
    }
}

/// The state and the first request of a write of `data` to `path`. The empty
/// path and `/` stand for the root directory, which needs no resolving.
pub open spec fn write_start(path: Seq<char>, data: Seq<u8>) -> (WriteState, WriteStepView) {
    if is_root(path) {
        (
            WriteState {
                path,
                data,
                phase: WritePhase::Sizing,
                inode: ROOT_INODE,
                parent: 0,
                created: false,
                prior_size: 0,
                written: 0,
            },
            WriteStepView::Ask(RequestView::Stat { inode: ROOT_INODE }),
        )
    } else {
        (
            WriteState {
                path,
                data,
                phase: WritePhase::Resolving,
                inode: 0,
                parent: 0,
                created: false,
                prior_size: 0,
                written: 0,
            },
            WriteStepView::Ask(lookup(path)),
        )
    }
}

/// The state `s` in another phase.
pub open spec fn in_phase(s: WriteState, phase: WritePhase) -> WriteState {
    WriteState {
        path: s.path,
        data: s.data,
        phase,
        inode: s.inode,
        parent: s.parent,
        created: s.created,
        prior_size: s.prior_size,
        written: s.written,
    }
}

/// The end of a write with `result`.
pub open spec fn write_stop(s: WriteState, result: Result<(), RawFsError>) -> (
    WriteState,
    WriteStepView,
) {
    (in_phase(s, WritePhase::Finished), WriteStepView::Finished(result))
}

/// The request to create the file of `s` in the directory `parent`.
pub open spec fn create_request(s: WriteState, parent: u32) -> RequestView {
    RequestView::Create { parent, name: file_name_of(s.path), mode: NEW_FILE_MODE }
}

/// The request to write what is left of the data once `written` bytes are in
/// the file.
pub open spec fn write_request(s: WriteState, written: int) -> RequestView {
    RequestView::WriteAt {
        inode: s.inode,
        offset: written as u64,
        data: s.data.subrange(written, s.data.len() as int),
    }
}

/// What follows once all the data is in the file: the file is cut down if it
/// was longer before, else the write ends well.
pub open spec fn write_settle(s: WriteState) -> (WriteState, WriteStepView) {
    if s.prior_size > s.data.len() {
        (
            in_phase(s, WritePhase::Truncating),
            WriteStepView::Ask(
                RequestView::Truncate { inode: s.inode, size: s.data.len() as u64 },
            ),
        )
    } else {
        write_stop(s, Ok(()))
    }
}

/// What follows once the inode of the file is known, in a state with nothing
/// written yet.
pub open spec fn write_begin(s: WriteState) -> (WriteState, WriteStepView) {
    if s.data.len() == 0 {
        write_settle(s)
    } else {
        (in_phase(s, WritePhase::Writing), WriteStepView::Ask(write_request(s, 0)))
    }
}

/// What follows when writing failed: a file that this write created is
/// removed again, and the write ends with `WriteFailed`.
pub open spec fn write_fail(s: WriteState) -> (WriteState, WriteStepView) {
    if s.created {
        (
            in_phase(s, WritePhase::Removing),
            WriteStepView::Ask(
                RequestView::Remove { parent: s.parent, name: file_name_of(s.path) },
            ),
        )
    } else {
        write_stop(s, Err(RawFsError::WriteFailed))
    }
}

/// The state `s` with the file known to be `inode`.
pub open spec fn with_inode(
    s: WriteState,
    inode: u32,
    created: bool,
    prior_size: u64,
) -> WriteState {
    WriteState {
        path: s.path,
        data: s.data,
        phase: s.phase,
        inode,
        parent: s.parent,
        created,
        prior_size,
        written: 0,
    }
}

/// The state `s` with the directory of the file known to be `parent`, in the
/// phase of creating.
pub open spec fn creating_in(s: WriteState, parent: u32) -> WriteState {
    WriteState {
        path: s.path,
        data: s.data,
        phase: WritePhase::Creating,
        inode: s.inode,
        parent,
        created: s.created,
        prior_size: s.prior_size,
        written: s.written,
    }
}

/// How a write goes on after `reply`.
///
/// * While resolving: a file that is found is sized next. One that is not
///   found is created in the directory part of the path, which is the root
///   for a path without one; a path that ends in a slash names no file, and
///   the write ends with `CreateFailed`. Any other reply ends the write with
///   `IoError`.
/// * While resolving the directory or creating: anything but an inode ends
///   the write with `CreateFailed`.
/// * While sizing: a directory is not written to.
/// * While writing: each answer must report at least one byte written and no
///   more than were handed over; what is left is handed over again from where
///   the engine stopped.
/// * A reply to a write that has ended ends it with `IoError`.
pub open spec fn write_next(s: WriteState, reply: ReplyView) -> (WriteState, WriteStepView) {
    match (s.phase, reply) {
        (WritePhase::Resolving, ReplyView::Inode(i)) => (
            in_phase(with_inode(s, i, false, 0), WritePhase::Sizing),
            WriteStepView::Ask(RequestView::Stat { inode: i }),
        ),
        (WritePhase::Resolving, ReplyView::NotFound) => if file_name_of(s.path).len() == 0 {
            write_stop(s, Err(RawFsError::CreateFailed))
        } else if is_root(parent_of(s.path)) {
            (creating_in(s, ROOT_INODE), WriteStepView::Ask(create_request(s, ROOT_INODE)))
        } else {
            (
                in_phase(s, WritePhase::ResolvingParent),
                WriteStepView::Ask(lookup(parent_of(s.path))),
            )
        },
        (WritePhase::Resolving, _) => write_stop(s, Err(RawFsError::IoError)),
        (WritePhase::ResolvingParent, ReplyView::Inode(p)) => (
            creating_in(s, p),
            WriteStepView::Ask(create_request(s, p)),
        ),
        (WritePhase::ResolvingParent, _) => write_stop(s, Err(RawFsError::CreateFailed)),
        (WritePhase::Creating, ReplyView::Inode(i)) => write_begin(with_inode(s, i, true, 0)),
        (WritePhase::Creating, _) => write_stop(s, Err(RawFsError::CreateFailed)),
        (WritePhase::Sizing, ReplyView::Stat(stat)) => if stat.is_dir {
            write_stop(s, Err(RawFsError::WriteFailed))
        } else {
            write_begin(with_inode(s, s.inode, false, stat.size))
        },
        (WritePhase::Sizing, _) => write_stop(s, Err(RawFsError::WriteFailed)),
        (WritePhase::Writing, ReplyView::Written(n)) => {
            let remaining = s.data.len() - s.written;
            if n == 0 || n > remaining {
                write_fail(s)
            } else if n == remaining {
                write_settle(s)
            } else {
                (
                    WriteState {
                        path: s.path,
                        data: s.data,
                        phase: WritePhase::Writing,
                        inode: s.inode,
                        parent: s.parent,
                        created: s.created,
                        prior_size: s.prior_size,
                        written: s.written + n,
                    },
                    WriteStepView::Ask(write_request(s, s.written + n)),
                )
            }
        },
        (WritePhase::Writing, _) => write_fail(s),
        (WritePhase::Truncating, ReplyView::Completed) => write_stop(s, Ok(())),
        (WritePhase::Truncating, _) => write_stop(s, Err(RawFsError::WriteFailed)),
        (WritePhase::Removing, _) => write_stop(s, Err(RawFsError::WriteFailed)),
        (WritePhase::Finished, _) => write_stop(s, Err(RawFsError::IoError)),
    }
}

impl View for WriteFile {
    type V = WriteState;

    closed spec fn view(&self) -> WriteState {
        WriteState {
            path: self.path@,
            data: self.data@,
            phase: self.phase,
            inode: self.inode,
            parent: self.parent,
            created: self.created,
            prior_size: self.prior_size,
            written: self.written as int,
        }
    }
}

/// Begins to write `data` to the file at `relative_path`: gives the write and
/// its first request.
pub fn write_file_raw(relative_path: &str, data: &[u8]) -> (begun: (WriteFile, WriteStep))
    ensures
        (begun.0@, begun.1@) == write_start(relative_path@, data@),
        write_wf(begun.0@),
{
    let data = slice_to_vec(data);
    assert(data.len() == data@.len());
    if is_root_path(relative_path) {
        (
            WriteFile {
                path: relative_path.to_owned(),
                data,
                phase: WritePhase::Sizing,
                inode: ROOT_INODE,
                parent: 0,
                created: false,
                prior_size: 0,
                written: 0,
            },
            WriteStep::Ask(Request::Stat { inode: ROOT_INODE }),
        )
    } else {
        (
            WriteFile {
                path: relative_path.to_owned(),
                data,
                phase: WritePhase::Resolving,
                inode: 0,
                parent: 0,
                created: false,
                prior_size: 0,
                written: 0,
            },
            WriteStep::Ask(lookup_request(relative_path)),
        )
    }
}

impl WriteFile {
    #[verifier::type_invariant]
    closed spec fn inv(&self) -> bool {
        write_wf(self@)
    }

    /// Whether the write has ended.
    pub fn is_finished(&self) -> (b: bool)
        ensures
            b == (self@.phase == WritePhase::Finished),
    {
        self.phase == WritePhase::Finished
    }

    /// The same write in another phase.
    fn enter(self, phase: WritePhase) -> (next: WriteFile)
        requires
            write_wf(in_phase(self@, phase)),
        ensures
            next@ == in_phase(self@, phase),
    {
        WriteFile {
            path: self.path,
            data: self.data,
            phase,
            inode: self.inode,
            parent: self.parent,
            created: self.created,
            prior_size: self.prior_size,
            written: self.written,
        }
    }

    /// A write that has ended with `result`.
    fn stop(self, result: Result<(), RawFsError>) -> (next: (WriteFile, WriteStep))
        ensures
            (next.0@, next.1@) == write_stop(self@, result),
            write_wf(next.0@),
    {
        proof {
            use_type_invariant(&self);
        }
        (self.enter(WritePhase::Finished), WriteStep::Finished(result))
    }

    /// The request to hand over what is left of the data.
    fn rest_request(&self, written: usize) -> (req: Request)
        requires
            written <= self@.data.len(),
        ensures
            req@ == write_request(self@, written as int),
    {
        let rest = slice_to_vec(slice_subrange(self.data.as_slice(), written, self.data.len()));
        Request::WriteAt { inode: self.inode, offset: written as u64, data: rest }
    }

    /// The request to create the file in `parent`.
    fn creation(&self, parent: u32) -> (req: Request)
        ensures
            req@ == create_request(self@, parent),
    {
        let (_, name) = split_path(self.path.as_str());
        Request::Create { parent, name, mode: NEW_FILE_MODE }
    }

    /// Cuts the file down if it was longer before, else ends the write.
    fn settle(self) -> (next: (WriteFile, WriteStep))
        ensures
            (next.0@, next.1@) == write_settle(self@),
            write_wf(next.0@),
    {
        proof {
            use_type_invariant(&self);
        }
        let len: u64 = self.data.len() as u64;
        if self.prior_size > len {
            let inode: u32 = self.inode;
            (
                self.enter(WritePhase::Truncating),
                WriteStep::Ask(Request::Truncate { inode, size: len }),
            )
        } else {
            self.stop(Ok(()))
        }
    }

    /// Starts to write once the inode is known.
    fn begin(self) -> (next: (WriteFile, WriteStep))
        requires
            self@.written == 0,
        ensures
            (next.0@, next.1@) == write_begin(self@),
            write_wf(next.0@),
    {
        proof {
            use_type_invariant(&self);
        }
        if self.data.len() == 0 {
            self.settle()
        } else {
            let req = self.rest_request(0);
            (self.enter(WritePhase::Writing), WriteStep::Ask(req))
        }
    }

    /// Removes what this write created, or ends the write at once.
    fn fail(self) -> (next: (WriteFile, WriteStep))
        ensures
            (next.0@, next.1@) == write_fail(self@),
            write_wf(next.0@),
    {
        proof {
            use_type_invariant(&self);
        }
        if self.created {
            let (_, name) = split_path(self.path.as_str());
            let parent: u32 = self.parent;
            (self.enter(WritePhase::Removing), WriteStep::Ask(Request::Remove { parent, name }))
        } else {
            self.stop(Err(RawFsError::WriteFailed))
        }
    }

    /// The same write with the file known to be `inode`.
    fn known(self, inode: u32, created: bool, prior_size: u64) -> (next: WriteFile)
        requires
            self@.phase != WritePhase::Writing,
            self@.phase == WritePhase::Removing ==> created,
        ensures
            next@ == with_inode(self@, inode, created, prior_size),
    {
        proof {
            use_type_invariant(&self);
        }
        WriteFile {
            path: self.path,
            data: self.data,
            phase: self.phase,
            inode,
            parent: self.parent,
            created,
            prior_size,
            written: 0,
        }
    }

    /// The same write, about to create the file in `parent`.
    fn create_in(self, parent: u32) -> (next: (WriteFile, WriteStep))
        ensures
            (next.0@, next.1@) == (
                creating_in(self@, parent),
                WriteStepView::Ask(create_request(self@, parent)),
            ),
            write_wf(next.0@),
    {
        proof {
            use_type_invariant(&self);
        }
        let req = self.creation(parent);
        (
            WriteFile {
                path: self.path,
                data: self.data,
                phase: WritePhase::Creating,
                inode: self.inode,
                parent,
                created: self.created,
                prior_size: self.prior_size,
                written: self.written,
            },
            WriteStep::Ask(req),
        )
    }

    /// Takes the engine's answer to the last request and decides how the
    /// write goes on.
    pub fn step(self, reply: Reply) -> (next: (WriteFile, WriteStep))
        ensures
            (next.0@, next.1@) == write_next(self@, reply@),
            write_wf(next.0@),
            next.1 is Ask ==> next.0@.phase != WritePhase::Finished && nearer(
                write_distance(next.0@),
                write_distance(self@),
            ),
    {
        proof {
            use_type_invariant(&self);
        }
        match (self.phase, reply) {
            (WritePhase::Resolving, Reply::Inode(i)) => {
                let machine = self.known(i, false, 0).enter(WritePhase::Sizing);
                (machine, WriteStep::Ask(Request::Stat { inode: i }))
            },
            (WritePhase::Resolving, Reply::NotFound) => {
                let (parent, name) = split_path(self.path.as_str());
                if name.as_str().unicode_len() == 0 {
                    self.stop(Err(RawFsError::CreateFailed))
                } else if is_root_path(parent.as_str()) {
                    self.create_in(ROOT_INODE)
                } else {
                    let req = lookup_request(parent.as_str());
                    (self.enter(WritePhase::ResolvingParent), WriteStep::Ask(req))
                }
            },
            (WritePhase::Resolving, _) => self.stop(Err(RawFsError::IoError)),
            (WritePhase::ResolvingParent, Reply::Inode(p)) => self.create_in(p),
            (WritePhase::ResolvingParent, _) => self.stop(Err(RawFsError::CreateFailed)),
            (WritePhase::Creating, Reply::Inode(i)) => self.known(i, true, 0).begin(),
            (WritePhase::Creating, _) => self.stop(Err(RawFsError::CreateFailed)),
            (WritePhase::Sizing, Reply::Stat(stat)) => {
                if stat.is_dir {
                    self.stop(Err(RawFsError::WriteFailed))
                } else {
                    let inode: u32 = self.inode;
                    self.known(inode, false, stat.size).begin()
                }
            },
            (WritePhase::Sizing, _) => self.stop(Err(RawFsError::WriteFailed)),
            (WritePhase::Writing, Reply::Written(n)) => {
                let remaining: usize = self.data.len() - self.written;
                if n == 0 || n > remaining {
                    self.fail()
                } else if n == remaining {
                    self.settle()
                } else {
                    let written: usize = self.written + n;
                    let req = self.rest_request(written);
                    (
                        WriteFile {
                            path: self.path,
                            data: self.data,
                            phase: WritePhase::Writing,
                            inode: self.inode,
                            parent: self.parent,
                            created: self.created,
                            prior_size: self.prior_size,
                            written,
                        },
                        WriteStep::Ask(req),
                    )
                }
            },
            (WritePhase::Writing, _) => self.fail(),
            (WritePhase::Truncating, Reply::Completed) => self.stop(Ok(())),
            (WritePhase::Truncating, _) => self.stop(Err(RawFsError::WriteFailed)),
            (WritePhase::Removing, _) => self.stop(Err(RawFsError::WriteFailed)),
            (WritePhase::Finished, _) => self.stop(Err(RawFsError::IoError)),
        }
    }
}

/// Stepping keeps a write well-formed.
pub proof fn lemma_write_stays_well_formed(s: WriteState, reply: ReplyView)
    requires
        write_wf(s),
    ensures
        write_wf(write_next(s, reply).0),
{
}

/// The engine is asked to cut a file down only to the length of the data, and
/// only if the file was longer before the write.
pub proof fn lemma_truncation_shortens(s: WriteState, reply: ReplyView)
    requires
        write_wf(s),
    ensures
        write_next(s, reply).1 matches WriteStepView::Ask(
            RequestView::Truncate { inode, size },
        ) ==> {
            &&& size == s.data.len()
            &&& size < write_next(s, reply).0.prior_size
            &&& inode == write_next(s, reply).0.inode
        },
{
}

/// Every request brings a write nearer to its end, whatever the engine
/// answers: no run of a write goes on for ever.
pub proof fn lemma_write_advances(s: WriteState, reply: ReplyView)
    requires
        write_wf(s),
    ensures
        write_next(s, reply).1 is Ask ==> nearer(
            write_distance(write_next(s, reply).0),
            write_distance(s),
        ),
{
}

} // verus!
