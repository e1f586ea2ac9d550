//! Reading a whole file through the decode engine.
//!
//! The path is resolved unless it names the root, the size of the file is
//! taken from the engine's description of the inode, and exactly that many
//! bytes are read from offset zero on, in as many reads as it takes. What is
//! handed out has the size that the engine reported, without padding.

use vstd::prelude::*;
use crate::engine::{
    lookup, lookup_request, nearer, Reply, ReplyView, Request, RequestView, READ_CHUNK,
    ROOT_INODE,
};
use crate::entry::{is_root, is_root_path};
use crate::error::RawFsError;

verus! {

/// Where a read stands.
#[derive(Debug, Clone, Copy, PartialEq, Eq, Structural)]
pub enum ReadPhase {
    /// The path is being resolved.
    Resolving,
    /// The size of the file is being asked for.
    Sizing,
    /// The contents are being read.
    Reading,
    /// The read has ended.
    Finished,
}

/// A read in progress.
#[derive(Debug)]
pub struct ReadFile {
    path: String,
    phase: ReadPhase,
    inode: u32,
    size: usize,
    data: Vec<u8>,
}

/// What a [`ReadFile`] holds.
pub struct ReadState {
    pub path: Seq<char>,
    pub phase: ReadPhase,
    pub inode: u32,
    /// The size that the engine reported.
    pub size: usize,
    /// The bytes read so far.
    pub data: Seq<u8>,
}

/// What a read does next.
#[derive(Debug)]
pub enum ReadStep {
    /// The engine is to perform this request.
    Ask(Request),
    /// The read has ended with this result.
    Finished(Result<Vec<u8>, RawFsError>),
}

/// What a [`ReadStep`] holds, with texts and bytes as sequences.
pub enum ReadStepView {
    Ask(RequestView),
    Finished(Result<Seq<u8>, RawFsError>),
}

impl View for ReadStep {
    type V = ReadStepView;

    open spec fn view(&self) -> ReadStepView {
        match self {
            ReadStep::Ask(req) => ReadStepView::Ask(req@),
            ReadStep::Finished(Ok(bytes)) => ReadStepView::Finished(Ok(bytes@)),
            ReadStep::Finished(Err(e)) => ReadStepView::Finished(Err(*e)),
        }
    }
}

/// The number of bytes to ask for when `remaining` are still to come.
pub open spec fn chunk_len(remaining: int) -> usize {
    if remaining < READ_CHUNK {
        remaining as usize
    } else {
        READ_CHUNK
    }
}

/// The bytes read so far never exceed the reported size, and while reading
/// some are still to come.
pub open spec fn read_wf(s: ReadState) -> bool {
    &&& s.data.len() <= s.size
    &&& s.phase == ReadPhase::Reading ==> s.data.len() < s.size
}

/// How far a read is from its end: the phases still to pass, and within the
/// last of them the bytes still to come.
pub open spec fn read_distance(s: ReadState) -> (nat, nat) {
    match s.phase {
        ReadPhase::Resolving => (3, 0),
        ReadPhase::Sizing => (2, 0),
        ReadPhase::Reading => (1, (s.size - s.data.len()) as nat),
        ReadPhase::Finished => (0, 0),
    }
}

/// The state and the first request of a read of `path`. The empty path and
/// `/` stand for the root directory, which needs no resolving.
pub open spec fn read_start(path: Seq<char>) -> (ReadState, ReadStepView) {
    if is_root(path) {
        (
            ReadState {
                path,
                phase: ReadPhase::Sizing,
                inode: ROOT_INODE,
                size: 0,
                data: Seq::empty(),
            },
            ReadStepView::Ask(RequestView::Stat { inode: ROOT_INODE }),
        )
    } else {
        (
            ReadState { path, phase: ReadPhase::Resolving, inode: 0, size: 0, data: Seq::empty() },
            ReadStepView::Ask(lookup(path)),
        )
    }
}

/// The end of a read with `result`.
pub open spec fn read_stop(s: ReadState, result: Result<Seq<u8>, RawFsError>) -> (
    ReadState,
    ReadStepView,
) {
    (
        ReadState {
            path: s.path,
            phase: ReadPhase::Finished,
            inode: s.inode,
            size: s.size,
            data: Seq::empty(),
        },
        ReadStepView::Finished(result),
    )
}

/// How a read goes on after `reply`.
///
/// A path that leads nowhere ends the read with `PathNotFound`. A file of size
/// zero is read without asking for bytes. Each answer to a read must bring at
/// least one byte and no more than were asked for; the read ends when the
/// reported size is reached. Any other reply, and any reply to a read that has
/// ended, ends it with `IoError`.
pub open spec fn read_next(s: ReadState, reply: ReplyView) -> (ReadState, ReadStepView) {
    match (s.phase, reply) {
        (ReadPhase::Resolving, ReplyView::Inode(i)) => (
            ReadState {
                path: s.path,
                phase: ReadPhase::Sizing,
                inode: i,
                size: 0,
                data: Seq::empty(),
            },
            ReadStepView::Ask(RequestView::Stat { inode: i }),
        ),
        (ReadPhase::Resolving, ReplyView::NotFound) => read_stop(
            s,
            Err(RawFsError::PathNotFound),
        ),
        (ReadPhase::Sizing, ReplyView::Stat(stat)) => if stat.size > usize::MAX {
            read_stop(s, Err(RawFsError::IoError))
        } else if stat.size == 0 {
            read_stop(s, Ok(Seq::empty()))
        } else {
            (
                ReadState {
                    path: s.path,
                    phase: ReadPhase::Reading,
                    inode: s.inode,
                    size: stat.size as usize,
                    data: Seq::empty(),
                },
                ReadStepView::Ask(
                    RequestView::ReadAt {
                        inode: s.inode,
                        offset: 0,
                        len: chunk_len(stat.size as int),
                    },
                ),
            )
        },
        (ReadPhase::Reading, ReplyView::Data(bytes)) => {
            let remaining = s.size - s.data.len();
            if bytes.len() == 0 || bytes.len() > chunk_len(remaining) {
                read_stop(s, Err(RawFsError::IoError))
            } else if bytes.len() == remaining {
                read_stop(s, Ok(s.data + bytes))
            } else {
                (
                    ReadState {
                        path: s.path,
                        phase: ReadPhase::Reading,
                        inode: s.inode,
                        size: s.size,
                        data: s.data + bytes,
                    },
                    ReadStepView::Ask(
                        RequestView::ReadAt {
                            inode: s.inode,
                            offset: (s.data.len() + bytes.len()) as u64,
                            len: chunk_len(remaining - bytes.len()),
                        },
                    ),
                )
            }
        },
        _ => read_stop(s, Err(RawFsError::IoError)),
    }
}

impl View for ReadFile {
    type V = ReadState;

    closed spec fn view(&self) -> ReadState {
        ReadState {
            path: self.path@,
            phase: self.phase,
            inode: self.inode,
            size: self.size,
            data: self.data@,
        }
    }
}

/// The number of bytes to ask for when `remaining` are still to come.
fn next_chunk(remaining: usize) -> (len: usize)
    ensures
        len == chunk_len(remaining as int),
{
    if remaining < READ_CHUNK {
        remaining
    } else {
        READ_CHUNK
    }
}

/// Begins to read the file at `relative_path`: gives the read and its first
/// request.
pub fn read_file_raw(relative_path: &str) -> (begun: (ReadFile, ReadStep))
    ensures
        (begun.0@, begun.1@) == read_start(relative_path@),
        read_wf(begun.0@),
{
    if is_root_path(relative_path) {
        (
            ReadFile {
                path: relative_path.to_owned(),
                phase: ReadPhase::Sizing,
                inode: ROOT_INODE,
                size: 0,
                data: Vec::new(),
            },
            ReadStep::Ask(Request::Stat { inode: ROOT_INODE }),
        )
    } else {
        (
            ReadFile {
                path: relative_path.to_owned(),
                phase: ReadPhase::Resolving,
                inode: 0,
                size: 0,
                data: Vec::new(),
            },
            ReadStep::Ask(lookup_request(relative_path)),
        )
    }
}

impl ReadFile {
    #[verifier::type_invariant]
    closed spec fn inv(&self) -> bool {
        read_wf(self@)
    }

    /// Whether the read has ended.
    pub fn is_finished(&self) -> (b: bool)
        ensures
            b == (self@.phase == ReadPhase::Finished),
    {
        self.phase == ReadPhase::Finished
    }

    /// A read that has ended with `result`.
    fn stop(self, result: Result<Vec<u8>, RawFsError>) -> (next: (ReadFile, ReadStep))
        ensures
            (next.0@, next.1@) == read_stop(
                self@,
                match result {
                    Ok(bytes) => Ok(bytes@),
                    Err(e) => Err(e),
                },
            ),
    {
        (
            ReadFile {
                path: self.path,
                phase: ReadPhase::Finished,
                inode: self.inode,
                size: self.size,
                data: Vec::new(),
            },
            ReadStep::Finished(result),
        )
    }

    /// Takes the engine's answer to the last request and decides how the read
    /// goes on.
    ///
    /// Bytes are handed out only when as many were read as the engine reported
    /// for the file.
    pub fn step(self, reply: Reply) -> (next: (ReadFile, ReadStep))
        ensures
            (next.0@, next.1@) == read_next(self@, reply@),
            read_wf(next.0@),
            match next.1 {
                ReadStep::Finished(Ok(bytes)) => bytes@.len() == if self@.phase
                    == ReadPhase::Reading {
                    self@.size as int
                } else {
                    0
                },
                ReadStep::Finished(Err(_)) => true,
                ReadStep::Ask(_) => next.0@.phase != ReadPhase::Finished && nearer(
                    read_distance(next.0@),
                    read_distance(self@),
                ),
            },
    {
        proof {
            use_type_invariant(&self);
        }
        match (self.phase, reply) {
            (ReadPhase::Resolving, Reply::Inode(i)) => (
                ReadFile {
                    path: self.path,
                    phase: ReadPhase::Sizing,
                    inode: i,
                    size: 0,
                    data: Vec::new(),
                },
                ReadStep::Ask(Request::Stat { inode: i }),
            ),
            (ReadPhase::Resolving, Reply::NotFound) => self.stop(Err(RawFsError::PathNotFound)),
            (ReadPhase::Sizing, Reply::Stat(stat)) => {
                if stat.size > usize::MAX as u64 {
                    self.stop(Err(RawFsError::IoError))
                } else if stat.size == 0 {
                    self.stop(Ok(Vec::new()))
                } else {
                    let size: usize = stat.size as usize;
                    let inode: u32 = self.inode;
                    (
                        ReadFile {
                            path: self.path,
                            phase: ReadPhase::Reading,
                            inode,
                            size,
                            data: Vec::new(),
                        },
                        ReadStep::Ask(Request::ReadAt { inode, offset: 0, len: next_chunk(size) }),
                    )
                }
            },
            (ReadPhase::Reading, Reply::Data(bytes)) => {
                let remaining: usize = self.size - self.data.len();
                let got: usize = bytes.len();
                if got == 0 || got > next_chunk(remaining) {
                    self.stop(Err(RawFsError::IoError))
                } else {
                    let ReadFile { path, phase, inode, size, data } = self;
                    let mut data = data;
                    let mut bytes = bytes;
                    data.append(&mut bytes);
                    if got == remaining {
                        (
                            ReadFile {
                                path,
                                phase: ReadPhase::Finished,
                                inode,
                                size,
                                data: Vec::new(),
                            },
                            ReadStep::Finished(Ok(data)),
                        )
                    } else {
                        let offset: u64 = data.len() as u64;
                        (
                            ReadFile { path, phase: ReadPhase::Reading, inode, size, data },
                            ReadStep::Ask(
                                Request::ReadAt {
                                    inode,
                                    offset,
                                    len: next_chunk(remaining - got),
                                },
                            ),
                        )
                    }
                }
            },
            (_, _) => self.stop(Err(RawFsError::IoError)),
        }
    }
}

/// Stepping keeps a read well-formed, and a read hands out bytes only in the
/// number that the engine reported for the file.
pub proof fn lemma_read_hands_out_reported_size(s: ReadState, reply: ReplyView)
    requires
        read_wf(s),
    ensures
        read_wf(read_next(s, reply).0),
        match read_next(s, reply).1 {
            ReadStepView::Finished(Ok(bytes)) => bytes.len() == if s.phase == ReadPhase::Reading {
                s.size as int
            } else {
                0
            },
            _ => true,
        },
{
}

/// Every request brings a read nearer to its end, whatever the engine
/// answers: no run of a read goes on for ever.
pub proof fn lemma_read_advances(s: ReadState, reply: ReplyView)
    requires
        read_wf(s),
    ensures
        read_next(s, reply).1 is Ask ==> nearer(
            read_distance(read_next(s, reply).0),
            read_distance(s),
        ),
{
}

} // verus!
