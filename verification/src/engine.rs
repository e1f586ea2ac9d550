//! The conversation between the access layer and the ext4 decode engine.
//!
//! The access layer never touches the disk. It decides which operation of the
//! engine is needed next and says so in a [`Request`]; whoever drives it
//! performs the operation and hands the outcome back as a [`Reply`].

use vstd::prelude::*;
use crate::entry::InodeStat;

verus! {

/// The inode of the root directory.
pub const ROOT_INODE: u32 = 2;

/// The mode word of a newly created file: a regular file with permissions
/// `rw-r--r--`.
pub const NEW_FILE_MODE: u16 = 0o100644;

/// The most bytes asked for in one read.
pub const READ_CHUNK: usize = 65536;

/// One name in a directory, with the inode it leads to.
#[derive(Debug)]
pub struct Child {
    pub name: String,
    pub inode: u32,
}

/// What a [`Child`] holds, with its name as a character sequence.
pub struct ChildView {
    pub name: Seq<char>,
    pub inode: u32,
}

impl View for Child {
    type V = ChildView;

    open spec fn view(&self) -> ChildView {
        ChildView { name: self.name@, inode: self.inode }
    }
}

impl DeepView for Child {
    type V = ChildView;

    open spec fn deep_view(&self) -> ChildView {
        self@
    }
}

/// An operation of the decode engine that the access layer asks for.
#[derive(Debug)]
pub enum Request {
    /// Find the inode that `path` leads to, starting at the inode `parent`.
    Resolve { path: String, parent: u32, create_if_missing: bool, mode: u16 },
    /// Enumerate the names in the directory `inode`.
    ListChildren { inode: u32 },
    /// Report size, kind, mode and modification time of `inode`.
    Stat { inode: u32 },
    /// Read up to `len` bytes of `inode`, starting at `offset`.
    ReadAt { inode: u32, offset: u64, len: usize },
    /// Write `data` into `inode`, starting at `offset`.
    WriteAt { inode: u32, offset: u64, data: Vec<u8> },
    /// Create the entry `name` in the directory `parent`.
    Create { parent: u32, name: String, mode: u16 },
    /// Cut the contents of `inode` down to `size` bytes.
    Truncate { inode: u32, size: u64 },
    /// Remove the entry `name` from the directory `parent`.
    Remove { parent: u32, name: String },
}

/// What a [`Request`] holds, with texts and bytes as sequences.
pub enum RequestView {
    Resolve { path: Seq<char>, parent: u32, create_if_missing: bool, mode: u16 },
    ListChildren { inode: u32 },
    Stat { inode: u32 },
    ReadAt { inode: u32, offset: u64, len: usize },
    WriteAt { inode: u32, offset: u64, data: Seq<u8> },
    Create { parent: u32, name: Seq<char>, mode: u16 },
    Truncate { inode: u32, size: u64 },
    Remove { parent: u32, name: Seq<char> },
}

impl View for Request {
    type V = RequestView;

    open spec fn view(&self) -> RequestView {
        match self {
            Request::Resolve { path, parent, create_if_missing, mode } => RequestView::Resolve {
                path: path@,
                parent: *parent,
                create_if_missing: *create_if_missing,
                mode: *mode,
            },
            Request::ListChildren { inode } => RequestView::ListChildren { inode: *inode },
            Request::Stat { inode } => RequestView::Stat { inode: *inode },
            Request::ReadAt { inode, offset, len } => RequestView::ReadAt {
                inode: *inode,
                offset: *offset,
                len: *len,
            },
            Request::WriteAt { inode, offset, data } => RequestView::WriteAt {
                inode: *inode,
                offset: *offset,
                data: data@,
            },
            Request::Create { parent, name, mode } => RequestView::Create {
                parent: *parent,
                name: name@,
                mode: *mode,
            },
            Request::Truncate { inode, size } => RequestView::Truncate {
                inode: *inode,
                size: *size,
            },
            Request::Remove { parent, name } => RequestView::Remove {
                parent: *parent,
                name: name@,
            },
        }
    }
}

/// The outcome of an operation of the decode engine.
#[derive(Debug)]
pub enum Reply {
    /// The inode that was found or created.
    Inode(u32),
    /// The path leads nowhere.
    NotFound,
    /// The names in a directory, pseudo-entries included.
    Children(Vec<Child>),
    /// The description of an inode.
    Stat(InodeStat),
    /// The bytes that were read.
    Data(Vec<u8>),
    /// The number of bytes that were written.
    Written(usize),
    /// The operation was carried out and has nothing to report.
    Completed,
    /// The engine or the device below it failed.
    Failed,
}

/// What a [`Reply`] holds, with texts and bytes as sequences.
pub enum ReplyView {
    Inode(u32),
    NotFound,
    Children(Seq<ChildView>),
    Stat(InodeStat),
    Data(Seq<u8>),
    Written(usize),
    Completed,
    Failed,
}

impl View for Reply {
    type V = ReplyView;

    open spec fn view(&self) -> ReplyView {
        match self {
            Reply::Inode(i) => ReplyView::Inode(*i),
            Reply::NotFound => ReplyView::NotFound,
            Reply::Children(c) => ReplyView::Children(c.deep_view()),
            Reply::Stat(s) => ReplyView::Stat(*s),
            Reply::Data(d) => ReplyView::Data(d@),
            Reply::Written(n) => ReplyView::Written(*n),
            Reply::Completed => ReplyView::Completed,
            Reply::Failed => ReplyView::Failed,
        }
    }
}

/// Whether the distance `a` from the end of an operation is smaller than `b`:
/// an earlier phase was left behind, or within the phase less is left to do.
pub open spec fn nearer(a: (nat, nat), b: (nat, nat)) -> bool {
    a.0 < b.0 || (a.0 == b.0 && a.1 < b.1)
}

/// The request to find `path` from the root directory without creating
/// anything.
pub open spec fn lookup(path: Seq<char>) -> RequestView {
    RequestView::Resolve { path, parent: ROOT_INODE, create_if_missing: false, mode: 0 }
}

/// Asks for the inode that `path` leads to from the root directory.
pub fn lookup_request(path: &str) -> (req: Request)
    ensures
        req@ == lookup(path@),
{
    Request::Resolve {
        path: path.to_owned(),
        parent: ROOT_INODE,
        create_if_missing: false,
        mode: 0,
    }
}

} // verus!
