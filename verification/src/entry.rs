//! Directory entries as they are handed to the presentation layer, and the
//! path rules that the access layer follows.

use vstd::prelude::*;
use vstd::string::{StrSliceExecFns, StringExecFns};
use crate::text::push_char;

verus! {

/// What the decode engine reports of one inode.
#[derive(Debug, Clone, Copy, PartialEq, Eq, Structural)]
pub struct InodeStat {
    /// Size of the contents in bytes.
    pub size: u64,
    /// Whether the inode is a directory.
    pub is_dir: bool,
    /// The mode word: file type and permission bits.
    pub mode_bits: u32,
    /// Time of the last modification, in seconds since the epoch.
    pub mtime: u64,
}

/// One entry of a directory listing.
#[derive(Debug)]
pub struct FileMetadata {
    pub name: String,
    pub size: u64,
    pub is_dir: bool,
    pub last_modified: u64,
    /// Path of the entry inside the partition.
    pub path: String,
    /// Nine characters in the manner of `rwxr-xr-x`.
    pub permissions: String,
}

/// What a [`FileMetadata`] holds, with its texts as character sequences.
pub struct EntryView {
    pub name: Seq<char>,
    pub size: u64,
    pub is_dir: bool,
    pub last_modified: u64,
    pub path: Seq<char>,
    pub permissions: Seq<char>,
}

impl View for FileMetadata {
    type V = EntryView;

    open spec fn view(&self) -> EntryView {
        EntryView {
            name: self.name@,
            size: self.size,
            is_dir: self.is_dir,
            last_modified: self.last_modified,
            path: self.path@,
            permissions: self.permissions@,
        }
    }
}

impl DeepView for FileMetadata {
    type V = EntryView;

    open spec fn deep_view(&self) -> EntryView {
        self@
    }
}

/// The character for one permission bit: `symbol` if the bit is set in
/// `mode`, else a dash.
pub open spec fn permission_flag(mode: u32, bit: u32, symbol: char) -> char {
    if mode & bit != 0 {
        symbol
    } else {
        '-'
    }
}

/// The nine permission characters of a mode word: read, write and execute for
/// the owner, the group and the others.
pub open spec fn permission_chars(mode: u32) -> Seq<char> {
    seq![
        permission_flag(mode, 0o400, 'r'),
        permission_flag(mode, 0o200, 'w'),
        permission_flag(mode, 0o100, 'x'),
        permission_flag(mode, 0o040, 'r'),
        permission_flag(mode, 0o020, 'w'),
        permission_flag(mode, 0o010, 'x'),
        permission_flag(mode, 0o004, 'r'),
        permission_flag(mode, 0o002, 'w'),
        permission_flag(mode, 0o001, 'x'),
    ]
}

/// Picks the character for one permission bit.
fn flag_char(mode: u32, bit: u32, symbol: char) -> (c: char)
    ensures
        c == permission_flag(mode, bit, symbol),
{
    if mode & bit != 0 {
        symbol
    } else {
        '-'
    }
}

/// Renders the permission bits of a mode word.
pub fn permissions_string(mode: u32) -> (s: String)
    ensures
        s@ == permission_chars(mode),
{
    let mut s = String::new();
    push_char(&mut s, flag_char(mode, 0o400, 'r'));
    push_char(&mut s, flag_char(mode, 0o200, 'w'));
    push_char(&mut s, flag_char(mode, 0o100, 'x'));
    push_char(&mut s, flag_char(mode, 0o040, 'r'));
    push_char(&mut s, flag_char(mode, 0o020, 'w'));
    push_char(&mut s, flag_char(mode, 0o010, 'x'));
    push_char(&mut s, flag_char(mode, 0o004, 'r'));
    push_char(&mut s, flag_char(mode, 0o002, 'w'));
    push_char(&mut s, flag_char(mode, 0o001, 'x'));
    assert(s@ =~= permission_chars(mode));
    s
}

/// Whether a name is one of the two pseudo-entries of a directory, the
/// directory itself and its parent.
pub open spec fn is_pseudo_name(name: Seq<char>) -> bool {
    name == seq!['.'] || name == seq!['.', '.']
}

/// Tells the entries `.` and `..` from real ones.
pub fn is_pseudo_entry(name: &str) -> (b: bool)
    ensures
        b == is_pseudo_name(name@),
{
    let n: usize = name.unicode_len();
    if n == 1 {
        let b = name.get_char(0) == '.';
        proof {
            if b {
                assert(name@ =~= seq!['.']);
            } else {
                assert(seq!['.'][0] == '.');
            }
        }
        b
    } else if n == 2 {
        let b = name.get_char(0) == '.' && name.get_char(1) == '.';
        proof {
            if b {
                assert(name@ =~= seq!['.', '.']);
            } else {
                assert(seq!['.', '.'][0] == '.' && seq!['.', '.'][1] == '.');
            }
        }
        b
    } else {
        proof {
            assert(seq!['.'].len() == 1);
            assert(seq!['.', '.'].len() == 2);
        }
        false
    }
}

/// Whether a path names the root directory: the empty path or a single slash.
pub open spec fn is_root(path: Seq<char>) -> bool {
    path.len() == 0 || path == seq!['/']
}

/// Tells whether a path names the root directory.
pub fn is_root_path(path: &str) -> (b: bool)
    ensures
        b == is_root(path@),
{
    let n: usize = path.unicode_len();
    if n == 0 {
        true
    } else if n == 1 {
        let b = path.get_char(0) == '/';
        proof {
            if b {
                assert(path@ =~= seq!['/']);
            } else {
                assert(seq!['/'][0] == '/');
            }
        }
        b
    } else {
        proof {
            assert(seq!['/'].len() == 1);
        }
        false
    }
}

/// The path of the entry `name` of the directory `dir`: the two joined by one
/// slash.
pub open spec fn child_path(dir: Seq<char>, name: Seq<char>) -> Seq<char> {
    if dir.len() > 0 && dir.last() == '/' {
        dir + name
    } else {
        dir + seq!['/'] + name
    }
}

/// Joins a directory path and an entry name.
pub fn join_path(dir: &str, name: &str) -> (path: String)
    ensures
        path@ == child_path(dir@, name@),
{
    let n: usize = dir.unicode_len();
    let mut path = String::from_str(dir);
    if n == 0 || dir.get_char(n - 1) != '/' {
        push_char(&mut path, '/');
        assert(dir@.push('/') =~= dir@ + seq!['/']);
    }
    path.append(name);
    path
}

/// The position of the last slash of a path, or -1 if it has none.
pub open spec fn last_slash(path: Seq<char>) -> int
    decreases path.len(),
{
    if path.len() == 0 {
        -1
    } else if path.last() == '/' {
        path.len() - 1
    } else {
        last_slash(path.drop_last())
    }
}

/// The directory part of a path: what stands before its last slash, and
/// nothing if it has no slash.
pub open spec fn parent_of(path: Seq<char>) -> Seq<char> {
    if last_slash(path) < 0 {
        Seq::empty()
    } else {
        path.subrange(0, last_slash(path))
    }
}

/// The last component of a path: what stands after its last slash.
pub open spec fn file_name_of(path: Seq<char>) -> Seq<char> {
    path.subrange(last_slash(path) + 1, path.len() as int)
}

/// The last slash lies inside the path, it is a slash, and no slash follows
/// it.
pub proof fn lemma_last_slash(path: Seq<char>)
    ensures
        -1 <= last_slash(path) < path.len(),
        last_slash(path) >= 0 ==> path[last_slash(path)] == '/',
        forall|i: int| last_slash(path) < i < path.len() ==> path[i] != '/',
    decreases path.len(),
{
    if path.len() > 0 && path.last() != '/' {
        let shorter = path.drop_last();
        lemma_last_slash(shorter);
        assert forall|i: int| last_slash(path) < i < path.len() implies path[i] != '/' by {
            if i < path.len() - 1 {
                assert(shorter[i] == path[i]);
            }
        }
    }
}

/// A position that holds a slash, with no slash after it, is the last slash.
pub proof fn lemma_last_slash_at(path: Seq<char>, k: int)
    requires
        -1 <= k < path.len(),
        k >= 0 ==> path[k] == '/',
        forall|i: int| k < i < path.len() ==> path[i] != '/',
    ensures
        last_slash(path) == k,
{
    lemma_last_slash(path);
}

/// The names that a path is made of, in order: what stands between its
/// slashes, without the empty pieces.
pub open spec fn components(path: Seq<char>) -> Seq<Seq<char>>
    decreases path.len(),
{
    if path.len() == 0 {
        Seq::empty()
    } else {
        proof {
            lemma_last_slash(path);
        }
        if file_name_of(path).len() == 0 {
            components(parent_of(path))
        } else {
            components(parent_of(path)).push(file_name_of(path))
        }
    }
}

/// A path that names the root directory has no components.
pub proof fn lemma_root_has_no_components(path: Seq<char>)
    requires
        is_root(path),
    ensures
        components(path) == Seq::<Seq<char>>::empty(),
{
    if path.len() > 0 {
        assert(path[0] == '/');
        lemma_last_slash_at(path, 0);
        assert(file_name_of(path).len() == 0);
        assert(parent_of(path).len() == 0);
        reveal_with_fuel(components, 2);
    }
}

/// A path that names the root directory has no last component.
pub proof fn lemma_root_names_no_file(path: Seq<char>)
    requires
        is_root(path),
    ensures
        file_name_of(path).len() == 0,
{
    if path.len() > 0 {
        assert(path[0] == '/');
        lemma_last_slash_at(path, 0);
    }
}

/// A path with a last component is made of the components of its directory
/// part and that last component.
pub proof fn lemma_components_of_child(path: Seq<char>)
    requires
        file_name_of(path).len() > 0,
    ensures
        components(path) == components(parent_of(path)).push(file_name_of(path)),
{
}

/// Splits a path at its last slash into the directory part and the last
/// component.
pub fn split_path(path: &str) -> (parts: (String, String))
    ensures
        parts.0@ == parent_of(path@),
        parts.1@ == file_name_of(path@),
{
    let n: usize = path.unicode_len();
    let mut i: usize = n;
    while i > 0 && path.get_char(i - 1) != '/'
        invariant
            i <= n,
            n == path@.len(),
            forall|j: int| i <= j < n ==> path@[j] != '/',
        decreases i,
    {
        i -= 1;
    }
    proof {
        lemma_last_slash_at(path@, i - 1);
    }
    let name = path.substring_char(i, n).to_owned();
    let parent = if i == 0 {
        String::new()
    } else {
        path.substring_char(0, i - 1).to_owned()
    };
    (parent, name)
}

/// The entry of a directory listing for the child `name` of the directory
/// `dir`, described by `stat`.
pub open spec fn entry_of(dir: Seq<char>, name: Seq<char>, stat: InodeStat) -> EntryView {
    EntryView {
        name,
        size: stat.size,
        is_dir: stat.is_dir,
        last_modified: stat.mtime,
        path: child_path(dir, name),
        permissions: permission_chars(stat.mode_bits),
    }
}

/// Builds the listing entry of a child from what the engine reports of its
/// inode. Whether the entry is a directory comes from there and from nowhere
/// else.
pub fn entry_from_stat(dir: &str, name: &str, stat: InodeStat) -> (entry: FileMetadata)
    ensures
        entry@ == entry_of(dir@, name@, stat),
{
    FileMetadata {
        name: String::from_str(name),
        size: stat.size,
        is_dir: stat.is_dir,
        last_modified: stat.mtime,
        path: join_path(dir, name),
        permissions: permissions_string(stat.mode_bits),
    }
}

} // verus!
