//! Small rules of the file browser: the order of a listing, the permissions
//! shown where the host knows only a read-only flag, and the names of
//! archives and of their entries.

use vstd::prelude::*;
use vstd::string::StringExecFns;
use crate::entry::FileMetadata;
use crate::text::{ends_with, has_suffix, lowercased, to_lowercase};

verus! {

/// The key by which a listing is ordered: directories come before files, and
/// within each kind the names go by their lower-case form.
pub open spec fn order_key(is_dir: bool, name: Seq<char>) -> (bool, Seq<char>) {
    (!is_dir, lowercased(name))
}

/// Gives the key by which an entry is ordered in a listing.
pub fn listing_sort_key(entry: &FileMetadata) -> (key: (bool, String))
    ensures
        (key.0, key.1@) == order_key(entry.is_dir, entry.name@),
{
    (!entry.is_dir, to_lowercase(entry.name.as_str()))
}

/// The permissions shown for a file of which only the read-only flag is
/// known.
pub open spec fn flag_permissions(readonly: bool) -> Seq<char> {
    if readonly {
        "r--r--r--"@
    } else {
        "rw-rw-rw-"@
    }
}

/// Renders the permissions of a file of which only the read-only flag is
/// known.
pub fn permissions_from_flag(readonly: bool) -> (s: String)
    ensures
        s@ == flag_permissions(readonly),
{
    if readonly {
        String::from_str("r--r--r--")
    } else {
        String::from_str("rw-rw-rw-")
    }
}

/// The file name of an archive: the name that was asked for, with `.zip`
/// added unless it ends so.
pub open spec fn archive_name(output_name: Seq<char>) -> Seq<char> {
    if ends_with(output_name, ".zip"@) {
        output_name
    } else {
        output_name + ".zip"@
    }
}

/// Gives the file name of an archive.
pub fn archive_file_name(output_name: &str) -> (name: String)
    ensures
        name@ == archive_name(output_name@),
{
    let mut name = String::from_str(output_name);
    if !has_suffix(output_name, ".zip") {
        name.append(".zip");
    }
    name
}

/// Tells whether the name of an archive entry is that of a directory: one that
/// ends in a slash.
pub fn is_directory_entry(name: &str) -> (b: bool)
    ensures
        b == ends_with(name@, "/"@),
{
    has_suffix(name, "/")
}

} // verus!
