use std::collections::HashMap;

use master_browser::engine::{Child, Reply, Request, NEW_FILE_MODE, READ_CHUNK, ROOT_INODE};
use master_browser::entry::{FileMetadata, InodeStat};
use master_browser::error::RawFsError;
use master_browser::list::{list_directory_raw, ListStep};
use master_browser::read::{read_file_raw, ReadStep};
use master_browser::write::{write_file_raw, WriteStep};

/// A small decode engine in memory, for driving the access layer.
struct Engine {
    dirs: HashMap<u32, Vec<(String, u32)>>,
    files: HashMap<u32, Vec<u8>>,
    next_inode: u32,
    /// The most bytes taken or given in one call.
    max_transfer: usize,
    /// The requests that were performed, in short.
    log: Vec<String>,
}

impl Engine {
    fn new() -> Engine {
        let mut dirs = HashMap::new();
        dirs.insert(2, vec![(".".to_string(), 2), ("..".to_string(), 2)]);
        Engine {
            dirs,
            files: HashMap::new(),
            next_inode: 11,
            max_transfer: usize::MAX,
            log: Vec::new(),
        }
    }

    fn mkdir(&mut self, parent: u32, name: &str) -> u32 {
        let inode = self.next_inode;
        self.next_inode += 1;
        self.dirs.insert(inode, vec![(".".to_string(), inode), ("..".to_string(), parent)]);
        self.dirs.get_mut(&parent).unwrap().push((name.to_string(), inode));
        inode
    }

    fn mkfile(&mut self, parent: u32, name: &str, data: &[u8]) -> u32 {
        let inode = self.next_inode;
        self.next_inode += 1;
        self.files.insert(inode, data.to_vec());
        self.dirs.get_mut(&parent).unwrap().push((name.to_string(), inode));
        inode
    }

    fn resolve(&self, path: &str, from: u32) -> Option<u32> {
        let mut at = from;
        for part in path.split('/').filter(|p| !p.is_empty()) {
            let dir = self.dirs.get(&at)?;
            at = dir.iter().find(|(n, _)| n == part)?.1;
        }
        Some(at)
    }

    fn answer(&mut self, req: Request) -> Reply {
        match req {
            Request::Resolve { path, parent, create_if_missing, mode } => {
                self.log.push(format!("resolve {} from {}", path, parent));
                assert!(!create_if_missing);
                assert_eq!(mode, 0);
                match self.resolve(&path, parent) {
                    Some(i) => Reply::Inode(i),
                    None => Reply::NotFound,
                }
            }
            Request::ListChildren { inode } => {
                self.log.push(format!("list {}", inode));
                match self.dirs.get(&inode) {
                    Some(d) => Reply::Children(
                        d.iter().map(|(n, i)| Child { name: n.clone(), inode: *i }).collect(),
                    ),
                    None => Reply::Failed,
                }
            }
            Request::Stat { inode } => {
                self.log.push(format!("stat {}", inode));
                if let Some(f) = self.files.get(&inode) {
                    Reply::Stat(InodeStat {
                        size: f.len() as u64,
                        is_dir: false,
                        mode_bits: 0o100644,
                        mtime: 1000 + inode as u64,
                    })
                } else if self.dirs.contains_key(&inode) {
                    Reply::Stat(InodeStat {
                        size: 4096,
                        is_dir: true,
                        mode_bits: 0o040755,
                        mtime: 1000 + inode as u64,
                    })
                } else {
                    Reply::Failed
                }
            }
            Request::ReadAt { inode, offset, len } => {
                self.log.push(format!("read {} at {} len {}", inode, offset, len));
                match self.files.get(&inode) {
                    Some(f) => {
                        let from = (offset as usize).min(f.len());
                        let to = from + len.min(self.max_transfer).min(f.len() - from);
                        Reply::Data(f[from..to].to_vec())
                    }
                    None => Reply::Failed,
                }
            }
            Request::WriteAt { inode, offset, data } => {
                self.log.push(format!("write {} at {} len {}", inode, offset, data.len()));
                let take = data.len().min(self.max_transfer);
                match self.files.get_mut(&inode) {
                    Some(f) => {
                        let end = offset as usize + take;
                        if f.len() < end {
                            f.resize(end, 0);
                        }
                        f[offset as usize..end].copy_from_slice(&data[..take]);
                        Reply::Written(take)
                    }
                    None => Reply::Failed,
                }
            }
            Request::Create { parent, name, mode } => {
                self.log.push(format!("create {} in {} mode {:o}", name, parent, mode));
                if !self.dirs.contains_key(&parent) {
                    return Reply::Failed;
                }
                Reply::Inode(self.mkfile(parent, &name, &[]))
            }
            Request::Truncate { inode, size } => {
                self.log.push(format!("truncate {} to {}", inode, size));
                match self.files.get_mut(&inode) {
                    Some(f) => {
                        f.truncate(size as usize);
                        Reply::Completed
                    }
                    None => Reply::Failed,
                }
            }
            Request::Remove { parent, name } => {
                self.log.push(format!("remove {} from {}", name, parent));
                match self.dirs.get_mut(&parent) {
                    Some(d) => {
                        d.retain(|(n, _)| *n != name);
                        Reply::Completed
                    }
                    None => Reply::Failed,
                }
            }
        }
    }

    fn list(&mut self, path: &str) -> Result<Vec<FileMetadata>, RawFsError> {
        let (mut machine, mut step) = list_directory_raw(path);
        loop {
            match step {
                ListStep::Ask(req) => {
                    assert!(!machine.is_finished());
                    let reply = self.answer(req);
                    (machine, step) = machine.step(reply);
                }
                ListStep::Finished(result) => {
                    assert!(machine.is_finished());
                    return result;
                }
            }
        }
    }

    fn read(&mut self, path: &str) -> Result<Vec<u8>, RawFsError> {
        let (mut machine, mut step) = read_file_raw(path);
        loop {
            match step {
                ReadStep::Ask(req) => {
                    assert!(!machine.is_finished());
                    let reply = self.answer(req);
                    (machine, step) = machine.step(reply);
                }
                ReadStep::Finished(result) => {
                    assert!(machine.is_finished());
                    return result;
                }
            }
        }
    }

    fn write(&mut self, path: &str, data: &[u8]) -> Result<(), RawFsError> {
        let (mut machine, mut step) = write_file_raw(path, data);
        loop {
            match step {
                WriteStep::Ask(req) => {
                    assert!(!machine.is_finished());
                    let reply = self.answer(req);
                    (machine, step) = machine.step(reply);
                }
                WriteStep::Finished(result) => {
                    assert!(machine.is_finished());
                    return result;
                }
            }
        }
    }
}

fn sample() -> Engine {
    let mut e = Engine::new();
    let a = e.mkdir(2, "a");
    e.mkdir(2, "lost+found");
    e.mkfile(2, "hello.txt", b"hello world");
    e.mkfile(a, "b.txt", b"0123456789");
    e.mkdir(a, "deep");
    e
}

fn bytes(len: usize) -> Vec<u8> {
    (0..len).map(|i| (i % 253) as u8).collect()
}

fn stat(size: u64) -> InodeStat {
    InodeStat { size, is_dir: false, mode_bits: 0o100644, mtime: 0 }
}

fn dir_stat() -> InodeStat {
    InodeStat { size: 4096, is_dir: true, mode_bits: 0o040755, mtime: 0 }
}

fn names(entries: &[FileMetadata]) -> Vec<String> {
    entries.iter().map(|e| e.name.clone()).collect()
}

#[test]
fn constants_of_the_protocol() {
    assert_eq!(ROOT_INODE, 2);
    assert_eq!(NEW_FILE_MODE, 0o100644);
    assert_eq!(READ_CHUNK, 65536);
}

#[test]
fn listing_the_root_starts_at_inode_2() {
    for path in ["", "/"] {
        let (machine, step) = list_directory_raw(path);
        assert!(matches!(step, ListStep::Ask(Request::Stat { inode: 2 })));
        let (_, step) = machine.step(Reply::Stat(dir_stat()));
        assert!(matches!(step, ListStep::Ask(Request::ListChildren { inode: 2 })));
    }
}

#[test]
fn listing_never_resolves_the_root() {
    let mut e = sample();
    e.list("").unwrap();
    e.list("/").unwrap();
    assert!(e.log.iter().all(|l| !l.starts_with("resolve")));
}

#[test]
fn listing_what_is_no_directory_is_path_not_found() {
    let mut e = sample();
    assert_eq!(e.list("/hello.txt").unwrap_err(), RawFsError::PathNotFound);
    assert_eq!(e.list("/a/b.txt").unwrap_err(), RawFsError::PathNotFound);
    assert!(e.log.iter().all(|l| !l.starts_with("list")));
    let (machine, _) = list_directory_raw("/f");
    let (machine, step) = machine.step(Reply::Inode(40));
    assert!(matches!(step, ListStep::Ask(Request::Stat { inode: 40 })));
    let (machine, step) = machine.step(Reply::Stat(stat(10)));
    assert!(matches!(step, ListStep::Finished(Err(RawFsError::PathNotFound))));
    assert!(machine.is_finished());
}

#[test]
fn listing_another_directory_resolves_it_from_the_root() {
    let (machine, step) = list_directory_raw("/a/deep");
    match step {
        ListStep::Ask(Request::Resolve { path, parent, create_if_missing, mode }) => {
            assert_eq!(path, "/a/deep");
            assert_eq!(parent, 2);
            assert!(!create_if_missing);
            assert_eq!(mode, 0);
        }
        other => panic!("unexpected step {:?}", other),
    }
    let (machine, step) = machine.step(Reply::Inode(77));
    assert!(matches!(step, ListStep::Ask(Request::Stat { inode: 77 })));
    let (_, step) = machine.step(Reply::Stat(dir_stat()));
    assert!(matches!(step, ListStep::Ask(Request::ListChildren { inode: 77 })));
}

#[test]
fn listing_never_holds_dot_or_dot_dot() {
    let mut e = sample();
    for path in ["", "/", "/a", "a/deep", "/lost+found"] {
        let entries = e.list(path).unwrap();
        assert!(entries.iter().all(|f| f.name != "." && f.name != ".."));
    }
    assert_eq!(names(&e.list("/").unwrap()), ["a", "lost+found", "hello.txt"]);
    assert_eq!(names(&e.list("/a").unwrap()), ["b.txt", "deep"]);
}

#[test]
fn listing_skips_pseudo_entries_wherever_they_stand() {
    let (machine, _) = list_directory_raw("/");
    let (machine, _) = machine.step(Reply::Stat(dir_stat()));
    let children = vec![
        Child { name: "first".to_string(), inode: 20 },
        Child { name: "..".to_string(), inode: 2 },
        Child { name: ".".to_string(), inode: 2 },
        Child { name: "...".to_string(), inode: 21 },
        Child { name: ".".to_string(), inode: 2 },
    ];
    let (machine, step) = machine.step(Reply::Children(children));
    assert!(matches!(step, ListStep::Ask(Request::Stat { inode: 20 })));
    let (machine, step) = machine.step(Reply::Stat(stat(1)));
    assert!(matches!(step, ListStep::Ask(Request::Stat { inode: 21 })));
    let (machine, step) = machine.step(Reply::Stat(stat(2)));
    assert!(machine.is_finished());
    match step {
        ListStep::Finished(Ok(entries)) => {
            assert_eq!(names(&entries), ["first", "..."]);
            assert_eq!(entries[0].size, 1);
            assert_eq!(entries[1].size, 2);
        }
        other => panic!("unexpected step {:?}", other),
    }
}

#[test]
fn listing_describes_every_entry_by_its_inode() {
    let mut e = sample();
    let entries = e.list("/a").unwrap();
    assert_eq!(entries.len(), 2);
    assert_eq!(entries[0].name, "b.txt");
    assert_eq!(entries[0].size, 10);
    assert!(!entries[0].is_dir);
    assert_eq!(entries[0].path, "/a/b.txt");
    assert_eq!(entries[0].permissions, "rw-r--r--");
    assert_eq!(entries[1].name, "deep");
    assert!(entries[1].is_dir);
    assert_eq!(entries[1].path, "/a/deep");
    assert_eq!(entries[1].permissions, "rwxr-xr-x");
    assert!(entries[1].last_modified > 1000);
    let a = e.resolve("/a", 2).unwrap();
    let stats: Vec<&String> = e.log.iter().filter(|l| l.starts_with("stat")).collect();
    assert_eq!(stats.len(), 3);
    assert_eq!(*stats[0], format!("stat {}", a));
}

#[test]
fn listing_an_empty_directory_is_no_error() {
    let mut e = sample();
    assert!(e.list("/lost+found").unwrap().is_empty());
    let (machine, _) = list_directory_raw("");
    let (machine, _) = machine.step(Reply::Stat(dir_stat()));
    let (_, step) = machine.step(Reply::Children(Vec::new()));
    assert!(matches!(step, ListStep::Finished(Ok(ref v)) if v.is_empty()));
}

#[test]
fn listing_a_missing_directory_is_path_not_found() {
    let mut e = sample();
    assert_eq!(e.list("/nowhere").unwrap_err(), RawFsError::PathNotFound);
    assert_eq!(e.list("/a/b/c").unwrap_err(), RawFsError::PathNotFound);
}

#[test]
fn listing_ends_with_io_error_on_a_reply_out_of_turn() {
    let (machine, _) = list_directory_raw("/");
    let (machine, step) = machine.step(Reply::Data(vec![1]));
    assert!(matches!(step, ListStep::Finished(Err(RawFsError::IoError))));
    let (_, step) = machine.step(Reply::Children(Vec::new()));
    assert!(matches!(step, ListStep::Finished(Err(RawFsError::IoError))));
    let (machine, _) = list_directory_raw("/x");
    let (_, step) = machine.step(Reply::Failed);
    assert!(matches!(step, ListStep::Finished(Err(RawFsError::IoError))));
    let (machine, _) = list_directory_raw("/");
    let (machine, _) = machine.step(Reply::Stat(dir_stat()));
    let children = vec![Child { name: "f".to_string(), inode: 9 }];
    let (machine, _) = machine.step(Reply::Children(children));
    let (_, step) = machine.step(Reply::Failed);
    assert!(matches!(step, ListStep::Finished(Err(RawFsError::IoError))));
    let (machine, _) = list_directory_raw("/");
    let (_, step) = machine.step(Reply::Children(Vec::new()));
    assert!(matches!(step, ListStep::Finished(Err(RawFsError::IoError))));
    let (machine, _) = list_directory_raw("/");
    let (machine, _) = machine.step(Reply::Stat(dir_stat()));
    let (_, step) = machine.step(Reply::Stat(dir_stat()));
    assert!(matches!(step, ListStep::Finished(Err(RawFsError::IoError))));
}

#[test]
fn reading_returns_the_file_and_nothing_more() {
    let mut e = sample();
    assert_eq!(e.read("/hello.txt").unwrap(), b"hello world");
    assert_eq!(e.read("/a/b.txt").unwrap(), b"0123456789");
    assert_eq!(e.read("a/b.txt").unwrap().len(), 10);
}

#[test]
fn reading_asks_for_the_size_first() {
    let (machine, step) = read_file_raw("/f");
    match step {
        ReadStep::Ask(Request::Resolve { path, parent, .. }) => {
            assert_eq!(path, "/f");
            assert_eq!(parent, 2);
        }
        other => panic!("unexpected step {:?}", other),
    }
    let (machine, step) = machine.step(Reply::Inode(40));
    assert!(matches!(step, ReadStep::Ask(Request::Stat { inode: 40 })));
    let (_, step) = machine.step(Reply::Stat(stat(5)));
    assert!(matches!(step, ReadStep::Ask(Request::ReadAt { inode: 40, offset: 0, len: 5 })));
}

#[test]
fn reading_and_writing_never_resolve_the_root() {
    for path in ["", "/"] {
        let (_, step) = read_file_raw(path);
        assert!(matches!(step, ReadStep::Ask(Request::Stat { inode: 2 })));
        let (machine, step) = write_file_raw(path, b"x");
        assert!(matches!(step, WriteStep::Ask(Request::Stat { inode: 2 })));
        let (machine, step) = machine.step(Reply::Stat(dir_stat()));
        assert!(matches!(step, WriteStep::Finished(Err(RawFsError::WriteFailed))));
        assert!(machine.is_finished());
    }
    let mut e = sample();
    assert_eq!(e.write("/", b"x"), Err(RawFsError::WriteFailed));
    assert_eq!(e.write("", b"x"), Err(RawFsError::WriteFailed));
    assert!(e.log.iter().all(|l| !l.starts_with("resolve")));
}

#[test]
fn a_truncation_is_asked_for_only_of_a_longer_file() {
    let cases = [(0u64, 3usize, false), (3, 3, false), (4, 3, true), (9, 0, true)];
    for (prior, len, truncates) in cases {
        let data = bytes(len);
        let (machine, _) = write_file_raw("/old", &data);
        let (machine, _) = machine.step(Reply::Inode(50));
        let (mut machine, mut step) = machine.step(Reply::Stat(stat(prior)));
        if len > 0 {
            assert!(matches!(step, WriteStep::Ask(Request::WriteAt { .. })));
            (machine, step) = machine.step(Reply::Written(len));
        }
        if truncates {
            match step {
                WriteStep::Ask(Request::Truncate { inode, size }) => {
                    assert_eq!(inode, 50);
                    assert!(size < prior);
                    assert_eq!(size, len as u64);
                }
                other => panic!("unexpected step {:?}", other),
            }
            (machine, step) = machine.step(Reply::Completed);
        }
        assert!(matches!(step, WriteStep::Finished(Ok(()))));
        assert!(machine.is_finished());
    }
}

#[test]
fn reading_goes_on_until_the_size_is_reached() {
    let (machine, _) = read_file_raw("/f");
    let (machine, _) = machine.step(Reply::Inode(40));
    let (machine, _) = machine.step(Reply::Stat(stat(6)));
    let (machine, step) = machine.step(Reply::Data(vec![1, 2]));
    assert!(matches!(step, ReadStep::Ask(Request::ReadAt { inode: 40, offset: 2, len: 4 })));
    let (machine, step) = machine.step(Reply::Data(vec![3]));
    assert!(matches!(step, ReadStep::Ask(Request::ReadAt { inode: 40, offset: 3, len: 3 })));
    let (machine, step) = machine.step(Reply::Data(vec![4, 5, 6]));
    assert!(machine.is_finished());
    assert!(matches!(step, ReadStep::Finished(Ok(ref v)) if v == &[1, 2, 3, 4, 5, 6]));
}

#[test]
fn reading_a_large_file_asks_chunk_by_chunk() {
    let mut e = sample();
    let data = bytes(3 * READ_CHUNK + 17);
    e.mkfile(2, "big", &data);
    assert_eq!(e.read("/big").unwrap(), data);
    let reads: Vec<&String> = e.log.iter().filter(|l| l.starts_with("read")).collect();
    assert_eq!(reads.len(), 4);
    assert!(reads[0].ends_with("at 0 len 65536"));
    assert!(reads[3].ends_with("at 196608 len 17"));
}

#[test]
fn reading_copes_with_an_engine_that_gives_little_at_a_time() {
    let mut e = sample();
    e.max_transfer = 3;
    assert_eq!(e.read("/hello.txt").unwrap(), b"hello world");
    assert_eq!(e.log.iter().filter(|l| l.starts_with("read")).count(), 4);
}

#[test]
fn reading_an_empty_file_asks_for_no_bytes() {
    let mut e = sample();
    e.mkfile(2, "empty", b"");
    assert_eq!(e.read("/empty").unwrap(), b"");
    assert!(e.log.iter().all(|l| !l.starts_with("read")));
}

#[test]
fn reading_a_missing_file_is_path_not_found() {
    let mut e = sample();
    assert_eq!(e.read("/missing").unwrap_err(), RawFsError::PathNotFound);
}

#[test]
fn reading_never_pads_a_file_that_ends_early() {
    let (machine, _) = read_file_raw("/f");
    let (machine, _) = machine.step(Reply::Inode(40));
    let (machine, _) = machine.step(Reply::Stat(stat(6)));
    let (machine, _) = machine.step(Reply::Data(vec![1, 2]));
    let (machine, step) = machine.step(Reply::Data(Vec::new()));
    assert!(matches!(step, ReadStep::Finished(Err(RawFsError::IoError))));
    assert!(machine.is_finished());
}

#[test]
fn reading_refuses_more_bytes_than_it_asked_for() {
    let (machine, _) = read_file_raw("/f");
    let (machine, _) = machine.step(Reply::Inode(40));
    let (machine, _) = machine.step(Reply::Stat(stat(2)));
    let (_, step) = machine.step(Reply::Data(vec![1, 2, 3]));
    assert!(matches!(step, ReadStep::Finished(Err(RawFsError::IoError))));
}

#[test]
fn reading_ends_with_io_error_on_failure_or_a_reply_out_of_turn() {
    let (machine, _) = read_file_raw("/f");
    let (machine, step) = machine.step(Reply::Failed);
    assert!(matches!(step, ReadStep::Finished(Err(RawFsError::IoError))));
    let (_, step) = machine.step(Reply::Inode(3));
    assert!(matches!(step, ReadStep::Finished(Err(RawFsError::IoError))));
    let (machine, _) = read_file_raw("/f");
    let (machine, _) = machine.step(Reply::Inode(40));
    let (_, step) = machine.step(Reply::NotFound);
    assert!(matches!(step, ReadStep::Finished(Err(RawFsError::IoError))));
    let (machine, _) = read_file_raw("/f");
    let (machine, _) = machine.step(Reply::Inode(40));
    let (machine, _) = machine.step(Reply::Stat(stat(2)));
    let (_, step) = machine.step(Reply::Failed);
    assert!(matches!(step, ReadStep::Finished(Err(RawFsError::IoError))));
}

#[test]
fn write_then_read_round_trip() {
    let mut e = sample();
    let data = bytes(10_000);
    assert_eq!(e.write("/a/b.txt", &data), Ok(()));
    assert_eq!(e.read("/a/b.txt").unwrap(), data);
}

#[test]
fn write_then_read_round_trip_for_a_new_file() {
    let mut e = sample();
    let files = [("/a/new.bin", 5000usize), ("/top.bin", 1), ("a/deep/x", 70_000), ("/e", 0)];
    for (path, len) in files {
        let data = bytes(len);
        assert_eq!(e.write(path, &data), Ok(()));
        assert_eq!(e.read(path).unwrap(), data);
    }
}

#[test]
fn write_then_read_round_trip_with_a_slow_engine() {
    let mut e = sample();
    e.max_transfer = 7;
    let data = bytes(100);
    assert_eq!(e.write("/a/slow", &data), Ok(()));
    assert_eq!(e.read("/a/slow").unwrap(), data);
    assert_eq!(e.log.iter().filter(|l| l.starts_with("write")).count(), 15);
}

#[test]
fn a_shorter_write_leaves_no_stale_bytes() {
    let mut e = sample();
    assert_eq!(e.write("/hello.txt", b"hi"), Ok(()));
    assert_eq!(e.read("/hello.txt").unwrap(), b"hi");
    assert!(e.log.iter().any(|l| l.starts_with("truncate") && l.ends_with("to 2")));
}

#[test]
fn a_longer_or_equal_write_does_not_truncate() {
    let mut e = sample();
    assert_eq!(e.write("/hello.txt", b"hello there, world"), Ok(()));
    assert_eq!(e.write("/a/b.txt", b"9876543210"), Ok(()));
    assert_eq!(e.read("/a/b.txt").unwrap(), b"9876543210");
    assert!(e.log.iter().all(|l| !l.starts_with("truncate")));
}

#[test]
fn an_empty_write_truncates_an_existing_file() {
    let mut e = sample();
    assert_eq!(e.write("/hello.txt", b""), Ok(()));
    assert_eq!(e.read("/hello.txt").unwrap(), b"");
    assert!(e.log.iter().all(|l| !l.starts_with("write")));
    assert!(e.log.iter().any(|l| l.starts_with("truncate") && l.ends_with("to 0")));
}

#[test]
fn a_new_file_is_created_in_its_own_directory() {
    let mut e = sample();
    let a = e.resolve("/a", 2).unwrap();
    assert_eq!(e.write("/a/new.txt", b"x"), Ok(()));
    assert!(e.log.contains(&"resolve /a from 2".to_string()));
    assert!(e.log.contains(&format!("create new.txt in {} mode 100644", a)));
    assert_eq!(names(&e.list("/a").unwrap()), ["b.txt", "deep", "new.txt"]);
    assert_eq!(names(&e.list("/").unwrap()), ["a", "lost+found", "hello.txt"]);
}

#[test]
fn a_new_file_without_directory_part_is_created_in_the_root() {
    for path in ["/n.txt", "n.txt"] {
        let (machine, _) = write_file_raw(path, b"abc");
        let (_, step) = machine.step(Reply::NotFound);
        match step {
            WriteStep::Ask(Request::Create { parent, name, mode }) => {
                assert_eq!(parent, 2);
                assert_eq!(name, "n.txt");
                assert_eq!(mode, 0o100644);
            }
            other => panic!("unexpected step {:?}", other),
        }
    }
}

#[test]
fn a_new_file_in_a_nested_directory_resolves_that_directory() {
    let (machine, _) = write_file_raw("/a/deep/n.txt", b"abc");
    let (machine, step) = machine.step(Reply::NotFound);
    match step {
        WriteStep::Ask(Request::Resolve { path, parent, create_if_missing, .. }) => {
            assert_eq!(path, "/a/deep");
            assert_eq!(parent, 2);
            assert!(!create_if_missing);
        }
        other => panic!("unexpected step {:?}", other),
    }
    let (machine, step) = machine.step(Reply::Inode(31));
    match step {
        WriteStep::Ask(Request::Create { parent, name, mode }) => {
            assert_eq!(parent, 31);
            assert_eq!(name, "n.txt");
            assert_eq!(mode, 0o100644);
        }
        other => panic!("unexpected step {:?}", other),
    }
    let (_, step) = machine.step(Reply::Inode(32));
    match step {
        WriteStep::Ask(Request::WriteAt { inode, offset, data }) => {
            assert_eq!(inode, 32);
            assert_eq!(offset, 0);
            assert_eq!(data, b"abc");
        }
        other => panic!("unexpected step {:?}", other),
    }
}

#[test]
fn a_missing_directory_is_create_failed() {
    let mut e = sample();
    assert_eq!(e.write("/nowhere/f", b"x"), Err(RawFsError::CreateFailed));
    assert!(e.log.iter().all(|l| !l.starts_with("create")));
}

#[test]
fn a_path_that_names_no_file_is_create_failed() {
    for path in ["/nowhere/", "x/"] {
        let (machine, _) = write_file_raw(path, b"x");
        let (machine, step) = machine.step(Reply::NotFound);
        assert!(matches!(step, WriteStep::Finished(Err(RawFsError::CreateFailed))));
        assert!(machine.is_finished());
    }
}

#[test]
fn a_failed_creation_is_create_failed() {
    let (machine, _) = write_file_raw("/n", b"x");
    let (machine, _) = machine.step(Reply::NotFound);
    let (_, step) = machine.step(Reply::Failed);
    assert!(matches!(step, WriteStep::Finished(Err(RawFsError::CreateFailed))));
}

#[test]
fn a_failed_write_removes_the_file_it_created() {
    let (machine, _) = write_file_raw("/a/n.txt", b"abcdef");
    let (machine, _) = machine.step(Reply::NotFound);
    let (machine, _) = machine.step(Reply::Inode(31));
    let (machine, _) = machine.step(Reply::Inode(32));
    let (machine, step) = machine.step(Reply::Written(2));
    match step {
        WriteStep::Ask(Request::WriteAt { inode, offset, data }) => {
            assert_eq!(inode, 32);
            assert_eq!(offset, 2);
            assert_eq!(data, b"cdef");
        }
        other => panic!("unexpected step {:?}", other),
    }
    let (machine, step) = machine.step(Reply::Failed);
    match step {
        WriteStep::Ask(Request::Remove { parent, name }) => {
            assert_eq!(parent, 31);
            assert_eq!(name, "n.txt");
        }
        other => panic!("unexpected step {:?}", other),
    }
    assert!(!machine.is_finished());
    let (machine, step) = machine.step(Reply::Completed);
    assert!(matches!(step, WriteStep::Finished(Err(RawFsError::WriteFailed))));
    assert!(machine.is_finished());
}

#[test]
fn a_failed_write_reports_write_failed_even_if_removal_fails() {
    let (machine, _) = write_file_raw("/n.txt", b"abc");
    let (machine, _) = machine.step(Reply::NotFound);
    let (machine, _) = machine.step(Reply::Inode(32));
    let (machine, step) = machine.step(Reply::Written(0));
    assert!(matches!(step, WriteStep::Ask(Request::Remove { parent: 2, .. })));
    let (_, step) = machine.step(Reply::Failed);
    assert!(matches!(step, WriteStep::Finished(Err(RawFsError::WriteFailed))));
}

#[test]
fn a_failed_write_to_an_existing_file_removes_nothing() {
    let (machine, _) = write_file_raw("/old.txt", b"abc");
    let (machine, step) = machine.step(Reply::Inode(50));
    assert!(matches!(step, WriteStep::Ask(Request::Stat { inode: 50 })));
    let (machine, step) = machine.step(Reply::Stat(stat(100)));
    assert!(matches!(step, WriteStep::Ask(Request::WriteAt { inode: 50, offset: 0, .. })));
    let (machine, step) = machine.step(Reply::Failed);
    assert!(matches!(step, WriteStep::Finished(Err(RawFsError::WriteFailed))));
    assert!(machine.is_finished());
}

#[test]
fn a_write_count_beyond_what_was_handed_over_is_a_failure() {
    let (machine, _) = write_file_raw("/old.txt", b"abc");
    let (machine, _) = machine.step(Reply::Inode(50));
    let (machine, _) = machine.step(Reply::Stat(stat(0)));
    let (_, step) = machine.step(Reply::Written(4));
    assert!(matches!(step, WriteStep::Finished(Err(RawFsError::WriteFailed))));
}

#[test]
fn a_failed_truncation_is_write_failed() {
    let (machine, _) = write_file_raw("/old.txt", b"abc");
    let (machine, _) = machine.step(Reply::Inode(50));
    let (machine, _) = machine.step(Reply::Stat(stat(100)));
    let (machine, step) = machine.step(Reply::Written(3));
    assert!(matches!(step, WriteStep::Ask(Request::Truncate { inode: 50, size: 3 })));
    let (_, step) = machine.step(Reply::Failed);
    assert!(matches!(step, WriteStep::Finished(Err(RawFsError::WriteFailed))));
}

#[test]
fn a_directory_is_not_written_to() {
    let mut e = sample();
    assert_eq!(e.write("/a", b"x"), Err(RawFsError::WriteFailed));
    assert!(e.log.iter().all(|l| !l.starts_with("write")));
    assert_eq!(names(&e.list("/a").unwrap()), ["b.txt", "deep"]);
}

#[test]
fn writing_ends_with_io_error_when_resolution_fails_or_after_the_end() {
    let (machine, _) = write_file_raw("/f", b"x");
    let (machine, step) = machine.step(Reply::Failed);
    assert!(matches!(step, WriteStep::Finished(Err(RawFsError::IoError))));
    let (_, step) = machine.step(Reply::Inode(1));
    assert!(matches!(step, WriteStep::Finished(Err(RawFsError::IoError))));
}

#[test]
fn every_error_has_a_description() {
    assert_eq!(RawFsError::IoError.message(), "I/O error on the partition device");
    assert_eq!(RawFsError::UnknownSignature.message(), "Unknown filesystem signature");
    assert_eq!(RawFsError::PathNotFound.message(), "Path not found");
    assert_eq!(RawFsError::CreateFailed.message(), "Failed to create file");
    assert_eq!(RawFsError::WriteFailed.message(), "Write failed");
}
