//! Block devices and their partitions as candidates for inspection: which
//! names of the system's device directory count, and how their entries are
//! made.

use vstd::prelude::*;
use vstd::string::{StrSliceExecFns, StringExecFns};
use crate::text::{
    has_prefix, starts_with, trim_whitespace, trim_whitespace_spec,
};

verus! {

/// Bytes per sector in the size files of the device directory.
pub const SECTOR_BYTES: u64 = 512;

/// A partition of a block device.
#[derive(Debug)]
pub struct RawPartition {
    pub name: String,
    pub path: String,
    pub size: u64,
    pub fs_type: Option<String>,
}

/// What a [`RawPartition`] holds, with its texts as character sequences.
pub struct PartitionView {
    pub name: Seq<char>,
    pub path: Seq<char>,
    pub size: u64,
    pub fs_type: Option<Seq<char>>,
}

impl View for RawPartition {
    type V = PartitionView;

    open spec fn view(&self) -> PartitionView {
        PartitionView {
            name: self.name@,
            path: self.path@,
            size: self.size,
            fs_type: match self.fs_type {
                Some(t) => Some(t@),
                None => None,
            },
        }
    }
}

impl DeepView for RawPartition {
    type V = PartitionView;

    open spec fn deep_view(&self) -> PartitionView {
        self@
    }
}

/// A block device with its partitions.
#[derive(Debug)]
pub struct RawBlockDevice {
    pub name: String,
    pub path: String,
    pub size: u64,
    pub device_type: String,
    pub partitions: Vec<RawPartition>,
}

/// What a [`RawBlockDevice`] holds, with its texts as character sequences.
pub struct DeviceView {
    pub name: Seq<char>,
    pub path: Seq<char>,
    pub size: u64,
    pub device_type: Seq<char>,
    pub partitions: Seq<PartitionView>,
}

impl View for RawBlockDevice {
    type V = DeviceView;

    open spec fn view(&self) -> DeviceView {
        DeviceView {
            name: self.name@,
            path: self.path@,
            size: self.size,
            device_type: self.device_type@,
            partitions: self.partitions.deep_view(),
        }
    }
}

/// Whether a name of the device directory is that of a disk: one that begins
/// with `sd`, `nvme`, `mmcblk` or `loop`.
pub open spec fn disk_name(name: Seq<char>) -> bool {
    starts_with(name, "sd"@) || starts_with(name, "nvme"@) || starts_with(name, "mmcblk"@)
        || starts_with(name, "loop"@)
}

/// Whether `name` is that of a partition of the disk `disk`: it begins with
/// the disk's name and goes on after it.
pub open spec fn partition_name(name: Seq<char>, disk: Seq<char>) -> bool {
    starts_with(name, disk) && name != disk
}

/// Tells whether a name of the device directory is that of a disk.
pub fn is_disk_name(name: &str) -> (b: bool)
    ensures
        b == disk_name(name@),
{
    has_prefix(name, "sd") || has_prefix(name, "nvme") || has_prefix(name, "mmcblk") || has_prefix(
        name,
        "loop",
    )
}

/// Tells whether `name` is that of a partition of the disk `disk`.
pub fn is_partition_of(name: &str, disk: &str) -> (b: bool)
    ensures
        b == partition_name(name@, disk@),
{
    if !has_prefix(name, disk) {
        return false;
    }
    let longer = name.unicode_len() != disk.unicode_len();
    proof {
        if !longer {
            assert(name@.subrange(0, disk@.len() as int) =~= name@);
        }
    }
    longer
}

/// The value of a decimal digit, or nothing for another character.
pub open spec fn digit_value(c: char) -> Option<nat> {
    if '0' <= c <= '9' {
        Some((c as u32 - 48) as nat)
    } else {
        None
    }
}

/// The number that a run of decimal digits stands for, or nothing if another
/// character is among them. The empty run stands for zero.
pub open spec fn digits_value(s: Seq<char>) -> Option<nat>
    decreases s.len(),
{
    if s.len() == 0 {
        Some(0)
    } else {
        match (digits_value(s.drop_last()), digit_value(s.last())) {
            (Some(v), Some(d)) => Some(10 * v + d),
            _ => None,
        }
    }
}

/// The number that a text stands for: one decimal digit or more, a plus sign
/// before them or none, and a value that fits in 64 bits.
pub open spec fn decimal_value(s: Seq<char>) -> Option<u64> {
    let digits = if s.len() > 0 && s[0] == '+' {
        s.drop_first()
    } else {
        s
    };
    if digits.len() == 0 {
        None
    } else {
        match digits_value(digits) {
            Some(v) => if v <= u64::MAX {
                Some(v as u64)
            } else {
                None
            },
            None => None,
        }
    }
}

/// Where a run of digits stands for a number, each of its beginnings stands
/// for one that is no larger.
pub proof fn lemma_digits_value_of_prefix(s: Seq<char>, k: int)
    requires
        0 <= k <= s.len(),
        digits_value(s) is Some,
    ensures
        digits_value(s.subrange(0, k)) is Some,
        digits_value(s.subrange(0, k))->0 <= digits_value(s)->0,
    decreases s.len() - k,
{
    if k == s.len() {
        assert(s.subrange(0, k) =~= s);
    } else {
        let shorter = s.drop_last();
        assert(shorter.subrange(0, k) =~= s.subrange(0, k));
        lemma_digits_value_of_prefix(shorter, k);
    }
}

/// Reads a number in decimal notation.
pub fn parse_decimal(text: &str) -> (r: Option<u64>)
    ensures
        r == decimal_value(text@),
{
    let n: usize = text.unicode_len();
    let start: usize = if n > 0 && text.get_char(0) == '+' {
        1
    } else {
        0
    };
    if start == n {
        return None;
    }
    let ghost digits = text@.subrange(start as int, n as int);
    proof {
        if start == 1 {
            assert(digits =~= text@.drop_first());
        } else {
            assert(digits =~= text@);
        }
        assert(digits.subrange(0, 0) =~= Seq::<char>::empty());
    }
    let mut value: u64 = 0;
    let mut i: usize = start;
    while i < n
        invariant
            start <= i <= n,
            n == text@.len(),
            digits.len() == n - start,
            digits.len() > 0,
            digits == if text@.len() > 0 && text@[0] == '+' {
                text@.drop_first()
            } else {
                text@
            },
            forall|j: int| 0 <= j < digits.len() ==> digits[j] == text@[start + j],
            digits_value(digits.subrange(0, i - start)) == Some(value as nat),
        decreases n - i,
    {
        let c = text.get_char(i);
        let ghost upto = digits.subrange(0, i - start + 1);
        proof {
            assert(upto.drop_last() =~= digits.subrange(0, i - start));
            assert(upto.last() == c);
        }
        if c < '0' || c > '9' {
            proof {
                if digits_value(digits) is Some {
                    lemma_digits_value_of_prefix(digits, i - start + 1);
                }
            }
            return None;
        }
        let d: u64 = (c as u32 - 48) as u64;
        if value > (u64::MAX - d) / 10 {
            proof {
                assert(10 * value + d > u64::MAX);
                if digits_value(digits) is Some {
                    lemma_digits_value_of_prefix(digits, i - start + 1);
                }
            }
            return None;
        }
        value = 10 * value + d;
        i += 1;
    }
    proof {
        assert(digits.subrange(0, n - start) =~= digits);
    }
    Some(value)
}

/// The size in bytes that the text of a size file stands for: the number of
/// sectors times 512, or zero where the text is no number or the size does not
/// fit in 64 bits.
pub open spec fn size_of_sectors(text: Seq<char>) -> u64 {
    match decimal_value(trim_whitespace_spec(text)) {
        Some(sectors) => if sectors * SECTOR_BYTES <= u64::MAX {
            (sectors * SECTOR_BYTES) as u64
        } else {
            0
        },
        None => 0,
    }
}

/// Reads the size of a device from the text of its size file.
pub fn size_from_sector_count(text: &str) -> (size: u64)
    ensures
        size == size_of_sectors(text@),
{
    let trimmed = trim_whitespace(text);
    match parse_decimal(trimmed.as_str()) {
        Some(sectors) => match sectors.checked_mul(SECTOR_BYTES) {
            Some(bytes) => bytes,
            None => 0,
        },
        None => 0,
    }
}

/// The path of the device node for a name: the name in `/dev`.
pub open spec fn node_path(name: Seq<char>) -> Seq<char> {
    "/dev/"@ + name
}

/// Gives the path of the device node for a name.
pub fn device_path(name: &str) -> (path: String)
    ensures
        path@ == node_path(name@),
{
    let mut path = String::from_str("/dev/");
    path.append(name);
    path
}

/// The entry for the partition `name` of `size` bytes. Its filesystem is not
/// known yet.
pub fn partition_entry(name: &str, size: u64) -> (p: RawPartition)
    ensures
        p@ == (PartitionView { name: name@, path: node_path(name@), size, fs_type: None }),
{
    RawPartition { name: String::from_str(name), path: device_path(name), size, fs_type: None }
}

/// The entry for the disk `name` of `size` bytes with its partitions.
pub fn disk_entry(name: &str, size: u64, partitions: Vec<RawPartition>) -> (d: RawBlockDevice)
    ensures
        d@ == (DeviceView {
            name: name@,
            path: node_path(name@),
            size,
            device_type: "disk"@,
            partitions: partitions.deep_view(),
        }),
{
    RawBlockDevice {
        name: String::from_str(name),
        path: device_path(name),
        size,
        device_type: String::from_str("disk"),
        partitions,
    }
}

/// One directory below a disk's directory, as it was found: its name and the
/// text of its size file, if that could be read.
#[derive(Debug)]
pub struct PartitionNode {
    pub name: String,
    pub size_text: Option<String>,
}

/// What a [`PartitionNode`] holds, with its texts as character sequences.
pub struct PartitionNodeView {
    pub name: Seq<char>,
    pub size_text: Option<Seq<char>>,
}

impl View for PartitionNode {
    type V = PartitionNodeView;

    open spec fn view(&self) -> PartitionNodeView {
        PartitionNodeView {
            name: self.name@,
            size_text: match self.size_text {
                Some(t) => Some(t@),
                None => None,
            },
        }
    }
}

impl DeepView for PartitionNode {
    type V = PartitionNodeView;

    open spec fn deep_view(&self) -> PartitionNodeView {
        self@
    }
}

/// One directory of the device directory, as it was found: its name, the text
/// of its size file, if that could be read, and the directories below it.
#[derive(Debug)]
pub struct DeviceNode {
    pub name: String,
    pub size_text: Option<String>,
    pub entries: Vec<PartitionNode>,
}

/// What a [`DeviceNode`] holds, with its texts as character sequences.
pub struct DeviceNodeView {
    pub name: Seq<char>,
    pub size_text: Option<Seq<char>>,
    pub entries: Seq<PartitionNodeView>,
}

impl View for DeviceNode {
    type V = DeviceNodeView;

    open spec fn view(&self) -> DeviceNodeView {
        DeviceNodeView {
            name: self.name@,
            size_text: match self.size_text {
                Some(t) => Some(t@),
                None => None,
            },
            entries: self.entries.deep_view(),
        }
    }
}

impl DeepView for DeviceNode {
    type V = DeviceNodeView;

    open spec fn deep_view(&self) -> DeviceNodeView {
        self@
    }
}

impl DeepView for RawBlockDevice {
    type V = DeviceView;

    open spec fn deep_view(&self) -> DeviceView {
        self@
    }
}

/// The size that a size file gives, or zero where it could not be read.
pub open spec fn size_of_file(size_text: Option<Seq<char>>) -> u64 {
    match size_text {
        Some(text) => size_of_sectors(text),
        None => 0,
    }
}

/// The entry of a partition that was found as `node`.
pub open spec fn partition_of(node: PartitionNodeView) -> PartitionView {
    PartitionView {
        name: node.name,
        path: node_path(node.name),
        size: size_of_file(node.size_text),
        fs_type: None,
    }
}

/// The partitions of the disk `disk` among the directories below it, in the
/// order in which they were found.
pub open spec fn partitions_among(entries: Seq<PartitionNodeView>, disk: Seq<char>) -> Seq<
    PartitionView,
>
    decreases entries.len(),
{
    if entries.len() == 0 {
        Seq::empty()
    } else if partition_name(entries.last().name, disk) {
        partitions_among(entries.drop_last(), disk).push(partition_of(entries.last()))
    } else {
        partitions_among(entries.drop_last(), disk)
    }
}

/// The entry of a disk that was found as `node`.
pub open spec fn device_of(node: DeviceNodeView) -> DeviceView {
    DeviceView {
        name: node.name,
        path: node_path(node.name),
        size: size_of_file(node.size_text),
        device_type: "disk"@,
        partitions: partitions_among(node.entries, node.name),
    }
}

/// The disks among the directories of the device directory, each with its
/// partitions, in the order in which they were found.
pub open spec fn devices_among(nodes: Seq<DeviceNodeView>) -> Seq<DeviceView>
    decreases nodes.len(),
{
    if nodes.len() == 0 {
        Seq::empty()
    } else if disk_name(nodes.last().name) {
        devices_among(nodes.drop_last()).push(device_of(nodes.last()))
    } else {
        devices_among(nodes.drop_last())
    }
}

/// Reads the size from the text of a size file, if there is one.
fn size_from_file(size_text: &Option<String>) -> (size: u64)
    ensures
        size == size_of_file(
            match size_text {
                Some(t) => Some(t@),
                None => None,
            },
        ),
{
    match size_text {
        Some(text) => size_from_sector_count(text.as_str()),
        None => 0,
    }
}

/// Picks the partitions of a disk from the directories below it.
fn partitions_of_disk(entries: &Vec<PartitionNode>, disk: &str) -> (partitions: Vec<RawPartition>)
    ensures
        partitions.deep_view() == partitions_among(entries.deep_view(), disk@),
{
    let ghost found = entries.deep_view();
    let mut partitions: Vec<RawPartition> = Vec::new();
    assert(partitions.deep_view() =~= partitions_among(found.subrange(0, 0), disk@));
    let mut i: usize = 0;
    while i < entries.len()
        invariant
            i <= entries.len(),
            found == entries.deep_view(),
            partitions.deep_view() == partitions_among(found.subrange(0, i as int), disk@),
        decreases entries.len() - i,
    {
        let ghost before = partitions.deep_view();
        proof {
            assert(found.subrange(0, i + 1).drop_last() =~= found.subrange(0, i as int));
            assert(found.subrange(0, i + 1).last() == entries@[i as int]@);
        }
        let node = &entries[i];
        if is_partition_of(node.name.as_str(), disk) {
            let p = partition_entry(node.name.as_str(), size_from_file(&node.size_text));
            partitions.push(p);
            assert(partitions.deep_view() =~= before.push(partition_of(entries@[i as int]@)));
        }
        i += 1;
    }
    assert(found.subrange(0, entries.len() as int) =~= found);
    partitions
}

/// Makes the list of block devices from what was found in the device
/// directory: a directory counts as a disk by its name, a directory below it
/// as one of its partitions by its name, and each size is read from its size
/// file.
pub fn list_raw_devices(nodes: &Vec<DeviceNode>) -> (devices: Vec<RawBlockDevice>)
    ensures
        devices.deep_view() == devices_among(nodes.deep_view()),
{
    let ghost found = nodes.deep_view();
    let mut devices: Vec<RawBlockDevice> = Vec::new();
    assert(devices.deep_view() =~= devices_among(found.subrange(0, 0)));
    let mut i: usize = 0;
    while i < nodes.len()
        invariant
            i <= nodes.len(),
            found == nodes.deep_view(),
            devices.deep_view() == devices_among(found.subrange(0, i as int)),
        decreases nodes.len() - i,
    {
        let ghost before = devices.deep_view();
        proof {
            assert(found.subrange(0, i + 1).drop_last() =~= found.subrange(0, i as int));
            assert(found.subrange(0, i + 1).last() == nodes@[i as int]@);
        }
        let node = &nodes[i];
        if is_disk_name(node.name.as_str()) {
            let partitions = partitions_of_disk(&node.entries, node.name.as_str());
            let d = disk_entry(node.name.as_str(), size_from_file(&node.size_text), partitions);
            devices.push(d);
            assert(devices.deep_view() =~= before.push(device_of(nodes@[i as int]@)));
        }
        i += 1;
    }
    assert(found.subrange(0, nodes.len() as int) =~= found);
    devices
}

} // verus!
