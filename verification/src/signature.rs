//! Classification of a raw partition by the magic numbers of five filesystem
//! families.
//!
//! Three byte windows are probed: the first sector of the partition, the
//! region at absolute offset 65536 (Btrfs) and the region at absolute offset
//! 1024 (ext4). The families are tried in a fixed order and the first match
//! wins.

use vstd::prelude::*;
use crate::bytes::{le16, read_le16};

verus! {

/// A filesystem family.
#[derive(Debug, Clone, Copy, PartialEq, Eq, Structural)]
pub enum FsType {
    Ntfs,
    ExFat,
    Xfs,
    Btrfs,
    Ext4,
    Unknown,
}

/// The magic number of an ext4 superblock.
pub const EXT4_MAGIC: u16 = 0xEF53;

/// The NTFS OEM identifier, `NTFS` followed by four spaces.
pub open spec fn ntfs_oem() -> Seq<u8> {
    seq![0x4Eu8, 0x54u8, 0x46u8, 0x53u8, 0x20u8, 0x20u8, 0x20u8, 0x20u8]
}

/// The exFAT identifier, `EXFAT` followed by three spaces.
pub open spec fn exfat_oem() -> Seq<u8> {
    seq![0x45u8, 0x58u8, 0x46u8, 0x41u8, 0x54u8, 0x20u8, 0x20u8, 0x20u8]
}

/// The XFS superblock magic, `XFSB`.
pub open spec fn xfs_magic() -> Seq<u8> {
    seq![0x58u8, 0x46u8, 0x53u8, 0x42u8]
}

/// The Btrfs superblock magic, `_BHRfS_M`.
pub open spec fn btrfs_magic() -> Seq<u8> {
    seq![0x5Fu8, 0x42u8, 0x48u8, 0x52u8, 0x66u8, 0x53u8, 0x5Fu8, 0x4Du8]
}

/// Whether `b` holds `pattern` at offset `at`.
pub open spec fn field_is(b: Seq<u8>, at: int, pattern: Seq<u8>) -> bool {
    at + pattern.len() <= b.len() && b.subrange(at, at + pattern.len()) == pattern
}

/// Whether the first sector carries the NTFS identifier at offset 3.
pub open spec fn is_ntfs(sector0: Seq<u8>) -> bool {
    field_is(sector0, 3, ntfs_oem())
}

/// Whether the first sector carries the exFAT identifier at offset 3.
pub open spec fn is_exfat(sector0: Seq<u8>) -> bool {
    field_is(sector0, 3, exfat_oem())
}

/// Whether the first sector starts with the XFS magic.
pub open spec fn is_xfs(sector0: Seq<u8>) -> bool {
    field_is(sector0, 0, xfs_magic())
}

/// Whether the window at absolute offset 65536 carries the Btrfs magic at
/// offset 64.
pub open spec fn is_btrfs(window: Seq<u8>) -> bool {
    field_is(window, 64, btrfs_magic())
}

/// Whether the window at absolute offset 1024 carries the ext4 magic at
/// offset 56.
pub open spec fn is_ext4(window: Seq<u8>) -> bool {
    58 <= window.len() && le16(window, 56) == EXT4_MAGIC
}

/// The family of a partition: the first, in the order NTFS, exFAT, XFS, Btrfs,
/// ext4, whose magic is present.
pub open spec fn detected(sector0: Seq<u8>, btrfs_window: Seq<u8>, ext4_window: Seq<u8>) -> FsType {
    if is_ntfs(sector0) {
        FsType::Ntfs
    } else if is_exfat(sector0) {
        FsType::ExFat
    } else if is_xfs(sector0) {
        FsType::Xfs
    } else if is_btrfs(btrfs_window) {
        FsType::Btrfs
    } else if is_ext4(ext4_window) {
        FsType::Ext4
    } else {
        FsType::Unknown
    }
}

/// Looks for the NTFS identifier.
pub fn has_ntfs_oem(sector0: &[u8]) -> (b: bool)
    ensures
        b == is_ntfs(sector0@),
{
    if sector0.len() < 11 {
        return false;
    }
    let b = sector0[3] == 0x4E && sector0[4] == 0x54 && sector0[5] == 0x46 && sector0[6] == 0x53
        && sector0[7] == 0x20 && sector0[8] == 0x20 && sector0[9] == 0x20 && sector0[10] == 0x20;
    proof {
        let field = sector0@.subrange(3, 11);
        if b {
            assert(field =~= ntfs_oem());
        } else {
            assert(field[0] == sector0@[3] && field[1] == sector0@[4] && field[2] == sector0@[5]
                && field[3] == sector0@[6] && field[4] == sector0@[7] && field[5] == sector0@[8]
                && field[6] == sector0@[9] && field[7] == sector0@[10]);
        }
    }
    b
}

/// Looks for the exFAT identifier.
pub fn has_exfat_oem(sector0: &[u8]) -> (b: bool)
    ensures
        b == is_exfat(sector0@),
{
    if sector0.len() < 11 {
        return false;
    }
    let b = sector0[3] == 0x45 && sector0[4] == 0x58 && sector0[5] == 0x46 && sector0[6] == 0x41
        && sector0[7] == 0x54 && sector0[8] == 0x20 && sector0[9] == 0x20 && sector0[10] == 0x20;
    proof {
        let field = sector0@.subrange(3, 11);
        if b {
            assert(field =~= exfat_oem());
        } else {
            assert(field[0] == sector0@[3] && field[1] == sector0@[4] && field[2] == sector0@[5]
                && field[3] == sector0@[6] && field[4] == sector0@[7] && field[5] == sector0@[8]
                && field[6] == sector0@[9] && field[7] == sector0@[10]);
        }
    }
    b
}

/// Looks for the XFS magic.
pub fn has_xfs_magic(sector0: &[u8]) -> (b: bool)
    ensures
        b == is_xfs(sector0@),
{
    if sector0.len() < 4 {
        return false;
    }
    let b = sector0[0] == 0x58 && sector0[1] == 0x46 && sector0[2] == 0x53 && sector0[3] == 0x42;
    proof {
        let field = sector0@.subrange(0, 4);
        if b {
            assert(field =~= xfs_magic());
        } else {
            assert(field[0] == sector0@[0] && field[1] == sector0@[1] && field[2] == sector0@[2]
                && field[3] == sector0@[3]);
        }
    }
    b
}

/// Looks for the Btrfs magic.
pub fn has_btrfs_magic(window: &[u8]) -> (b: bool)
    ensures
        b == is_btrfs(window@),
{
    if window.len() < 72 {
        return false;
    }
    let b = window[64] == 0x5F && window[65] == 0x42 && window[66] == 0x48 && window[67] == 0x52
        && window[68] == 0x66 && window[69] == 0x53 && window[70] == 0x5F && window[71] == 0x4D;
    proof {
        let field = window@.subrange(64, 72);
        if b {
            assert(field =~= btrfs_magic());
        } else {
            assert(field[0] == window@[64] && field[1] == window@[65] && field[2] == window@[66]
                && field[3] == window@[67] && field[4] == window@[68] && field[5] == window@[69]
                && field[6] == window@[70] && field[7] == window@[71]);
        }
    }
    b
}

/// Looks for the ext4 magic.
pub fn has_ext4_magic(window: &[u8]) -> (b: bool)
    ensures
        b == is_ext4(window@),
{
    window.len() >= 58 && read_le16(window, 56) == EXT4_MAGIC
}

/// Classifies a partition from its three probe windows.
///
/// A window that is too short to hold a family's magic does not match that
/// family.
pub fn detect_signature(sector0: &[u8], btrfs_window: &[u8], ext4_window: &[u8]) -> (t: FsType)
    ensures
        t == detected(sector0@, btrfs_window@, ext4_window@),
{
    if has_ntfs_oem(sector0) {
        FsType::Ntfs
    } else if has_exfat_oem(sector0) {
        FsType::ExFat
    } else if has_xfs_magic(sector0) {
        FsType::Xfs
    } else if has_btrfs_magic(btrfs_window) {
        FsType::Btrfs
    } else if has_ext4_magic(ext4_window) {
        FsType::Ext4
    } else {
        FsType::Unknown
    }
}

/// Detection honours the order NTFS, exFAT, XFS, Btrfs, ext4: a family is
/// reported exactly when its magic is present and no earlier family's is, and
/// `Unknown` exactly when no magic is present at all.
pub proof fn lemma_detection_priority(
    sector0: Seq<u8>,
    btrfs_window: Seq<u8>,
    ext4_window: Seq<u8>,
)
    ensures
        detected(sector0, btrfs_window, ext4_window) == FsType::Ntfs <==> is_ntfs(sector0),
        detected(sector0, btrfs_window, ext4_window) == FsType::ExFat <==> !is_ntfs(sector0)
            && is_exfat(sector0),
        detected(sector0, btrfs_window, ext4_window) == FsType::Xfs <==> !is_ntfs(sector0)
            && !is_exfat(sector0) && is_xfs(sector0),
        detected(sector0, btrfs_window, ext4_window) == FsType::Btrfs <==> !is_ntfs(sector0)
            && !is_exfat(sector0) && !is_xfs(sector0) && is_btrfs(btrfs_window),
        detected(sector0, btrfs_window, ext4_window) == FsType::Ext4 <==> !is_ntfs(sector0)
            && !is_exfat(sector0) && !is_xfs(sector0) && !is_btrfs(btrfs_window) && is_ext4(
            ext4_window,
        ),
        detected(sector0, btrfs_window, ext4_window) == FsType::Unknown <==> !is_ntfs(sector0)
            && !is_exfat(sector0) && !is_xfs(sector0) && !is_btrfs(btrfs_window) && !is_ext4(
            ext4_window,
        ),
{
}

/// The three magics that live in the first sector exclude one another, so
/// among them the order of the probes cannot change the outcome.
pub proof fn lemma_first_sector_magics_exclusive(sector0: Seq<u8>)
    ensures
        !(is_ntfs(sector0) && is_exfat(sector0)),
        !(is_ntfs(sector0) && is_xfs(sector0)),
        !(is_exfat(sector0) && is_xfs(sector0)),
{
    if sector0.len() >= 11 {
        let oem = sector0.subrange(3, 11);
        assert(oem[0] == sector0[3]);
        assert(ntfs_oem()[0] == 0x4E);
        assert(exfat_oem()[0] == 0x45);
        let head = sector0.subrange(0, 4);
        assert(head[3] == sector0[3]);
        assert(xfs_magic()[3] == 0x42);
    }
}

} // verus!
