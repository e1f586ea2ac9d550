//! Normalized inspection of a partition: the family that its signature names
//! and the metadata that the family's boot sector or superblock gives.

use vstd::prelude::*;
use vstd::arithmetic::power2::is_pow2;
use vstd::string::StrSliceExecFns;
use crate::bytes::{be32, le16, le32, le64, read_be32, read_le16, read_le32, read_le64};
use crate::error::RawFsError;
use crate::geometry::{
    block_size_from_field, ext4_block_size, is_power_of_two, lemma_ext4_block_size_is_pow2,
    lemma_shifted_one_is_pow2, plain_block_size, shift_one, shifted_one,
};
use crate::signature::{detect_signature, detected, FsType};
use crate::text::{is_ascii_bytes, to_upper_hex, trim_nul_spec, upper_hex};
use crate::volume::{nul_padded_ascii, nul_padded_text, parse_ext4_superblock};

verus! {

/// Bytes of the first probe window, read at offset 0.
pub const FIRST_WINDOW_LEN: usize = 4096;

/// Bytes of the Btrfs probe window, read at absolute offset 65536.
pub const BTRFS_WINDOW_LEN: usize = 1024;

/// Bytes of the ext4 probe window, read at absolute offset 1024.
pub const EXT4_WINDOW_LEN: usize = 1024;

/// Absolute offset of the Btrfs probe window.
pub const BTRFS_WINDOW_OFFSET: u64 = 65536;

/// Absolute offset of the ext4 probe window.
pub const EXT4_WINDOW_OFFSET: u64 = 1024;

/// What is known of a partition after inspection.
#[derive(Debug)]
pub struct FilesystemInspection {
    pub fs_type: FsType,
    pub volume_name: String,
    /// Bytes per block, a positive power of two.
    pub block_size: u64,
    /// Zero where the probed fields do not give it.
    pub total_blocks: u64,
    /// Zero where the probed fields do not give it.
    pub free_blocks: u64,
    /// Upper-case hexadecimal, or `N/A`.
    pub serial_number: String,
    /// Descriptive tags of the family, in a fixed order.
    pub features: Vec<String>,
}

/// What a [`FilesystemInspection`] holds, with its texts as character
/// sequences.
pub struct InspectionView {
    pub fs_type: FsType,
    pub volume_name: Seq<char>,
    pub block_size: u64,
    pub total_blocks: u64,
    pub free_blocks: u64,
    pub serial_number: Seq<char>,
    pub features: Seq<Seq<char>>,
}

impl View for FilesystemInspection {
    type V = InspectionView;

    open spec fn view(&self) -> InspectionView {
        InspectionView {
            fs_type: self.fs_type,
            volume_name: self.volume_name@,
            block_size: self.block_size,
            total_blocks: self.total_blocks,
            free_blocks: self.free_blocks,
            serial_number: self.serial_number@,
            features: self.features.deep_view(),
        }
    }
}

impl FilesystemInspection {
    /// The block size is a positive power of two.
    pub open spec fn wf(&self) -> bool {
        is_pow2(self.block_size as int)
    }

    /// Tells whether the block size is a positive power of two. Every result
    /// of [`inspect`] is so; a value that was put together by hand need not
    /// be.
    pub fn is_well_formed(&self) -> (b: bool)
        ensures
            b == self.wf(),
    {
        is_power_of_two(self.block_size)
    }
}

/// The name given to a volume that carries none.
pub open spec fn unnamed_volume() -> Seq<char> {
    "NO LABEL"@
}

/// The serial number of a family whose probed fields hold none.
pub open spec fn no_serial() -> Seq<char> {
    "N/A"@
}

/// The fixed tags of each family.
pub open spec fn family_features(t: FsType) -> Seq<Seq<char>> {
    match t {
        FsType::Ntfs => seq!["Journaling"@, "Access Control"@],
        FsType::ExFat => seq!["Large Files"@, "Portability"@],
        FsType::Xfs => seq!["Journaling"@, "Scalability"@],
        FsType::Btrfs => seq!["Copy-on-Write"@, "Snapshots"@],
        FsType::Ext4 => seq!["Stability"@, "Journaling"@],
        FsType::Unknown => Seq::empty(),
    }
}

/// The block size that the geometry field of family `t` stands for, or none
/// where the field stands for no positive power of two that fits in 64 bits:
///
/// * NTFS: the bytes per sector, little-endian 16-bit at offset 11;
/// * exFAT: two to the power of the byte at offset 108;
/// * XFS: the big-endian 32-bit number at offset 4;
/// * Btrfs: the little-endian 32-bit number at offset 144 of its window;
/// * ext4: 1024 shifted left by the little-endian 32-bit number at offset 24
///   of its window.
pub open spec fn block_size_of(
    t: FsType,
    sector0: Seq<u8>,
    btrfs_window: Seq<u8>,
    ext4_window: Seq<u8>,
) -> Option<u64> {
    match t {
        FsType::Ntfs => plain_block_size(le16(sector0, 11)),
        FsType::ExFat => shifted_one(sector0[108] as nat),
        FsType::Xfs => plain_block_size(be32(sector0, 4)),
        FsType::Btrfs => plain_block_size(le32(btrfs_window, 144)),
        FsType::Ext4 => ext4_block_size(le32(ext4_window, 24)),
        FsType::Unknown => None,
    }
}

/// Whether the geometry field of family `t` stands for a block size.
pub open spec fn geometry_in_range(
    t: FsType,
    sector0: Seq<u8>,
    btrfs_window: Seq<u8>,
    ext4_window: Seq<u8>,
) -> bool {
    block_size_of(t, sector0, btrfs_window, ext4_window) is Some
}

/// The volume name of an ext4 superblock window, or the substitute where the
/// field is empty.
pub open spec fn ext4_volume_name(window: Seq<u8>) -> Seq<char> {
    let name = nul_padded_text(window.subrange(120, 136));
    if name.len() == 0 {
        unnamed_volume()
    } else {
        name
    }
}

/// The volume name of an ext4 superblock window whose name field holds ASCII
/// between its NUL padding.
pub open spec fn ext4_ascii_volume_name(window: Seq<u8>) -> Seq<char> {
    let name = nul_padded_ascii(window.subrange(120, 136));
    if name.len() == 0 {
        unnamed_volume()
    } else {
        name
    }
}

/// The serial number of a partition of family `t`: for NTFS the
/// little-endian 64-bit number at offset 72, for exFAT the little-endian
/// 32-bit number at offset 100, both in upper-case hexadecimal; `N/A` for the
/// other families.
pub open spec fn serial_of(t: FsType, sector0: Seq<u8>) -> Seq<char> {
    match t {
        FsType::Ntfs => upper_hex(le64(sector0, 72)),
        FsType::ExFat => upper_hex(le32(sector0, 100)),
        _ => no_serial(),
    }
}

/// The inspection of a partition of family `t` whose geometry field stands
/// for a block size. Volume name and block counts are read for ext4 alone;
/// the other families get the substitute name and zero counts.
pub open spec fn inspection_of(
    t: FsType,
    sector0: Seq<u8>,
    btrfs_window: Seq<u8>,
    ext4_window: Seq<u8>,
) -> InspectionView {
    InspectionView {
        fs_type: t,
        volume_name: if t == FsType::Ext4 {
            ext4_volume_name(ext4_window)
        } else {
            unnamed_volume()
        },
        block_size: block_size_of(t, sector0, btrfs_window, ext4_window)->0,
        total_blocks: if t == FsType::Ext4 {
            le32(ext4_window, 4) as u64
        } else {
            0
        },
        free_blocks: if t == FsType::Ext4 {
            le32(ext4_window, 12) as u64
        } else {
            0
        },
        serial_number: serial_of(t, sector0),
        features: family_features(t),
    }
}

/// Whether each probe window has the length that inspection needs.
pub open spec fn windows_complete(
    sector0: Seq<u8>,
    btrfs_window: Seq<u8>,
    ext4_window: Seq<u8>,
) -> bool {
    sector0.len() >= FIRST_WINDOW_LEN && btrfs_window.len() >= BTRFS_WINDOW_LEN
        && ext4_window.len() >= EXT4_WINDOW_LEN
}

/// Every block size that a geometry field stands for is a positive power of
/// two.
pub proof fn lemma_block_size_is_pow2(
    t: FsType,
    sector0: Seq<u8>,
    btrfs_window: Seq<u8>,
    ext4_window: Seq<u8>,
)
    ensures
        block_size_of(t, sector0, btrfs_window, ext4_window) matches Some(v) ==> is_pow2(
            v as int,
        ),
{
    lemma_shifted_one_is_pow2(sector0[108] as nat);
    lemma_ext4_block_size_is_pow2(le32(ext4_window, 24));
}

/// The tags of a family.
pub fn features_of(t: FsType) -> (v: Vec<String>)
    ensures
        v.deep_view() == family_features(t),
{
    let mut v: Vec<String> = Vec::new();
    match t {
        FsType::Ntfs => {
            v.push("Journaling".to_owned());
            v.push("Access Control".to_owned());
        },
        FsType::ExFat => {
            v.push("Large Files".to_owned());
            v.push("Portability".to_owned());
        },
        FsType::Xfs => {
            v.push("Journaling".to_owned());
            v.push("Scalability".to_owned());
        },
        FsType::Btrfs => {
            v.push("Copy-on-Write".to_owned());
            v.push("Snapshots".to_owned());
        },
        FsType::Ext4 => {
            v.push("Stability".to_owned());
            v.push("Journaling".to_owned());
        },
        FsType::Unknown => {},
    }
    assert(v.deep_view() =~= family_features(t));
    v
}

/// Decodes the block size of a partition of family `t`.
fn read_block_size(t: FsType, sector0: &[u8], btrfs_window: &[u8], ext4_window: &[u8]) -> (r:
    Option<u64>)
    requires
        windows_complete(sector0@, btrfs_window@, ext4_window@),
    ensures
        r == block_size_of(t, sector0@, btrfs_window@, ext4_window@),
{
    match t {
        FsType::Ntfs => block_size_from_field(read_le16(sector0, 11) as u64),
        FsType::ExFat => shift_one(sector0[108]),
        FsType::Xfs => block_size_from_field(read_be32(sector0, 4) as u64),
        FsType::Btrfs => block_size_from_field(read_le32(btrfs_window, 144) as u64),
        FsType::Ext4 => crate::geometry::block_size_from_log(read_le32(ext4_window, 24)),
        FsType::Unknown => None,
    }
}

/// Inspects a partition from its three probe windows: the first 4096 bytes,
/// the 1024 bytes at absolute offset 65536 and the 1024 bytes at absolute
/// offset 1024.
///
/// A window that is shorter than that is a truncated read and fails with
/// `IoError` before any classification. Otherwise the family is the first of
/// NTFS, exFAT, XFS, Btrfs and ext4 whose magic is present. With no magic
/// present, and with a geometry field of that family that stands for no
/// positive power of two in 64 bits, the inspection fails with
/// `UnknownSignature`: what is handed out always has a block size that is a
/// positive power of two. The name of an ext4 volume is decoded as UTF-8 with
/// replacement of what is malformed; where the field holds ASCII between its
/// NUL padding, the name is those characters.
pub fn inspect(sector0: &[u8], btrfs_window: &[u8], ext4_window: &[u8]) -> (r: Result<
    FilesystemInspection,
    RawFsError,
>)
    ensures
        match r {
            Ok(info) => {
                &&& windows_complete(sector0@, btrfs_window@, ext4_window@)
                &&& detected(sector0@, btrfs_window@, ext4_window@) != FsType::Unknown
                &&& geometry_in_range(
                    detected(sector0@, btrfs_window@, ext4_window@),
                    sector0@,
                    btrfs_window@,
                    ext4_window@,
                )
                &&& info@ == inspection_of(
                    detected(sector0@, btrfs_window@, ext4_window@),
                    sector0@,
                    btrfs_window@,
                    ext4_window@,
                )
                &&& info.fs_type == detected(sector0@, btrfs_window@, ext4_window@)
                &&& info.wf()
                &&& info.fs_type == FsType::Ext4 && is_ascii_bytes(
                    trim_nul_spec(ext4_window@.subrange(120, 136)),
                ) ==> info.volume_name@ == ext4_ascii_volume_name(ext4_window@)
            },
            Err(e) => if !windows_complete(sector0@, btrfs_window@, ext4_window@) {
                e == RawFsError::IoError
            } else {
                &&& detected(sector0@, btrfs_window@, ext4_window@) == FsType::Unknown
                    || !geometry_in_range(
                    detected(sector0@, btrfs_window@, ext4_window@),
                    sector0@,
                    btrfs_window@,
                    ext4_window@,
                )
                &&& e == RawFsError::UnknownSignature
            },
        },
{
    if sector0.len() < FIRST_WINDOW_LEN || btrfs_window.len() < BTRFS_WINDOW_LEN
        || ext4_window.len() < EXT4_WINDOW_LEN {
        return Err(RawFsError::IoError);
    }
    let t = detect_signature(sector0, btrfs_window, ext4_window);
    let block_size = match read_block_size(t, sector0, btrfs_window, ext4_window) {
        Some(size) => size,
        None => {
            return Err(RawFsError::UnknownSignature);
        },
    };
    proof {
        lemma_block_size_is_pow2(t, sector0@, btrfs_window@, ext4_window@);
    }
    let features = features_of(t);
    match t {
        FsType::Ntfs => Ok(
            FilesystemInspection {
                fs_type: t,
                volume_name: "NO LABEL".to_owned(),
                block_size,
                total_blocks: 0,
                free_blocks: 0,
                serial_number: to_upper_hex(read_le64(sector0, 72)),
                features,
            },
        ),
        FsType::ExFat => Ok(
            FilesystemInspection {
                fs_type: t,
                volume_name: "NO LABEL".to_owned(),
                block_size,
                total_blocks: 0,
                free_blocks: 0,
                serial_number: to_upper_hex(read_le32(sector0, 100) as u64),
                features,
            },
        ),
        FsType::Ext4 => match parse_ext4_superblock(ext4_window) {
            Ok(sb) => {
                let volume_name = if sb.s_volume_name.as_str().unicode_len() == 0 {
                    "NO LABEL".to_owned()
                } else {
                    sb.s_volume_name
                };
                Ok(
                    FilesystemInspection {
                        fs_type: t,
                        volume_name,
                        block_size,
                        total_blocks: sb.s_blocks_count_lo as u64,
                        free_blocks: sb.s_free_blocks_count_lo as u64,
                        serial_number: "N/A".to_owned(),
                        features,
                    },
                )
            },
            Err(e) => Err(e),
        },
        _ => Ok(
            FilesystemInspection {
                fs_type: t,
                volume_name: "NO LABEL".to_owned(),
                block_size,
                total_blocks: 0,
                free_blocks: 0,
                serial_number: "N/A".to_owned(),
                features,
            },
        ),
    }
}

} // verus!
