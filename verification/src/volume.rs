//! The raw fields that the boot sector or superblock of a volume holds, and
//! the decoders that take them out of a byte buffer.

use vstd::prelude::*;
use vstd::slice::slice_subrange;
use crate::bytes::{le16, le32, le64, read_le16, read_le32, read_le64};
use crate::error::RawFsError;
use crate::geometry::{block_size_from_log, ext4_block_size};
use crate::signature::{has_ext4_magic, has_ntfs_oem, is_ext4, is_ntfs};
use crate::text::{
    ascii_text, decode_utf8_lossy, is_ascii_bytes, lemma_ascii_decodes_to_itself, trim_nul,
    trim_nul_spec, trim_whitespace, trim_whitespace_spec, utf8_lossy,
};

verus! {

/// Bytes of a boot sector.
pub const BOOT_SECTOR_LEN: usize = 512;

/// Bytes of the ext4 superblock window.
pub const SUPERBLOCK_LEN: usize = 1024;

/// Fields of an ext4 superblock, as stored on disk.
#[derive(Debug)]
pub struct Ext4SuperblockInfo {
    pub s_inodes_count: u32,
    pub s_blocks_count_lo: u32,
    pub s_r_blocks_count_lo: u32,
    pub s_free_blocks_count_lo: u32,
    pub s_free_inodes_count: u32,
    pub s_log_block_size: u32,
    pub s_magic: u16,
    pub s_volume_name: String,
    pub s_last_mounted: String,
}

/// What an [`Ext4SuperblockInfo`] holds, with its texts as character sequences.
pub struct Ext4SuperblockFields {
    pub s_inodes_count: u32,
    pub s_blocks_count_lo: u32,
    pub s_r_blocks_count_lo: u32,
    pub s_free_blocks_count_lo: u32,
    pub s_free_inodes_count: u32,
    pub s_log_block_size: u32,
    pub s_magic: u16,
    pub s_volume_name: Seq<char>,
    pub s_last_mounted: Seq<char>,
}

impl View for Ext4SuperblockInfo {
    type V = Ext4SuperblockFields;

    open spec fn view(&self) -> Ext4SuperblockFields {
        Ext4SuperblockFields {
            s_inodes_count: self.s_inodes_count,
            s_blocks_count_lo: self.s_blocks_count_lo,
            s_r_blocks_count_lo: self.s_r_blocks_count_lo,
            s_free_blocks_count_lo: self.s_free_blocks_count_lo,
            s_free_inodes_count: self.s_free_inodes_count,
            s_log_block_size: self.s_log_block_size,
            s_magic: self.s_magic,
            s_volume_name: self.s_volume_name@,
            s_last_mounted: self.s_last_mounted@,
        }
    }
}

impl Ext4SuperblockInfo {
    /// The logarithm of the block size stands for a size that fits in 64
    /// bits.
    pub open spec fn wf(&self) -> bool {
        ext4_block_size(self.s_log_block_size as nat) is Some
    }

    /// Bytes per block: 1024 shifted left by `s_log_block_size`, or none where
    /// that does not fit in 64 bits. A superblock that
    /// [`parse_ext4_superblock`] gave always has a block size.
    pub fn block_size(&self) -> (r: Option<u64>)
        ensures
            r == ext4_block_size(self.s_log_block_size as nat),
            self.wf() ==> r is Some,
    {
        block_size_from_log(self.s_log_block_size)
    }
}

/// Fields of an NTFS boot sector.
#[derive(Debug, Clone, Copy, PartialEq, Eq, Structural)]
pub struct NtfsVolumeInfo {
    pub serial_number: u64,
    pub bytes_per_sector: u16,
    pub sectors_per_cluster: u8,
    pub total_sectors: u64,
}

/// Fields of a FAT boot sector.
#[derive(Debug)]
pub struct FatVolumeInfo {
    pub volume_label: String,
    pub oem_name: String,
    pub bytes_per_sector: u16,
    pub sectors_per_cluster: u8,
    pub total_sectors: u32,
}

/// What a [`FatVolumeInfo`] holds, with its texts as character sequences.
pub struct FatVolumeFields {
    pub volume_label: Seq<char>,
    pub oem_name: Seq<char>,
    pub bytes_per_sector: u16,
    pub sectors_per_cluster: u8,
    pub total_sectors: u32,
}

impl View for FatVolumeInfo {
    type V = FatVolumeFields;

    open spec fn view(&self) -> FatVolumeFields {
        FatVolumeFields {
            volume_label: self.volume_label@,
            oem_name: self.oem_name@,
            bytes_per_sector: self.bytes_per_sector,
            sectors_per_cluster: self.sectors_per_cluster,
            total_sectors: self.total_sectors,
        }
    }
}

/// The text of a NUL-padded field: the bytes between the padding, decoded as
/// UTF-8 with replacement of what is malformed.
pub open spec fn nul_padded_text(field: Seq<u8>) -> Seq<char> {
    utf8_lossy(trim_nul_spec(field))
}

/// The text of a space-padded field: the bytes decoded as UTF-8 with
/// replacement of what is malformed, without the whitespace at the two ends.
pub open spec fn space_padded_text(field: Seq<u8>) -> Seq<char> {
    trim_whitespace_spec(utf8_lossy(field))
}

/// The text of a NUL-padded field that holds ASCII between the padding.
pub open spec fn nul_padded_ascii(field: Seq<u8>) -> Seq<char> {
    ascii_text(trim_nul_spec(field))
}

/// The text of a space-padded field that holds ASCII.
pub open spec fn space_padded_ascii(field: Seq<u8>) -> Seq<char> {
    trim_whitespace_spec(ascii_text(field))
}

/// The fields of the NTFS boot sector `b`.
pub open spec fn ntfs_fields(b: Seq<u8>) -> NtfsVolumeInfo {
    NtfsVolumeInfo {
        serial_number: le64(b, 72) as u64,
        bytes_per_sector: le16(b, 11) as u16,
        sectors_per_cluster: b[13],
        total_sectors: le64(b, 40) as u64,
    }
}

/// Whether the boot sector `b` ends in the signature `55 AA`.
pub open spec fn is_fat(b: Seq<u8>) -> bool {
    b.len() >= BOOT_SECTOR_LEN && b[510] == 0x55 && b[511] == 0xAA
}

/// The label that was used where a volume carries none.
pub open spec fn no_label() -> Seq<char> {
    "NO LABEL"@
}

/// The field that holds the volume label of the FAT boot sector `b`: with an
/// extended boot signature at offset 38 (FAT12 and FAT16) the field at 43,
/// with one at offset 66 (FAT32) the field at 71, else none.
pub open spec fn fat_label_field(b: Seq<u8>) -> Option<Seq<u8>> {
    if b[38] == 0x29 {
        Some(b.subrange(43, 54))
    } else if b[66] == 0x29 {
        Some(b.subrange(71, 82))
    } else {
        None
    }
}

/// The volume label of the FAT boot sector `b`: the text of its label field,
/// or `NO LABEL` where it has none.
pub open spec fn fat_label(b: Seq<u8>) -> Seq<char> {
    match fat_label_field(b) {
        Some(field) => space_padded_text(field),
        None => no_label(),
    }
}

/// The fields of the FAT boot sector `b`. The sector count is the 16-bit one
/// unless that is zero.
pub open spec fn fat_fields(b: Seq<u8>) -> FatVolumeFields {
    FatVolumeFields {
        volume_label: fat_label(b),
        oem_name: space_padded_text(b.subrange(3, 11)),
        bytes_per_sector: le16(b, 11) as u16,
        sectors_per_cluster: b[13],
        total_sectors: if le16(b, 19) != 0 {
            le16(b, 19) as u32
        } else {
            le32(b, 32) as u32
        },
    }
}

/// The fields of the ext4 superblock window `w`.
pub open spec fn ext4_fields(w: Seq<u8>) -> Ext4SuperblockFields {
    Ext4SuperblockFields {
        s_inodes_count: le32(w, 0) as u32,
        s_blocks_count_lo: le32(w, 4) as u32,
        s_r_blocks_count_lo: le32(w, 8) as u32,
        s_free_blocks_count_lo: le32(w, 12) as u32,
        s_free_inodes_count: le32(w, 16) as u32,
        s_log_block_size: le32(w, 24) as u32,
        s_magic: le16(w, 56) as u16,
        s_volume_name: nul_padded_text(w.subrange(120, 136)),
        s_last_mounted: nul_padded_text(w.subrange(136, 200)),
    }
}

/// Reads the text of the NUL-padded field `buf[from..to]`.
fn read_nul_padded(buf: &[u8], from: usize, to: usize) -> (s: String)
    requires
        from <= to <= buf.len(),
    ensures
        s@ == nul_padded_text(buf@.subrange(from as int, to as int)),
        is_ascii_bytes(trim_nul_spec(buf@.subrange(from as int, to as int))) ==> s@
            == nul_padded_ascii(buf@.subrange(from as int, to as int)),
{
    let field = trim_nul(slice_subrange(buf, from, to));
    proof {
        if is_ascii_bytes(field@) {
            lemma_ascii_decodes_to_itself(field@);
        }
    }
    decode_utf8_lossy(field)
}

/// Reads the text of the space-padded field `buf[from..to]`.
fn read_space_padded(buf: &[u8], from: usize, to: usize) -> (s: String)
    requires
        from <= to <= buf.len(),
    ensures
        s@ == space_padded_text(buf@.subrange(from as int, to as int)),
        is_ascii_bytes(buf@.subrange(from as int, to as int)) ==> s@ == space_padded_ascii(
            buf@.subrange(from as int, to as int),
        ),
{
    let field = slice_subrange(buf, from, to);
    proof {
        if is_ascii_bytes(field@) {
            lemma_ascii_decodes_to_itself(field@);
        }
    }
    let raw = decode_utf8_lossy(field);
    trim_whitespace(raw.as_str())
}

/// Decodes the boot sector of an NTFS volume.
///
/// Fails with `IoError` if fewer than 512 bytes are given, and with
/// `UnknownSignature` if the OEM identifier at offset 3 is not `NTFS`
/// followed by four spaces.
pub fn parse_ntfs_volume(buffer: &[u8]) -> (r: Result<NtfsVolumeInfo, RawFsError>)
    ensures
        match r {
            Ok(info) => buffer@.len() >= BOOT_SECTOR_LEN && is_ntfs(buffer@) && info == ntfs_fields(
                buffer@,
            ),
            Err(e) => if buffer@.len() < BOOT_SECTOR_LEN {
                e == RawFsError::IoError
            } else {
                !is_ntfs(buffer@) && e == RawFsError::UnknownSignature
            },
        },
{
    if buffer.len() < BOOT_SECTOR_LEN {
        return Err(RawFsError::IoError);
    }
    if !has_ntfs_oem(buffer) {
        return Err(RawFsError::UnknownSignature);
    }
    Ok(
        NtfsVolumeInfo {
            serial_number: read_le64(buffer, 72),
            bytes_per_sector: read_le16(buffer, 11),
            sectors_per_cluster: buffer[13],
            total_sectors: read_le64(buffer, 40),
        },
    )
}

/// Decodes the boot sector of a FAT volume.
///
/// Fails with `IoError` if fewer than 512 bytes are given, and with
/// `UnknownSignature` if the sector does not end in `55 AA`. The two texts
/// are decoded as UTF-8 with replacement of what is malformed; where a field
/// holds ASCII, its text is the characters of the field without the
/// whitespace at the two ends.
pub fn parse_fat_volume(buffer: &[u8]) -> (r: Result<FatVolumeInfo, RawFsError>)
    ensures
        match r {
            Ok(info) => {
                &&& is_fat(buffer@)
                &&& info@ == fat_fields(buffer@)
                &&& is_ascii_bytes(buffer@.subrange(3, 11)) ==> info.oem_name@
                    == space_padded_ascii(buffer@.subrange(3, 11))
                &&& match fat_label_field(buffer@) {
                    Some(field) => is_ascii_bytes(field) ==> info.volume_label@
                        == space_padded_ascii(field),
                    None => info.volume_label@ == no_label(),
                }
            },
            Err(e) => if buffer@.len() < BOOT_SECTOR_LEN {
                e == RawFsError::IoError
            } else {
                !is_fat(buffer@) && e == RawFsError::UnknownSignature
            },
        },
{
    if buffer.len() < BOOT_SECTOR_LEN {
        return Err(RawFsError::IoError);
    }
    if buffer[510] != 0x55 || buffer[511] != 0xAA {
        return Err(RawFsError::UnknownSignature);
    }
    let oem_name = read_space_padded(buffer, 3, 11);
    let total_sectors_16: u16 = read_le16(buffer, 19);
    let total_sectors_32: u32 = read_le32(buffer, 32);
    let total_sectors: u32 = if total_sectors_16 != 0 {
        total_sectors_16 as u32
    } else {
        total_sectors_32
    };
    let volume_label = if buffer[38] == 0x29 {
        read_space_padded(buffer, 43, 54)
    } else if buffer[66] == 0x29 {
        read_space_padded(buffer, 71, 82)
    } else {
        "NO LABEL".to_owned()
    };
    Ok(
        FatVolumeInfo {
            volume_label,
            oem_name,
            bytes_per_sector: read_le16(buffer, 11),
            sectors_per_cluster: buffer[13],
            total_sectors,
        },
    )
}

/// Decodes an ext4 superblock from the 1024-byte window that starts at
/// absolute offset 1024 of the partition.
///
/// Fails with `IoError` if fewer than 1024 bytes are given, and with
/// `UnknownSignature` if the magic at offset 56 is not `0xEF53` or the
/// logarithm of the block size at offset 24 is so large that the block size
/// does not fit in 64 bits. The two texts are decoded as UTF-8 with
/// replacement of what is malformed; where a field holds ASCII between its NUL
/// padding, its text is those characters.
pub fn parse_ext4_superblock(window: &[u8]) -> (r: Result<Ext4SuperblockInfo, RawFsError>)
    ensures
        match r {
            Ok(info) => {
                &&& window@.len() >= SUPERBLOCK_LEN
                &&& is_ext4(window@)
                &&& ext4_block_size(le32(window@, 24)) is Some
                &&& info@ == ext4_fields(window@)
                &&& info.wf()
                &&& is_ascii_bytes(trim_nul_spec(window@.subrange(120, 136)))
                    ==> info.s_volume_name@ == nul_padded_ascii(window@.subrange(120, 136))
                &&& is_ascii_bytes(trim_nul_spec(window@.subrange(136, 200)))
                    ==> info.s_last_mounted@ == nul_padded_ascii(window@.subrange(136, 200))
            },
            Err(e) => if window@.len() < SUPERBLOCK_LEN {
                e == RawFsError::IoError
            } else {
                &&& !is_ext4(window@) || ext4_block_size(le32(window@, 24)) is None
                &&& e == RawFsError::UnknownSignature
            },
        },
{
    if window.len() < SUPERBLOCK_LEN {
        return Err(RawFsError::IoError);
    }
    if !has_ext4_magic(window) {
        return Err(RawFsError::UnknownSignature);
    }
    if block_size_from_log(read_le32(window, 24)).is_none() {
        return Err(RawFsError::UnknownSignature);
    }
    Ok(
        Ext4SuperblockInfo {
            s_inodes_count: read_le32(window, 0),
            s_blocks_count_lo: read_le32(window, 4),
            s_r_blocks_count_lo: read_le32(window, 8),
            s_free_blocks_count_lo: read_le32(window, 12),
            s_free_inodes_count: read_le32(window, 16),
            s_log_block_size: read_le32(window, 24),
            s_magic: read_le16(window, 56),
            s_volume_name: read_nul_padded(window, 120, 136),
            s_last_mounted: read_nul_padded(window, 136, 200),
        },
    )
}

} // verus!
