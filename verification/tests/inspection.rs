use master_browser::error::RawFsError;
use master_browser::geometry::{
    block_size_from_field, block_size_from_log, is_power_of_two, shift_one,
};
use master_browser::inspect::{features_of, inspect, FilesystemInspection};
use master_browser::signature::{
    detect_signature, has_btrfs_magic, has_exfat_oem, has_ext4_magic, has_ntfs_oem, has_xfs_magic,
    FsType,
};

fn blank() -> (Vec<u8>, Vec<u8>, Vec<u8>) {
    (vec![0u8; 4096], vec![0u8; 1024], vec![0u8; 1024])
}

fn put(buf: &mut [u8], at: usize, bytes: &[u8]) {
    buf[at..at + bytes.len()].copy_from_slice(bytes);
}

fn ntfs_sector() -> Vec<u8> {
    let mut s = vec![0u8; 4096];
    put(&mut s, 3, b"NTFS    ");
    put(&mut s, 11, &512u16.to_le_bytes());
    s[13] = 8;
    put(&mut s, 72, &0x1234_ABCD_0000_00FFu64.to_le_bytes());
    s
}

fn exfat_sector() -> Vec<u8> {
    let mut s = vec![0u8; 4096];
    put(&mut s, 3, b"EXFAT   ");
    put(&mut s, 100, &0xCAFE_F00Du32.to_le_bytes());
    s[108] = 12;
    s
}

fn xfs_sector() -> Vec<u8> {
    let mut s = vec![0u8; 4096];
    put(&mut s, 0, b"XFSB");
    put(&mut s, 4, &4096u32.to_be_bytes());
    s
}

fn btrfs_window() -> Vec<u8> {
    let mut w = vec![0u8; 1024];
    put(&mut w, 64, b"_BHRfS_M");
    put(&mut w, 144, &16384u32.to_le_bytes());
    w
}

fn ext4_window(log_block_size: u32) -> Vec<u8> {
    let mut w = vec![0u8; 1024];
    put(&mut w, 0, &128u32.to_le_bytes());
    put(&mut w, 4, &262144u32.to_le_bytes());
    put(&mut w, 12, &1000u32.to_le_bytes());
    put(&mut w, 24, &log_block_size.to_le_bytes());
    put(&mut w, 56, &0xEF53u16.to_le_bytes());
    put(&mut w, 120, b"rootfs");
    w
}

#[test]
fn ntfs_scenario_block_size_512() {
    let (mut s, b, e) = blank();
    put(&mut s, 3, b"NTFS    ");
    s[11] = 0x00;
    s[12] = 0x02;
    let info = inspect(&s, &b, &e).unwrap();
    assert_eq!(info.fs_type, FsType::Ntfs);
    assert_eq!(info.block_size, 512);
}

#[test]
fn ntfs_fields_are_decoded() {
    let (_, b, e) = blank();
    let info = inspect(&ntfs_sector(), &b, &e).unwrap();
    assert_eq!(info.fs_type, FsType::Ntfs);
    assert_eq!(info.block_size, 512);
    assert_eq!(info.serial_number, "1234ABCD000000FF");
    assert_eq!(info.total_blocks, 0);
    assert_eq!(info.free_blocks, 0);
    assert_eq!(info.volume_name, "NO LABEL");
    assert_eq!(info.features, vec!["Journaling".to_string(), "Access Control".to_string()]);
}

#[test]
fn ntfs_oem_needs_its_trailing_spaces() {
    let (mut s, b, e) = blank();
    put(&mut s, 3, b"NTFS");
    assert!(!has_ntfs_oem(&s));
    assert_eq!(inspect(&s, &b, &e).unwrap_err(), RawFsError::UnknownSignature);
    put(&mut s, 3, b"NTFS   \0");
    assert!(!has_ntfs_oem(&s));
    put(&mut s, 3, b"NTFS    ");
    assert!(has_ntfs_oem(&s));
}

#[test]
fn ntfs_oem_at_offset_zero_is_not_ntfs() {
    let (mut s, b, e) = blank();
    put(&mut s, 0, b"NTFS    ");
    assert_eq!(detect_signature(&s, &b, &e), FsType::Unknown);
}

#[test]
fn exfat_fields_are_decoded() {
    let (_, b, e) = blank();
    let info = inspect(&exfat_sector(), &b, &e).unwrap();
    assert_eq!(info.fs_type, FsType::ExFat);
    assert_eq!(info.block_size, 4096);
    assert_eq!(info.serial_number, "CAFEF00D");
    assert_eq!(info.volume_name, "NO LABEL");
    assert_eq!(info.features, vec!["Large Files".to_string(), "Portability".to_string()]);
}

#[test]
fn exfat_block_size_is_two_to_the_shift() {
    let (_, b, e) = blank();
    for (shift, size) in [(0u8, 1u64), (9, 512), (10, 1024), (16, 65536), (63, 1 << 63)] {
        let mut s = exfat_sector();
        s[108] = shift;
        assert_eq!(inspect(&s, &b, &e).unwrap().block_size, size);
        assert_eq!(shift_one(shift), Some(size));
    }
}

#[test]
fn exfat_shift_that_does_not_fit_is_refused() {
    let (_, b, e) = blank();
    for shift in [64u8, 65, 128, 255] {
        let mut s = exfat_sector();
        s[108] = shift;
        assert_eq!(detect_signature(&s, &b, &e), FsType::ExFat);
        assert_eq!(inspect(&s, &b, &e).unwrap_err(), RawFsError::UnknownSignature);
        assert_eq!(shift_one(shift), None);
    }
}

#[test]
fn ntfs_sector_size_that_is_no_power_of_two_is_refused() {
    let (_, b, e) = blank();
    for bytes_per_sector in [0u16, 3, 6, 511, 513, 1000, 65535] {
        let mut s = ntfs_sector();
        put(&mut s, 11, &bytes_per_sector.to_le_bytes());
        assert_eq!(detect_signature(&s, &b, &e), FsType::Ntfs);
        assert_eq!(inspect(&s, &b, &e).unwrap_err(), RawFsError::UnknownSignature);
    }
    for bytes_per_sector in [1u16, 2, 256, 512, 4096, 32768] {
        let mut s = ntfs_sector();
        put(&mut s, 11, &bytes_per_sector.to_le_bytes());
        assert_eq!(inspect(&s, &b, &e).unwrap().block_size, bytes_per_sector as u64);
    }
}

#[test]
fn xfs_and_btrfs_sizes_that_are_no_power_of_two_are_refused() {
    let (blank_sector, b, e) = blank();
    for size in [0u32, 3, 4095, 4097, 12288, u32::MAX] {
        let mut s = xfs_sector();
        put(&mut s, 4, &size.to_be_bytes());
        assert_eq!(inspect(&s, &b, &e).unwrap_err(), RawFsError::UnknownSignature);
        let mut w = btrfs_window();
        put(&mut w, 144, &size.to_le_bytes());
        assert_eq!(inspect(&blank_sector, &w, &e).unwrap_err(), RawFsError::UnknownSignature);
    }
    let mut s = xfs_sector();
    put(&mut s, 4, &(1u32 << 31).to_be_bytes());
    assert_eq!(inspect(&s, &b, &e).unwrap().block_size, 1 << 31);
}

#[test]
fn a_refused_family_does_not_give_way_to_a_later_one() {
    let (_, b, _) = blank();
    let mut s = ntfs_sector();
    put(&mut s, 11, &0u16.to_le_bytes());
    assert_eq!(
        inspect(&s, &btrfs_window(), &ext4_window(0)).unwrap_err(),
        RawFsError::UnknownSignature
    );
    assert_eq!(detect_signature(&s, &b, &ext4_window(0)), FsType::Ntfs);
}

#[test]
fn xfs_block_size_is_big_endian() {
    let (_, b, e) = blank();
    let info = inspect(&xfs_sector(), &b, &e).unwrap();
    assert_eq!(info.fs_type, FsType::Xfs);
    assert_eq!(info.block_size, 4096);
    assert_eq!(info.serial_number, "N/A");
    assert_eq!(info.features, vec!["Journaling".to_string(), "Scalability".to_string()]);
    let mut s = xfs_sector();
    put(&mut s, 4, &[0x00, 0x01, 0x00, 0x00]);
    assert_eq!(inspect(&s, &b, &e).unwrap().block_size, 0x00010000);
    put(&mut s, 4, &[0x00, 0x00, 0x01, 0x00]);
    assert_eq!(inspect(&s, &b, &e).unwrap().block_size, 0x00000100);
}

#[test]
fn btrfs_is_found_in_its_own_window() {
    let (s, _, e) = blank();
    let info = inspect(&s, &btrfs_window(), &e).unwrap();
    assert_eq!(info.fs_type, FsType::Btrfs);
    assert_eq!(info.block_size, 16384);
    assert_eq!(info.serial_number, "N/A");
    assert_eq!(info.features, vec!["Copy-on-Write".to_string(), "Snapshots".to_string()]);
}

#[test]
fn btrfs_magic_in_the_first_window_does_not_count() {
    let (mut s, b, e) = blank();
    put(&mut s, 64, b"_BHRfS_M");
    assert_eq!(inspect(&s, &b, &e).unwrap_err(), RawFsError::UnknownSignature);
}

#[test]
fn ext4_scenario_block_size_1024() {
    let (s, b, _) = blank();
    let mut w = vec![0u8; 1024];
    put(&mut w, 56, &[0x53, 0xEF]);
    put(&mut w, 0, &128u32.to_le_bytes());
    let info = inspect(&s, &b, &w).unwrap();
    assert_eq!(info.fs_type, FsType::Ext4);
    assert_eq!(info.block_size, 1024);
}

#[test]
fn ext4_fields_are_decoded() {
    let (s, b, _) = blank();
    let info = inspect(&s, &b, &ext4_window(2)).unwrap();
    assert_eq!(info.fs_type, FsType::Ext4);
    assert_eq!(info.block_size, 4096);
    assert_eq!(info.total_blocks, 262144);
    assert_eq!(info.free_blocks, 1000);
    assert_eq!(info.volume_name, "rootfs");
    assert_eq!(info.serial_number, "N/A");
    assert_eq!(info.features, vec!["Stability".to_string(), "Journaling".to_string()]);
}

#[test]
fn ext4_block_size_for_log_0_1_2() {
    let (s, b, _) = blank();
    for (log, size) in [(0u32, 1024u64), (1, 2048), (2, 4096)] {
        assert_eq!(inspect(&s, &b, &ext4_window(log)).unwrap().block_size, size);
        assert_eq!(block_size_from_log(log), Some(size));
    }
}

#[test]
fn ext4_block_size_up_to_the_largest_that_fits() {
    let (s, b, _) = blank();
    assert_eq!(block_size_from_log(6), Some(65536));
    assert_eq!(block_size_from_log(22), Some(1u64 << 32));
    assert_eq!(block_size_from_log(53), Some(1u64 << 63));
    assert_eq!(inspect(&s, &b, &ext4_window(22)).unwrap().block_size, 1u64 << 32);
    assert_eq!(inspect(&s, &b, &ext4_window(53)).unwrap().block_size, 1u64 << 63);
}

#[test]
fn ext4_block_size_that_does_not_fit_is_refused() {
    let (s, b, _) = blank();
    for log in [54u32, 55, 63, 64, 1000, u32::MAX] {
        assert_eq!(block_size_from_log(log), None);
        assert_eq!(detect_signature(&s, &b, &ext4_window(log)), FsType::Ext4);
        assert_eq!(
            inspect(&s, &b, &ext4_window(log)).unwrap_err(),
            RawFsError::UnknownSignature
        );
    }
}

#[test]
fn ext4_empty_volume_name_gets_the_substitute() {
    let (s, b, _) = blank();
    let mut w = ext4_window(0);
    put(&mut w, 120, &[0u8; 16]);
    assert_eq!(inspect(&s, &b, &w).unwrap().volume_name, "NO LABEL");
}

#[test]
fn ext4_volume_name_fills_the_whole_field() {
    let (s, b, _) = blank();
    let mut w = ext4_window(0);
    put(&mut w, 120, b"sixteen-chars-xy");
    w[136] = b'/';
    assert_eq!(inspect(&s, &b, &w).unwrap().volume_name, "sixteen-chars-xy");
}

#[test]
fn ext4_volume_name_with_malformed_bytes_is_decoded_lossily() {
    let (s, b, _) = blank();
    let mut w = ext4_window(0);
    put(&mut w, 120, &[0u8; 16]);
    put(&mut w, 120, &[b'a', 0xFF, b'b']);
    assert_eq!(inspect(&s, &b, &w).unwrap().volume_name, "a\u{FFFD}b");
}

#[test]
fn unknown_signature_is_an_error() {
    let (s, b, e) = blank();
    assert_eq!(inspect(&s, &b, &e).unwrap_err(), RawFsError::UnknownSignature);
    assert_eq!(detect_signature(&s, &b, &e), FsType::Unknown);
    let noise: Vec<u8> = (0..4096u32).map(|i| (i % 251) as u8).collect();
    assert_eq!(
        inspect(&noise, &noise[..1024], &noise[..1024]).unwrap_err(),
        RawFsError::UnknownSignature
    );
}

#[test]
fn truncated_windows_are_an_io_error() {
    let (s, b, e) = blank();
    assert_eq!(inspect(&s[..4095], &b, &e).unwrap_err(), RawFsError::IoError);
    assert_eq!(inspect(&s, &b[..1023], &e).unwrap_err(), RawFsError::IoError);
    assert_eq!(inspect(&s, &b, &e[..1023]).unwrap_err(), RawFsError::IoError);
    assert_eq!(inspect(&[], &[], &[]).unwrap_err(), RawFsError::IoError);
}

#[test]
fn truncation_is_reported_even_where_a_magic_is_present() {
    let (_, b, e) = blank();
    let s = ntfs_sector();
    assert_eq!(inspect(&s[..512], &b, &e).unwrap_err(), RawFsError::IoError);
    assert_eq!(inspect(&s, &b, &ext4_window(0)[..100]).unwrap_err(), RawFsError::IoError);
}

#[test]
fn longer_windows_are_accepted() {
    let mut s = ntfs_sector();
    s.extend_from_slice(&[0xFF; 100]);
    let info = inspect(&s, &vec![0u8; 2048], &vec![0u8; 4096]).unwrap();
    assert_eq!(info.fs_type, FsType::Ntfs);
}

#[test]
fn priority_ntfs_over_btrfs_and_ext4() {
    let info = inspect(&ntfs_sector(), &btrfs_window(), &ext4_window(0)).unwrap();
    assert_eq!(info.fs_type, FsType::Ntfs);
    assert_eq!(info.block_size, 512);
}

#[test]
fn priority_exfat_over_btrfs_and_ext4() {
    let info = inspect(&exfat_sector(), &btrfs_window(), &ext4_window(0)).unwrap();
    assert_eq!(info.fs_type, FsType::ExFat);
}

#[test]
fn priority_xfs_over_btrfs_and_ext4() {
    let info = inspect(&xfs_sector(), &btrfs_window(), &ext4_window(0)).unwrap();
    assert_eq!(info.fs_type, FsType::Xfs);
}

#[test]
fn priority_btrfs_over_ext4() {
    let (s, _, _) = blank();
    let info = inspect(&s, &btrfs_window(), &ext4_window(0)).unwrap();
    assert_eq!(info.fs_type, FsType::Btrfs);
    assert_eq!(info.block_size, 16384);
}

#[test]
fn detection_agrees_with_inspection() {
    let (s, b, e) = blank();
    assert_eq!(detect_signature(&ntfs_sector(), &b, &e), FsType::Ntfs);
    assert_eq!(detect_signature(&exfat_sector(), &b, &e), FsType::ExFat);
    assert_eq!(detect_signature(&xfs_sector(), &b, &e), FsType::Xfs);
    assert_eq!(detect_signature(&s, &btrfs_window(), &e), FsType::Btrfs);
    assert_eq!(detect_signature(&s, &b, &ext4_window(0)), FsType::Ext4);
}

#[test]
fn detection_on_short_buffers_does_not_match() {
    assert_eq!(detect_signature(&[], &[], &[]), FsType::Unknown);
    assert!(!has_ntfs_oem(&ntfs_sector()[..10]));
    assert!(has_ntfs_oem(&ntfs_sector()[..11]));
    assert!(!has_exfat_oem(&exfat_sector()[..10]));
    assert!(!has_xfs_magic(b"XFS"));
    assert!(has_xfs_magic(b"XFSB"));
    assert!(!has_btrfs_magic(&btrfs_window()[..71]));
    assert!(has_btrfs_magic(&btrfs_window()[..72]));
    assert!(!has_ext4_magic(&ext4_window(0)[..57]));
    assert!(has_ext4_magic(&ext4_window(0)[..58]));
}

#[test]
fn ext4_magic_is_little_endian() {
    let mut w = vec![0u8; 1024];
    put(&mut w, 56, &[0xEF, 0x53]);
    assert!(!has_ext4_magic(&w));
    put(&mut w, 56, &[0x53, 0xEF]);
    assert!(has_ext4_magic(&w));
}

#[test]
fn features_are_fixed_per_family() {
    assert_eq!(features_of(FsType::Ext4), vec!["Stability".to_string(), "Journaling".to_string()]);
    assert!(features_of(FsType::Unknown).is_empty());
    assert_eq!(features_of(FsType::Ntfs).len(), 2);
    assert_eq!(features_of(FsType::ExFat).len(), 2);
    assert_eq!(features_of(FsType::Xfs).len(), 2);
    assert_eq!(features_of(FsType::Btrfs).len(), 2);
}

#[test]
fn block_size_is_a_power_of_two_for_sane_geometry() {
    let (s, b, e) = blank();
    let sizes = [
        inspect(&ntfs_sector(), &b, &e).unwrap().block_size,
        inspect(&exfat_sector(), &b, &e).unwrap().block_size,
        inspect(&xfs_sector(), &b, &e).unwrap().block_size,
        inspect(&s, &btrfs_window(), &e).unwrap().block_size,
        inspect(&s, &b, &ext4_window(2)).unwrap().block_size,
    ];
    for size in sizes {
        assert!(size.is_power_of_two());
    }
    assert!(inspect(&ntfs_sector(), &b, &e).unwrap().is_well_formed());
    assert!(inspect(&exfat_sector(), &b, &e).unwrap().is_well_formed());
    assert!(inspect(&xfs_sector(), &b, &e).unwrap().is_well_formed());
    assert!(inspect(&s, &btrfs_window(), &e).unwrap().is_well_formed());
    assert!(inspect(&s, &b, &ext4_window(53)).unwrap().is_well_formed());
}

#[test]
fn every_inspection_is_well_formed() {
    let (blank_sector, b, e) = blank();
    for shift in 0..=255u8 {
        let mut s = exfat_sector();
        s[108] = shift;
        if let Ok(info) = inspect(&s, &b, &e) {
            assert!(info.is_well_formed());
            assert!(info.block_size.is_power_of_two());
        }
    }
    for log in (0..200u32).chain([u32::MAX]) {
        if let Ok(info) = inspect(&blank_sector, &b, &ext4_window(log)) {
            assert!(info.is_well_formed());
            assert_eq!(info.block_size, 1024u64 << log);
        }
    }
    for size in 0..=u16::MAX {
        let mut s = ntfs_sector();
        put(&mut s, 11, &size.to_le_bytes());
        match inspect(&s, &b, &e) {
            Ok(info) => assert!(info.is_well_formed() && size.is_power_of_two()),
            Err(err) => {
                assert_eq!(err, RawFsError::UnknownSignature);
                assert!(!size.is_power_of_two());
            }
        }
    }
}

#[test]
fn well_formedness_of_a_value_made_by_hand() {
    let by_hand = |block_size: u64| FilesystemInspection {
        fs_type: FsType::Ext4,
        volume_name: "x".to_string(),
        block_size,
        total_blocks: 0,
        free_blocks: 0,
        serial_number: "N/A".to_string(),
        features: Vec::new(),
    };
    for n in [1u64, 2, 4096, 1 << 63] {
        assert!(by_hand(n).is_well_formed());
        assert!(is_power_of_two(n));
        assert_eq!(block_size_from_field(n), Some(n));
    }
    for n in [0u64, 3, 6, 4095, 4097, u64::MAX] {
        assert!(!by_hand(n).is_well_formed());
        assert!(!is_power_of_two(n));
        assert_eq!(block_size_from_field(n), None);
    }
}
