use master_browser::bridge::{pad_block, BlockImage, BLOCK_SIZE};
use master_browser::error::RawFsError;

fn pattern(len: usize, seed: u8) -> Vec<u8> {
    (0..len).map(|i| (i as u8).wrapping_mul(31).wrapping_add(seed)).collect()
}

#[test]
fn block_size_is_4096() {
    assert_eq!(BLOCK_SIZE, 4096);
}

#[test]
fn pad_block_zero_fills_a_short_read() {
    let block = pad_block(&[1, 2, 3]);
    assert_eq!(block.len(), 4096);
    assert_eq!(&block[..3], &[1, 2, 3]);
    assert!(block[3..].iter().all(|b| *b == 0));
}

#[test]
fn pad_block_of_nothing_is_all_zero() {
    let block = pad_block(&[]);
    assert_eq!(block, vec![0u8; 4096]);
}

#[test]
fn pad_block_keeps_a_full_block_and_cuts_what_is_longer() {
    let full = pattern(4096, 3);
    assert_eq!(pad_block(&full), full);
    let longer = pattern(5000, 9);
    assert_eq!(pad_block(&longer), longer[..4096].to_vec());
}

#[test]
fn write_then_read_returns_the_block() {
    let mut image = BlockImage::new(vec![0xEE; 3 * 4096]);
    for offset in [0usize, 1, 17, 4096, 5000, 2 * 4096] {
        let data = pattern(4096, offset as u8);
        assert_eq!(image.write_block(offset, &data), Ok(()));
        assert_eq!(image.read_block(offset), data);
    }
}

#[test]
fn write_then_read_of_a_short_write_starts_with_the_data() {
    let mut image = BlockImage::new(vec![0xAA; 2 * 4096]);
    assert_eq!(image.write_block(100, &[1, 2, 3, 4]), Ok(()));
    let block = image.read_block(100);
    assert_eq!(block.len(), 4096);
    assert_eq!(&block[..4], &[1, 2, 3, 4]);
    assert!(block[4..].iter().all(|b| *b == 0xAA));
}

#[test]
fn write_changes_only_its_range() {
    let before = pattern(3 * 4096, 1);
    let mut image = BlockImage::new(before.clone());
    let data = vec![0x55u8; 4096];
    assert_eq!(image.write_block(4096, &data), Ok(()));
    assert_eq!(image.read_block(0), before[..4096].to_vec());
    assert_eq!(image.read_block(2 * 4096), before[2 * 4096..].to_vec());
    let after = image.into_bytes();
    assert_eq!(after.len(), before.len());
    assert_eq!(&after[..4096], &before[..4096]);
    assert_eq!(&after[4096..2 * 4096], &data[..]);
    assert_eq!(&after[2 * 4096..], &before[2 * 4096..]);
}

#[test]
fn read_at_the_end_of_the_device_is_zero_filled() {
    let bytes = pattern(5000, 7);
    let image = BlockImage::new(bytes.clone());
    let block = image.read_block(4096);
    assert_eq!(block.len(), 4096);
    assert_eq!(&block[..904], &bytes[4096..]);
    assert!(block[904..].iter().all(|b| *b == 0));
}

#[test]
fn read_past_the_end_of_the_device_is_all_zero() {
    let image = BlockImage::new(pattern(100, 7));
    assert_eq!(image.read_block(100), vec![0u8; 4096]);
    assert_eq!(image.read_block(1 << 20), vec![0u8; 4096]);
    assert_eq!(image.read_block(usize::MAX), vec![0u8; 4096]);
}

#[test]
fn write_past_the_end_is_refused_and_changes_nothing() {
    let before = pattern(4096, 2);
    let mut image = BlockImage::new(before.clone());
    assert_eq!(image.write_block(1, &vec![9u8; 4096]), Err(RawFsError::IoError));
    assert_eq!(image.write_block(4097, &[]), Err(RawFsError::IoError));
    assert_eq!(image.write_block(usize::MAX, &[1]), Err(RawFsError::IoError));
    assert_eq!(image.len(), 4096);
    assert_eq!(image.into_bytes(), before);
}

#[test]
fn write_up_to_the_last_byte_is_accepted() {
    let mut image = BlockImage::new(vec![0u8; 4096]);
    assert_eq!(image.write_block(4095, &[7]), Ok(()));
    assert_eq!(image.write_block(4096, &[]), Ok(()));
    assert_eq!(image.into_bytes()[4095], 7);
}
