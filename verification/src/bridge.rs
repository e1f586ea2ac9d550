//! The block bridge: a partition seen as storage that is read and written in
//! blocks of a fixed size at arbitrary byte offsets.
//!
//! A read always yields a whole block. Where the device ends inside the block,
//! the bytes that exist come first and zeros fill the rest. A write that would
//! pass the end of the device is refused and changes nothing.

use vstd::prelude::*;
use crate::error::RawFsError;

verus! {

/// Bytes per block of the bridge, whatever the block size of the filesystem.
pub const BLOCK_SIZE: usize = 4096;

/// The block that a read at `offset` yields on a device with contents
/// `device`.
pub open spec fn block_at(device: Seq<u8>, offset: int) -> Seq<u8> {
    Seq::new(
        BLOCK_SIZE as nat,
        |i: int|
            if offset + i < device.len() {
                device[offset + i]
            } else {
                0u8
            },
    )
}

/// The contents of a device after `data` was written at `offset`.
pub open spec fn after_write(device: Seq<u8>, offset: int, data: Seq<u8>) -> Seq<u8> {
    Seq::new(
        device.len(),
        |i: int|
            if offset <= i < offset + data.len() {
                data[i - offset]
            } else {
                device[i]
            },
    )
}

/// Whether a write of `len` bytes at `offset` stays inside a device of
/// `device_len` bytes.
pub open spec fn in_range(device_len: nat, offset: int, len: nat) -> bool {
    0 <= offset && offset + len <= device_len
}

/// Completes what a read at the end of the device returned to a whole block:
/// the bytes that were read, at most a block of them, then zeros.
pub fn pad_block(available: &[u8]) -> (block: Vec<u8>)
    ensures
        block@ == block_at(available@, 0),
{
    let n: usize = available.len();
    let mut block: Vec<u8> = Vec::with_capacity(BLOCK_SIZE);
    let mut i: usize = 0;
    while i < BLOCK_SIZE
        invariant
            i <= BLOCK_SIZE,
            n == available@.len(),
            block@.len() == i,
            forall|j: int| 0 <= j < i ==> block@[j] == block_at(available@, 0)[j],
        decreases BLOCK_SIZE - i,
    {
        let b: u8 = if i < n {
            available[i]
        } else {
            0
        };
        block.push(b);
        i += 1;
    }
    assert(block@ =~= block_at(available@, 0));
    block
}

/// A partition image held in memory behind the block interface.
#[derive(Debug)]
pub struct BlockImage {
    bytes: Vec<u8>,
}

impl View for BlockImage {
    type V = Seq<u8>;

    closed spec fn view(&self) -> Seq<u8> {
        self.bytes@
    }
}

impl BlockImage {
    /// Takes the bytes of a partition.
    pub fn new(bytes: Vec<u8>) -> (image: BlockImage)
        ensures
            image@ == bytes@,
    {
        BlockImage { bytes }
    }

    /// The size of the partition in bytes.
    pub fn len(&self) -> (n: usize)
        ensures
            n == self@.len(),
    {
        self.bytes.len()
    }

    /// Gives the bytes back.
    pub fn into_bytes(self) -> (bytes: Vec<u8>)
        ensures
            bytes@ == self@,
    {
        self.bytes
    }

    /// Reads the block at `offset`.
    pub fn read_block(&self, offset: usize) -> (block: Vec<u8>)
        ensures
            block@ == block_at(self@, offset as int),
    {
        let n: usize = self.bytes.len();
        let available: usize = if offset < n {
            n - offset
        } else {
            0
        };
        let mut block: Vec<u8> = Vec::with_capacity(BLOCK_SIZE);
        let mut i: usize = 0;
        while i < BLOCK_SIZE
            invariant
                i <= BLOCK_SIZE,
                n == self.bytes@.len(),
                available == if offset < n {
                    n - offset
                } else {
                    0
                },
                block@.len() == i,
                forall|j: int| 0 <= j < i ==> block@[j] == block_at(self.bytes@, offset as int)[j],
            decreases BLOCK_SIZE - i,
        {
            let b: u8 = if i < available {
                self.bytes[offset + i]
            } else {
                0
            };
            block.push(b);
            i += 1;
        }
        assert(block@ =~= block_at(self.bytes@, offset as int));
        block
    }

    /// Writes `data` at `offset`.
    ///
    /// Fails with `IoError`, leaving the image as it was, if the write would
    /// pass the end of the partition.
    pub fn write_block(&mut self, offset: usize, data: &[u8]) -> (r: Result<(), RawFsError>)
        ensures
            match r {
                Ok(_) => in_range(old(self)@.len(), offset as int, data@.len()) && final(self)@
                    == after_write(old(self)@, offset as int, data@),
                Err(e) => e == RawFsError::IoError && !in_range(
                    old(self)@.len(),
                    offset as int,
                    data@.len(),
                ) && final(self)@ == old(self)@,
            },
    {
        let n: usize = self.bytes.len();
        let len: usize = data.len();
        if offset > n || len > n - offset {
            return Err(RawFsError::IoError);
        }
        let ghost before = self.bytes@;
        let mut i: usize = 0;
        while i < len
            invariant
                i <= len,
                len == data@.len(),
                offset + len <= n,
                n == before.len(),
                self.bytes@.len() == n,
                forall|j: int|
                    0 <= j < n ==> self.bytes@[j] == if offset <= j < offset + i {
                        data@[j - offset]
                    } else {
                        before[j]
                    },
            decreases len - i,
        {
            self.bytes.set(offset + i, data[i]);
            i += 1;
        }
        assert(self.bytes@ =~= after_write(before, offset as int, data@));
        Ok(())
    }
}

/// Reading a block back after a write gives what was written: the block
/// begins with the data, and is the data where that fills a whole block.
pub proof fn lemma_write_then_read(device: Seq<u8>, offset: int, data: Seq<u8>)
    requires
        in_range(device.len(), offset, data.len()),
        data.len() <= BLOCK_SIZE,
    ensures
        block_at(after_write(device, offset, data), offset).subrange(0, data.len() as int)
            == data,
        data.len() == BLOCK_SIZE ==> block_at(after_write(device, offset, data), offset) == data,
{
    let block = block_at(after_write(device, offset, data), offset);
    assert(block.subrange(0, data.len() as int) =~= data);
    if data.len() == BLOCK_SIZE {
        assert(block =~= data);
    }
}

/// A write leaves every byte outside its range as it was, so a block that
/// does not overlap the written range reads as before.
pub proof fn lemma_write_keeps_other_blocks(
    device: Seq<u8>,
    offset: int,
    data: Seq<u8>,
    other: int,
)
    requires
        in_range(device.len(), offset, data.len()),
        0 <= other,
        other + BLOCK_SIZE <= offset || offset + data.len() <= other,
    ensures
        block_at(after_write(device, offset, data), other) == block_at(device, other),
{
    assert(block_at(after_write(device, offset, data), other) =~= block_at(device, other));
}

/// A block always has the full size, and past the end of the device it holds
/// zeros.
pub proof fn lemma_block_is_zero_filled(device: Seq<u8>, offset: int)
    requires
        0 <= offset,
    ensures
        block_at(device, offset).len() == BLOCK_SIZE,
        forall|i: int|
            0 <= i < BLOCK_SIZE && offset + i >= device.len() ==> #[trigger] block_at(
                device,
                offset,
            )[i] == 0,
        forall|i: int|
            0 <= i < BLOCK_SIZE && offset + i < device.len() ==> #[trigger] block_at(
                device,
                offset,
            )[i] == device[offset + i],
{
}

} // verus!
