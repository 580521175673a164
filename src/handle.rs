use vstd::prelude::*;

use crate::sb::bch_sb;

verus! {

/// The block device that a superblock was read from.
#[derive(Clone, Copy, Debug, PartialEq, Eq, Structural)]
pub struct block_device {
    pub bd_dev: u64,
    pub bd_fd: i32,
    pub bd_sync_fd: i32,
}

/// A superblock paired with the device it was read from. Both are borrowed from
/// the layer that did the reading, for as long as it keeps them.
pub struct bch_sb_handle<'a> {
    pub sb: &'a bch_sb,
    pub bdev: &'a block_device,
}

impl<'a> bch_sb_handle<'a> {
    /// Pairs a superblock with the device it was read from.
    pub fn new(sb: &'a bch_sb, bdev: &'a block_device) -> (r: Self)
        ensures
            *r.sb == *sb,
            *r.bdev == *bdev,
    {
        bch_sb_handle { sb, bdev }
    }

    /// The superblock.
    pub fn sb(&self) -> (r: &'a bch_sb)
        ensures
            *r == *self.sb,
    {
        self.sb
    }

    /// The device the superblock was read from.
    pub fn bdev(&self) -> (r: &'a block_device)
        ensures
            *r == *self.bdev,
    {
        self.bdev
    }
}

} // verus!
