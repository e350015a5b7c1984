//! Plain data of the read-only file-system interface: superblock keying, entry
//! and inode kinds, timestamps, and the parameters of new inodes and superblocks.
use vstd::prelude::*;

verus! {

/// How superblocks of a file-system type are keyed.
#[derive(Clone, Copy, Debug, PartialEq, Eq, Structural)]
pub enum Super {
    /// Multiple independent superblocks may exist.
    Independent,
    /// Uses a block device.
    BlockDev,
}

/// The kinds of directory entries a directory listing reports.
#[derive(Clone, Copy, Debug, PartialEq, Eq, Structural)]
pub enum DirEntryType {
    Unknown,
    Fifo,
    Chr,
    Dir,
    Blk,
    Reg,
    Lnk,
    Sock,
    Wht,
}

/// The `d_type` code of each entry kind.
pub open spec fn dir_entry_code(t: DirEntryType) -> u32 {
    match t {
        DirEntryType::Unknown => 0,
        DirEntryType::Fifo => 1,
        DirEntryType::Chr => 2,
        DirEntryType::Dir => 4,
        DirEntryType::Blk => 6,
        DirEntryType::Reg => 8,
        DirEntryType::Lnk => 10,
        DirEntryType::Sock => 12,
        DirEntryType::Wht => 14,
    }
}

impl DirEntryType {
    /// The `d_type` code of this entry kind.
    pub fn value(&self) -> (r: u32)
        ensures
            r == dir_entry_code(*self),
    {
        match self {
            DirEntryType::Unknown => 0,
            DirEntryType::Fifo => 1,
            DirEntryType::Chr => 2,
            DirEntryType::Dir => 4,
            DirEntryType::Blk => 6,
            DirEntryType::Reg => 8,
            DirEntryType::Lnk => 10,
            DirEntryType::Sock => 12,
            DirEntryType::Wht => 14,
        }
    }
}

/// The type of an inode, with the device numbers of device inodes.
#[derive(Clone, Copy, Debug, PartialEq, Eq, Structural)]
pub enum INodeType {
    Fifo,
    Chr(u32, u32),
    Dir,
    Blk(u32, u32),
    Reg,
    Lnk,
    Sock,
}

/// A point in time.
#[derive(Clone, Copy, Debug, PartialEq, Eq, Structural)]
pub struct Time {
    /// Seconds since the unix epoch.
    pub secs: u64,
    /// Nanoseconds within the second.
    pub nsecs: u64,
}

/// Parameters of a new inode.
pub struct INodeParams<T> {
    /// Access mode: execute (1), write (2) and read (4) for everyone, the group
    /// and the owner.
    pub mode: u16,
    pub typ: INodeType,
    /// Size of the contents.
    pub size: i64,
    pub blocks: u64,
    pub nlink: u32,
    pub uid: u32,
    pub gid: u32,
    pub ctime: Time,
    pub mtime: Time,
    pub atime: Time,
    /// Value attached to the inode.
    pub value: T,
}

/// Parameters of a new superblock.
#[derive(Clone, Copy, Debug, PartialEq, Eq, Structural)]
pub struct SuperParams {
    pub magic: u32,
    /// Block size as a power of two.
    pub blocksize_bits: u8,
    /// Largest file size.
    pub maxbytes: i64,
    /// Granularity of timestamps in nanoseconds.
    pub time_gran: u32,
}

/// Superblock state in which it still has to be initialised.
pub struct NeedsInit;

/// Superblock state in which its root still has to be set.
pub struct NeedsRoot;

} // verus!
