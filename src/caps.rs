use vstd::prelude::*;

verus! {

pub const FILE_DATASYNC: u32 = 0x1;
pub const FILE_READ: u32 = 0x2;
pub const FILE_SEEK: u32 = 0x4;
pub const FILE_FDSTAT_SET_FLAGS: u32 = 0x8;
pub const FILE_SYNC: u32 = 0x10;
pub const FILE_TELL: u32 = 0x20;
pub const FILE_WRITE: u32 = 0x40;
pub const FILE_ADVISE: u32 = 0x80;
pub const FILE_ALLOCATE: u32 = 0x100;
pub const FILE_FILESTAT_GET: u32 = 0x200;
pub const FILE_FILESTAT_SET_SIZE: u32 = 0x400;
pub const FILE_FILESTAT_SET_TIMES: u32 = 0x800;
pub const FILE_POLL_READWRITE: u32 = 0x1000;
/// Every file flag above.
pub const FILE_ALL: u32 = 0x1fff;

pub const DIR_CREATE_DIRECTORY: u32 = 0x1;
pub const DIR_CREATE_FILE: u32 = 0x2;
pub const DIR_LINK_SOURCE: u32 = 0x4;
pub const DIR_LINK_TARGET: u32 = 0x8;
pub const DIR_OPEN: u32 = 0x10;
pub const DIR_READDIR: u32 = 0x20;
pub const DIR_READLINK: u32 = 0x40;
pub const DIR_RENAME_SOURCE: u32 = 0x80;
pub const DIR_RENAME_TARGET: u32 = 0x100;
pub const DIR_SYMLINK: u32 = 0x200;
pub const DIR_REMOVE_DIRECTORY: u32 = 0x400;
pub const DIR_UNLINK_FILE: u32 = 0x800;
pub const DIR_PATH_FILESTAT_GET: u32 = 0x1000;
pub const DIR_PATH_FILESTAT_SET_TIMES: u32 = 0x2000;
pub const DIR_FILESTAT_GET: u32 = 0x4000;
pub const DIR_FILESTAT_SET_TIMES: u32 = 0x8000;
/// Every directory flag above.
pub const DIR_ALL: u32 = 0xffff;

/// A set of file operations, one bit per flag of `FILE_ALL`.
#[derive(Debug, Clone, Copy, PartialEq, Eq, Structural)]
pub struct FileCaps {
    bits: u32,
}

/// A set of directory operations, one bit per flag of `DIR_ALL`.
#[derive(Debug, Clone, Copy, PartialEq, Eq, Structural)]
pub struct DirCaps {
    bits: u32,
}

impl View for FileCaps {
    type V = u32;

    closed spec fn view(&self) -> u32 {
        self.bits
    }
}

impl View for DirCaps {
    type V = u32;

    closed spec fn view(&self) -> u32 {
        self.bits
    }
}

/// `a` grants every operation that `b` grants.
pub open spec fn bits_contain(a: u32, b: u32) -> bool {
    a & b == b
}

impl FileCaps {
    /// The set of the given flags; bits outside `FILE_ALL` are dropped.
    pub fn from_bits(bits: u32) -> (r: FileCaps)
        ensures
            r@ == bits & FILE_ALL,
            bits <= FILE_ALL ==> r@ == bits,
    {
        assert(bits <= 0x1fffu32 ==> bits & 0x1fffu32 == bits) by (bit_vector);
        FileCaps { bits: bits & FILE_ALL }
    }

    pub fn bits(&self) -> (r: u32)
        ensures
            r == self@,
    {
        self.bits
    }

    pub fn empty() -> (r: FileCaps)
        ensures
            r@ == 0,
    {
        FileCaps { bits: 0 }
    }

    pub fn all() -> (r: FileCaps)
        ensures
            r@ == FILE_ALL,
    {
        FileCaps { bits: FILE_ALL }
    }

    pub fn union(&self, other: &FileCaps) -> (r: FileCaps)
        ensures
            r@ == self@ | other@,
    {
        FileCaps { bits: self.bits | other.bits }
    }

    pub fn intersection(&self, other: &FileCaps) -> (r: FileCaps)
        ensures
            r@ == self@ & other@,
    {
        FileCaps { bits: self.bits & other.bits }
    }

    pub fn difference(&self, other: &FileCaps) -> (r: FileCaps)
        ensures
            r@ == self@ & !other@,
    {
        FileCaps { bits: self.bits & !other.bits }
    }

    /// Every file operation that `self` does not grant.
    pub fn complement(&self) -> (r: FileCaps)
        ensures
            r@ == !self@ & FILE_ALL,
    {
        FileCaps { bits: !self.bits & FILE_ALL }
    }

    pub fn contains(&self, other: &FileCaps) -> (r: bool)
        ensures
            r == bits_contain(self@, other@),
    {
        self.bits & other.bits == other.bits
    }
}

impl DirCaps {
    /// The set of the given flags; bits outside `DIR_ALL` are dropped.
    pub fn from_bits(bits: u32) -> (r: DirCaps)
        ensures
            r@ == bits & DIR_ALL,
            bits <= DIR_ALL ==> r@ == bits,
    {
        assert(bits <= 0xffffu32 ==> bits & 0xffffu32 == bits) by (bit_vector);
        DirCaps { bits: bits & DIR_ALL }
    }

    pub fn bits(&self) -> (r: u32)
        ensures
            r == self@,
    {
        self.bits
    }

    pub fn empty() -> (r: DirCaps)
        ensures
            r@ == 0,
    {
        DirCaps { bits: 0 }
    }

    pub fn all() -> (r: DirCaps)
        ensures
            r@ == DIR_ALL,
    {
        DirCaps { bits: DIR_ALL }
    }

    pub fn union(&self, other: &DirCaps) -> (r: DirCaps)
        ensures
            r@ == self@ | other@,
    {
        DirCaps { bits: self.bits | other.bits }
    }

    pub fn intersection(&self, other: &DirCaps) -> (r: DirCaps)
        ensures
            r@ == self@ & other@,
    {
        DirCaps { bits: self.bits & other.bits }
    }

    pub fn difference(&self, other: &DirCaps) -> (r: DirCaps)
        ensures
            r@ == self@ & !other@,
    {
        DirCaps { bits: self.bits & !other.bits }
    }

    /// Every directory operation that `self` does not grant.
    pub fn complement(&self) -> (r: DirCaps)
        ensures
            r@ == !self@ & DIR_ALL,
    {
        DirCaps { bits: !self.bits & DIR_ALL }
    }

    pub fn contains(&self, other: &DirCaps) -> (r: bool)
        ensures
            r == bits_contain(self@, other@),
    {
        self.bits & other.bits == other.bits
    }
}

} // verus!
