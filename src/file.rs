use vstd::prelude::*;
use crate::caps::{bits_contain, FileCaps, FILE_READ, FILE_SEEK, FILE_TELL, FILE_WRITE};
use crate::error::Error;

verus! {

/// A file-like resource: an OS file, an in-memory pipe, a socket.
pub trait WasiFile {
    /// Whether the object is an interactive terminal device, as `isatty`
    /// reports it.
    spec fn spec_isatty(&self) -> bool;

    /// Whether the object is an interactive terminal device.
    fn isatty(&self) -> (r: bool)
        ensures
            r == self.spec_isatty(),
    ;

    /// Appends what was read to `buf`; returns the number of bytes read.
    fn read(&self, buf: &mut Vec<u8>) -> Result<usize, Error>;

    /// Returns the number of bytes written.
    fn write(&self, data: &[u8]) -> Result<usize, Error>;

    /// Moves to the absolute offset and returns it.
    fn seek(&self, offset: u64) -> Result<u64, Error>;

    /// Returns the current offset.
    fn tell(&self) -> Result<u64, Error>;
}

/// A stream that reads as empty and discards what is written to it.
pub struct NullFile;

impl WasiFile for NullFile {
    open spec fn spec_isatty(&self) -> bool {
        false
    }

    fn isatty(&self) -> (r: bool) {
        false
    }

    fn read(&self, buf: &mut Vec<u8>) -> Result<usize, Error> {
        Ok(0)
    }

    fn write(&self, data: &[u8]) -> Result<usize, Error> {
        Ok(data.len())
    }

    fn seek(&self, offset: u64) -> Result<u64, Error> {
        Ok(0)
    }

    fn tell(&self) -> Result<u64, Error> {
        Ok(0)
    }
}

/// A file stored in the table: the operations it may perform, and the object
/// that performs them (a trait object unless a concrete type is named).
pub struct FileEntry<F: ?Sized = dyn WasiFile> {
    caps: FileCaps,
    file: Box<F>,
}

/// The capability set for a standard stream: all of them, less seek and tell
/// where the stream is a terminal.
pub open spec fn stdio_caps_spec(tty: bool) -> u32 {
    if tty {
        crate::caps::FILE_ALL & !(FILE_TELL | FILE_SEEK)
    } else {
        crate::caps::FILE_ALL
    }
}

/// The capability set for a standard stream whose terminal status is `tty`.
pub fn stdio_caps(tty: bool) -> (r: FileCaps)
    ensures
        r@ == stdio_caps_spec(tty),
{
    let all = FileCaps::all();
    assert(0x20u32 | 0x4u32 <= 0x1fffu32) by (bit_vector);
    if tty {
        all.difference(&FileCaps::from_bits(FILE_TELL | FILE_SEEK))
    } else {
        all
    }
}

/// A terminal's standard stream may read and write but neither seek nor tell;
/// any other stream keeps every file capability.
pub proof fn stdio_caps_narrowing(tty: bool)
    ensures
        tty ==> !bits_contain(stdio_caps_spec(tty), FILE_SEEK),
        tty ==> !bits_contain(stdio_caps_spec(tty), FILE_TELL),
        bits_contain(stdio_caps_spec(tty), FILE_READ),
        bits_contain(stdio_caps_spec(tty), FILE_WRITE),
        !tty ==> stdio_caps_spec(tty) == crate::caps::FILE_ALL,
{
    let a: u32 = crate::caps::FILE_ALL & !(FILE_TELL | FILE_SEEK);
    assert(a & 4u32 != 4u32) by (bit_vector)
        requires a == 0x1fffu32 & !(0x20u32 | 0x4u32);
    assert(a & 0x20u32 != 0x20u32) by (bit_vector)
        requires a == 0x1fffu32 & !(0x20u32 | 0x4u32);
    assert(a & 2u32 == 2u32) by (bit_vector)
        requires a == 0x1fffu32 & !(0x20u32 | 0x4u32);
    assert(a & 0x40u32 == 0x40u32) by (bit_vector)
        requires a == 0x1fffu32 & !(0x20u32 | 0x4u32);
    assert(0x1fffu32 & 2u32 == 2u32) by (bit_vector);
    assert(0x1fffu32 & 0x40u32 == 0x40u32) by (bit_vector);
}

impl<F: ?Sized + WasiFile> FileEntry<F> {
    pub closed spec fn spec_caps(&self) -> FileCaps {
        self.caps
    }

    pub closed spec fn spec_file(&self) -> Box<F> {
        self.file
    }

    pub fn new(caps: FileCaps, file: Box<F>) -> (r: FileEntry<F>)
        ensures
            r.spec_caps() == caps,
            r.spec_file() == file,
    {
        FileEntry { caps, file }
    }

    /// The operations this entry may perform.
    pub fn caps(&self) -> (r: FileCaps)
        ensures
            r == self.spec_caps(),
    {
        self.caps
    }

    /// The file object, handed out only where the entry grants every
    /// operation of `caps`.
    pub fn get_cap(&self, caps: FileCaps) -> (r: Result<&F, Error>)
        ensures
            r is Ok <==> bits_contain(self.spec_caps()@, caps@),
            r is Err ==> r == Err::<&F, Error>(Error::NotCapable),
    {
        if self.caps.contains(&caps) {
            Ok(&*self.file)
        } else {
            Err(Error::NotCapable)
        }
    }

    /// Reads into `buf` where the entry grants reading.
    pub fn read(&self, buf: &mut Vec<u8>) -> (r: Result<usize, Error>)
        ensures
            !bits_contain(self.spec_caps()@, FILE_READ) ==> r == Err::<usize, Error>(
                Error::NotCapable,
            ) && final(buf)@ == old(buf)@,
    {
        match self.get_cap(FileCaps::from_bits(FILE_READ)) {
            Ok(f) => f.read(buf),
            Err(e) => Err(e),
        }
    }

    /// Writes `data` where the entry grants writing.
    pub fn write(&self, data: &[u8]) -> (r: Result<usize, Error>)
        ensures
            !bits_contain(self.spec_caps()@, FILE_WRITE) ==> r == Err::<usize, Error>(
                Error::NotCapable,
            ),
    {
        match self.get_cap(FileCaps::from_bits(FILE_WRITE)) {
            Ok(f) => f.write(data),
            Err(e) => Err(e),
        }
    }

    /// Moves to `offset` where the entry grants seeking.
    pub fn seek(&self, offset: u64) -> (r: Result<u64, Error>)
        ensures
            !bits_contain(self.spec_caps()@, FILE_SEEK) ==> r == Err::<u64, Error>(
                Error::NotCapable,
            ),
    {
        match self.get_cap(FileCaps::from_bits(FILE_SEEK)) {
            Ok(f) => f.seek(offset),
            Err(e) => Err(e),
        }
    }

    /// The current offset, where the entry grants telling it.
    pub fn tell(&self) -> (r: Result<u64, Error>)
        ensures
            !bits_contain(self.spec_caps()@, FILE_TELL) ==> r == Err::<u64, Error>(
                Error::NotCapable,
            ),
    {
        match self.get_cap(FileCaps::from_bits(FILE_TELL)) {
            Ok(f) => f.tell(),
            Err(e) => Err(e),
        }
    }

    /// Whether the file is a terminal; asking needs no capability.
    pub fn isatty(&self) -> bool {
        self.file.isatty()
    }
}

} // verus!
