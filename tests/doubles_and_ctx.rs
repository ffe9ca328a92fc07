use std::cell::Cell;
use std::rc::Rc;

use wasi_common::caps::{
    DirCaps, FileCaps, DIR_ALL, DIR_CREATE_DIRECTORY, DIR_OPEN, FILE_ALL, FILE_READ, FILE_SEEK,
    FILE_TELL, FILE_WRITE,
};
use wasi_common::ctx::WasiCtx;
use wasi_common::dir::{DirEntry, WasiDir};
use wasi_common::error::Error;
use wasi_common::file::{stdio_caps, FileEntry, NullFile, WasiFile};
use wasi_common::providers::{
    StreamPairFactory, WasiClocks, WasiMonotonicClock, WasiRandom, WasiSched, WasiSystemClock,
};
use wasi_common::string_array::{StringArray, StringArrayError};
use wasi_common::table::{Entry, Table};

struct CountingFile {
    tty: bool,
    calls: Rc<Cell<u32>>,
}

impl WasiFile for CountingFile {
    fn spec_isatty(&self) -> bool {
        self.tty
    }
    fn isatty(&self) -> bool {
        self.tty
    }
    fn read(&self, buf: &mut Vec<u8>) -> Result<usize, Error> {
        self.calls.set(self.calls.get() + 1);
        buf.extend_from_slice(b"hi");
        Ok(2)
    }
    fn write(&self, data: &[u8]) -> Result<usize, Error> {
        self.calls.set(self.calls.get() + 1);
        Ok(data.len())
    }
    fn seek(&self, offset: u64) -> Result<u64, Error> {
        self.calls.set(self.calls.get() + 1);
        Ok(offset)
    }
    fn tell(&self) -> Result<u64, Error> {
        self.calls.set(self.calls.get() + 1);
        Ok(7)
    }
}

fn counting(tty: bool) -> (Box<dyn WasiFile>, Rc<Cell<u32>>) {
    let calls = Rc::new(Cell::new(0));
    (Box::new(CountingFile { tty, calls: calls.clone() }), calls)
}

struct CountingDir {
    calls: Rc<Cell<u32>>,
}

impl WasiDir for CountingDir {
    fn open_file(&self, _path: &str) -> Result<Box<dyn WasiFile>, Error> {
        self.calls.set(self.calls.get() + 1);
        Ok(Box::new(NullFile))
    }
    fn create_dir(&self, _path: &str) -> Result<(), Error> {
        self.calls.set(self.calls.get() + 1);
        Ok(())
    }
}

fn counting_dir() -> (Box<dyn WasiDir>, Rc<Cell<u32>>) {
    let calls = Rc::new(Cell::new(0));
    (Box::new(CountingDir { calls: calls.clone() }), calls)
}

struct FixedClock;
impl WasiSystemClock for FixedClock {
    fn now(&self) -> u64 {
        0
    }
}
impl WasiMonotonicClock for FixedClock {
    fn now(&self) -> u64 {
        0
    }
}

struct NoSched;
impl WasiSched for NoSched {
    fn sleep(&self, _nanos: u64) -> Result<(), Error> {
        Ok(())
    }
    fn sched_yield(&self) -> Result<(), Error> {
        Ok(())
    }
}

struct ZeroRandom;
impl WasiRandom for ZeroRandom {
    fn fill_bytes(&self, buf: &mut Vec<u8>, len: usize) {
        buf.resize(buf.len() + len, 0);
    }
}

struct PipePair;
impl StreamPairFactory for PipePair {
    fn unix_pair(&self, table: &mut Table) -> Result<(u32, u32), Error> {
        let a = table.push(Entry::File(std::sync::Arc::new(FileEntry::new(
            FileCaps::all(),
            Box::new(NullFile),
        ))))?;
        let b = table.push(Entry::File(std::sync::Arc::new(FileEntry::new(
            FileCaps::all(),
            Box::new(NullFile),
        ))))?;
        Ok((a, b))
    }
}

struct NoPair;
impl StreamPairFactory for NoPair {
    fn unix_pair(&self, _table: &mut Table) -> Result<(u32, u32), Error> {
        Err(Error::Io(95))
    }
}

fn clocks() -> WasiClocks {
    WasiClocks { system: Box::new(FixedClock), monotonic: Box::new(FixedClock) }
}

fn new_ctx() -> WasiCtx {
    WasiCtx::new(Box::new(ZeroRandom), clocks(), Box::new(NoSched), Table::new(), Box::new(PipePair))
}

fn file_caps_at(ctx: &WasiCtx, h: u32) -> u32 {
    ctx.table().get_file(h).unwrap().caps().bits()
}

#[test]
fn fresh_context_has_three_stdio_files() {
    let ctx = new_ctx();
    for h in 0..3 {
        assert_eq!(file_caps_at(&ctx, h), FILE_ALL);
    }
    assert!(!ctx.table().contains_key(3));
    assert_eq!(ctx.table().get(3).err(), Some(Error::BadFileDescriptor));
    assert_eq!(ctx.args.number_elements(), 0);
    assert_eq!(ctx.env.number_elements(), 0);
}

#[test]
fn fresh_streams_read_empty_and_discard() {
    let ctx = new_ctx();
    let stdin = ctx.table().get_file(0).unwrap();
    let mut buf = Vec::new();
    assert_eq!(stdin.read(&mut buf), Ok(0));
    assert!(buf.is_empty());
    let stdout = ctx.table().get_file(1).unwrap();
    assert_eq!(stdout.write(b"abc"), Ok(3));
}

#[test]
fn set_stdout_on_terminal_drops_seek_and_tell() {
    let mut ctx = new_ctx();
    let (f, _) = counting(true);
    ctx.set_stdout(f);
    let caps = ctx.table().get_file(1).unwrap().caps();
    assert!(!caps.contains(&FileCaps::from_bits(FILE_SEEK)));
    assert!(!caps.contains(&FileCaps::from_bits(FILE_TELL)));
    assert!(caps.contains(&FileCaps::from_bits(FILE_READ)));
    assert!(caps.contains(&FileCaps::from_bits(FILE_WRITE)));
    assert_eq!(caps.bits(), FILE_ALL & !(FILE_SEEK | FILE_TELL));
}

#[test]
fn set_stdout_on_plain_file_keeps_all() {
    let mut ctx = new_ctx();
    let (f, _) = counting(false);
    ctx.set_stdout(f);
    assert_eq!(file_caps_at(&ctx, 1), FILE_ALL);
}

#[test]
fn set_stdin_and_stderr_use_their_handles() {
    let mut ctx = new_ctx();
    let (a, _) = counting(true);
    let (b, _) = counting(true);
    ctx.set_stdin(a);
    ctx.set_stderr(b);
    let narrowed = FILE_ALL & !(FILE_SEEK | FILE_TELL);
    assert_eq!(file_caps_at(&ctx, 0), narrowed);
    assert_eq!(file_caps_at(&ctx, 1), FILE_ALL);
    assert_eq!(file_caps_at(&ctx, 2), narrowed);
}

#[test]
fn stdio_caps_values() {
    assert_eq!(stdio_caps(false).bits(), 0x1fff);
    assert_eq!(stdio_caps(true).bits(), 0x1fdb);
}

#[test]
fn push_arg_then_read_back() {
    let mut ctx = new_ctx();
    assert_eq!(ctx.push_arg("A=B"), Ok(()));
    assert_eq!(ctx.args.number_elements(), 1);
    assert_eq!(ctx.args.get(0).as_str(), "A=B");
    assert_eq!(ctx.args.cumulative_size(), 4);
}

#[test]
fn push_arg_keeps_order() {
    let mut ctx = new_ctx();
    ctx.push_arg("prog").unwrap();
    ctx.push_arg("--flag").unwrap();
    assert_eq!(ctx.args.get(0).as_str(), "prog");
    assert_eq!(ctx.args.get(1).as_str(), "--flag");
    assert_eq!(ctx.args.cumulative_size(), 12);
}

#[test]
fn push_arg_with_nul_fails_and_leaves_args() {
    let mut ctx = new_ctx();
    ctx.push_arg("first").unwrap();
    assert_eq!(ctx.push_arg("a\0b"), Err(StringArrayError::Nul));
    assert_eq!(ctx.args.number_elements(), 1);
    assert_eq!(ctx.args.get(0).as_str(), "first");
    assert_eq!(ctx.args.cumulative_size(), 6);
}

#[test]
fn push_env_formats_entry() {
    let mut ctx = new_ctx();
    assert_eq!(ctx.push_env("FOO", "bar"), Ok(()));
    assert_eq!(ctx.env.number_elements(), 1);
    assert_eq!(ctx.env.get(0).as_str(), "FOO=bar");
    assert_eq!(ctx.args.number_elements(), 0);
}

#[test]
fn push_env_with_nul_fails() {
    let mut ctx = new_ctx();
    assert_eq!(ctx.push_env("FOO", "b\0r"), Err(StringArrayError::Nul));
    assert_eq!(ctx.env.number_elements(), 0);
}

#[test]
fn string_array_counts_utf8_bytes() {
    let mut a = StringArray::new();
    a.push("é".to_string()).unwrap();
    assert_eq!(a.cumulative_size(), 3);
    a.push(String::new()).unwrap();
    assert_eq!(a.number_elements(), 2);
    assert_eq!(a.cumulative_size(), 4);
}

#[test]
fn push_preopened_dir_is_listed() {
    let mut ctx = new_ctx();
    let (d, _) = counting_dir();
    assert_eq!(ctx.push_preopened_dir(d, "/sandbox"), Ok(()));
    let dir = ctx.table().get_dir(3).unwrap();
    assert_eq!(dir.preopen_path().as_deref(), Some("/sandbox"));
    assert_eq!(dir.caps().bits(), DIR_ALL);
    assert_eq!(dir.file_caps().bits(), FILE_ALL);
}

#[test]
fn push_file_and_dir_take_fresh_handles() {
    let mut ctx = new_ctx();
    let (f, _) = counting(false);
    let (d, _) = counting_dir();
    let read = FileCaps::from_bits(FILE_READ);
    assert_eq!(ctx.push_file(f, read), Ok(3));
    let h = ctx
        .push_dir(d, DirCaps::from_bits(DIR_OPEN), read, "/tmp".to_string())
        .unwrap();
    assert_eq!(h, 4);
    assert_eq!(file_caps_at(&ctx, 3), FILE_READ);
    assert_eq!(ctx.table().get_file(4).err(), Some(Error::InvalidKind));
    assert_eq!(ctx.table().get_dir(3).err(), Some(Error::InvalidKind));
    let dir = ctx.table().get_dir(4).unwrap();
    assert_eq!(dir.caps().bits(), DIR_OPEN);
    assert_eq!(dir.preopen_path().as_deref(), Some("/tmp"));
}

#[test]
fn insert_file_and_dir_at_chosen_handles() {
    let mut ctx = new_ctx();
    let (f, _) = counting(false);
    let (d, _) = counting_dir();
    ctx.insert_file(10, f, FileCaps::from_bits(FILE_WRITE));
    ctx.insert_dir(1, d, DirCaps::all(), FileCaps::empty(), "/x".to_string());
    assert_eq!(file_caps_at(&ctx, 10), FILE_WRITE);
    assert!(ctx.table().get_dir(1).is_ok());
    assert_eq!(ctx.table().get_file(1).err(), Some(Error::InvalidKind));
}

#[test]
fn unix_pair_comes_from_the_factory() {
    let mut ctx = new_ctx();
    assert_eq!(ctx.unix_pair(), Ok((3, 4)));
    assert!(ctx.table().get_file(4).is_ok());
    let mut failing =
        WasiCtx::new(Box::new(ZeroRandom), clocks(), Box::new(NoSched), Table::new(), Box::new(NoPair));
    assert_eq!(failing.unix_pair(), Err(Error::Io(95)));
}

#[test]
fn missing_capability_never_reaches_file() {
    let (f, calls) = counting(false);
    let entry = FileEntry::new(FileCaps::from_bits(FILE_WRITE), f);
    let mut buf = vec![1u8];
    assert_eq!(entry.read(&mut buf), Err(Error::NotCapable));
    assert_eq!(buf, vec![1u8]);
    assert_eq!(entry.seek(3), Err(Error::NotCapable));
    assert_eq!(entry.tell(), Err(Error::NotCapable));
    assert!(entry.get_cap(FileCaps::from_bits(FILE_READ)).is_err());
    assert_eq!(calls.get(), 0);
    assert_eq!(entry.write(b"ab"), Ok(2));
    assert_eq!(calls.get(), 1);
}

#[test]
fn granted_capability_reaches_file() {
    let (f, calls) = counting(false);
    let entry = FileEntry::new(FileCaps::all(), f);
    let mut buf = Vec::new();
    assert_eq!(entry.read(&mut buf), Ok(2));
    assert_eq!(buf, b"hi".to_vec());
    assert_eq!(entry.seek(9), Ok(9));
    assert_eq!(entry.tell(), Ok(7));
    assert_eq!(calls.get(), 3);
}

#[test]
fn missing_dir_capability_never_reaches_dir() {
    let (d, calls) = counting_dir();
    let entry = DirEntry::new(DirCaps::from_bits(DIR_OPEN), FileCaps::all(), None, d);
    assert_eq!(entry.create_dir("sub"), Err(Error::NotCapable));
    assert_eq!(calls.get(), 0);
    assert!(entry.preopen_path().is_none());
    let f = entry.open_file("foo.txt", FileCaps::from_bits(FILE_READ | FILE_SEEK)).ok().unwrap();
    assert_eq!(calls.get(), 1);
    assert_eq!(f.caps().bits(), FILE_READ | FILE_SEEK);
}

#[test]
fn opened_file_is_narrowed_by_dir_file_caps() {
    let (d, _) = counting_dir();
    let entry = DirEntry::new(DirCaps::all(), FileCaps::from_bits(FILE_READ), None, d);
    let f = entry.open_file("foo.txt", FileCaps::all()).ok().unwrap();
    assert_eq!(f.caps().bits(), FILE_READ);
    assert_eq!(
        entry.child_dir_caps(DirCaps::from_bits(DIR_CREATE_DIRECTORY)).bits(),
        DIR_CREATE_DIRECTORY
    );
    let (d2, calls2) = counting_dir();
    let closed = DirEntry::new(DirCaps::empty(), FileCaps::all(), None, d2);
    assert_eq!(closed.open_file("foo.txt", FileCaps::all()).err(), Some(Error::NotCapable));
    assert_eq!(calls2.get(), 0);
}
