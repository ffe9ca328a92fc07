use vstd::prelude::*;
use std::sync::Arc;
use crate::caps::{
    bits_contain, DirCaps, FileCaps, DIR_ALL, FILE_ALL, FILE_READ, FILE_SEEK, FILE_TELL, FILE_WRITE,
};
use crate::dir::{DirEntry, WasiDir};
use crate::error::Error;
use crate::file::{stdio_caps, stdio_caps_narrowing, stdio_caps_spec, FileEntry, NullFile, WasiFile};
use crate::providers::{StreamPairFactory, WasiClocks, WasiRandom, WasiSched};
use crate::string_array::{push_error, StringArray, StringArrayError};
use crate::table::{is_full, is_lowest_free, Entry, Table};
use vstd::string::StringExecFns;

verus! {

/// `after` is `before` with a file entry holding `file` and granting `caps`
/// stored under `h`.
pub open spec fn file_stored_at(
    before: Map<u32, Entry>,
    after: Map<u32, Entry>,
    h: u32,
    caps: u32,
    file: Box<dyn WasiFile>,
) -> bool {
    &&& after.contains_key(h)
    &&& after == before.insert(h, after[h])
    &&& after[h] is File
    &&& after[h]->File_0.spec_caps()@ == caps
    &&& after[h]->File_0.spec_file() == file
}

/// `after` is `before` with a directory entry holding `dir` stored under `h`, granting
/// `caps` to itself and `file_caps` to files opened beneath it, and recording
/// `path`.
pub open spec fn dir_stored_at(
    before: Map<u32, Entry>,
    after: Map<u32, Entry>,
    h: u32,
    caps: u32,
    file_caps: u32,
    path: Seq<char>,
    dir: Box<dyn WasiDir>,
) -> bool {
    &&& after.contains_key(h)
    &&& after == before.insert(h, after[h])
    &&& after[h] is Dir
    &&& after[h]->Dir_0.spec_caps()@ == caps
    &&& after[h]->Dir_0.spec_file_caps()@ == file_caps
    &&& after[h]->Dir_0.spec_preopen_path() == Some(path)
    &&& after[h]->Dir_0.spec_dir() == dir
}

/// `after` is `before` with the standard stream `f` stored under `h`: a file
/// entry granting every capability, less seek and tell if `f` is a terminal.
pub open spec fn stdio_stored_at(
    before: Map<u32, Entry>,
    after: Map<u32, Entry>,
    h: u32,
    f: Box<dyn WasiFile>,
) -> bool {
    file_stored_at(before, after, h, stdio_caps_spec(f.spec_isatty()), f)
}

/// `after` is `before` with a standard stream under each of the handles 0,
/// 1 and 2, each a file entry granting every file capability.
pub open spec fn streams_installed(before: Map<u32, Entry>, after: Map<u32, Entry>) -> bool {
    &&& after == before.insert(0, after[0]).insert(1, after[1]).insert(2, after[2])
    &&& forall|h: u32| h <= 2 ==> after[h] is File && after[h]->File_0.spec_caps()@ == FILE_ALL
}

/// A context built on an empty table holds exactly the handles 0, 1 and 2,
/// each naming a file entry.
pub proof fn fresh_table_holds_three_files(after: Map<u32, Entry>)
    requires
        streams_installed(Map::empty(), after),
    ensures
        after.dom() == set![0u32, 1u32, 2u32],
        forall|h: u32| after.contains_key(h) ==> after[h] is File,
{
    assert(after.dom() =~= set![0u32, 1u32, 2u32]);
}

/// A standard stream may read and write; a terminal has lost seek and tell,
/// and any other stream keeps every file capability.
pub proof fn stdio_entry_caps(after: Map<u32, Entry>, h: u32, tty: bool)
    requires
        after.contains_key(h),
        after[h] is File,
        after[h]->File_0.spec_caps()@ == stdio_caps_spec(tty),
    ensures
        bits_contain(after[h]->File_0.spec_caps()@, FILE_READ),
        bits_contain(after[h]->File_0.spec_caps()@, FILE_WRITE),
        tty ==> !bits_contain(after[h]->File_0.spec_caps()@, FILE_SEEK),
        tty ==> !bits_contain(after[h]->File_0.spec_caps()@, FILE_TELL),
        !tty ==> after[h]->File_0.spec_caps()@ == FILE_ALL,
{
    stdio_caps_narrowing(tty);
}

/// The environment entry for variable `var` set to `value`.
pub open spec fn env_entry(var: Seq<char>, value: Seq<char>) -> Seq<char> {
    var + seq!['='] + value
}

/// The state a guest's system calls run against: its arguments and
/// environment, its handle table, and the services it may use. The services'
/// types are trait objects unless concrete types are named.
pub struct WasiCtx<
    R: ?Sized = dyn WasiRandom,
    S: ?Sized = dyn WasiSched,
    P: ?Sized = dyn StreamPairFactory,
> {
    pub args: StringArray,
    pub env: StringArray,
    pub random: Box<R>,
    pub clocks: WasiClocks,
    pub sched: Box<S>,
    pub table: Table,
    pub unix_pair: Box<P>,
}

impl WasiCtx {
    /// Both string arrays keep their own invariant.
    pub open spec fn wf(&self) -> bool {
        self.args.wf() && self.env.wf()
    }

    /// The injected services are those of `other`.
    pub open spec fn same_services(&self, other: &WasiCtx) -> bool {
        &&& self.random == other.random
        &&& self.clocks == other.clocks
        &&& self.sched == other.sched
        &&& self.unix_pair == other.unix_pair
    }

    /// A context with no arguments and no environment, whose standard
    /// streams read as empty and discard what is written.
    pub fn new(
        random: Box<dyn WasiRandom>,
        clocks: WasiClocks,
        sched: Box<dyn WasiSched>,
        table: Table,
        unix_pair: Box<dyn StreamPairFactory>,
    ) -> (r: WasiCtx)
        ensures
            r.wf(),
            r.args@ == Seq::<Seq<char>>::empty(),
            r.env@ == Seq::<Seq<char>>::empty(),
            r.random == random,
            r.clocks == clocks,
            r.sched == sched,
            r.unix_pair == unix_pair,
            streams_installed(table@, r.table@),
    {
        let mut s = WasiCtx {
            args: StringArray::new(),
            env: StringArray::new(),
            random,
            clocks,
            sched,
            table,
            unix_pair,
        };
        // A null stream is no terminal.
        s.insert_file(0, Box::new(NullFile), stdio_caps(false));
        s.insert_file(1, Box::new(NullFile), stdio_caps(false));
        s.insert_file(2, Box::new(NullFile), stdio_caps(false));
        s
    }

    /// Stores `file` under `fd`, granting `caps`, in place of what was there.
    pub fn insert_file(&mut self, fd: u32, file: Box<dyn WasiFile>, caps: FileCaps)
        ensures
            file_stored_at(old(self).table@, final(self).table@, fd, caps@, file),
            final(self).args == old(self).args,
            final(self).env == old(self).env,
            final(self).same_services(old(self)),
    {
        self.table.insert_at(fd, Entry::File(Arc::new(FileEntry::new(caps, file))));
    }

    /// Stores `file` under a fresh handle, granting `caps`, and returns it.
    pub fn push_file(&mut self, file: Box<dyn WasiFile>, caps: FileCaps) -> (r: Result<
        u32,
        Error,
    >)
        ensures
            r is Err <==> is_full(old(self).table@),
            r is Err ==> r->Err_0 == Error::TableFull && final(self).table@ == old(self).table@,
            r is Ok ==> is_lowest_free(old(self).table@, r->Ok_0) && file_stored_at(
                old(self).table@,
                final(self).table@,
                r->Ok_0,
                caps@,
                file,
            ),
            final(self).args == old(self).args,
            final(self).env == old(self).env,
            final(self).same_services(old(self)),
    {
        self.table.push(Entry::File(Arc::new(FileEntry::new(caps, file))))
    }

    /// Stores `dir` under `fd` in place of what was there, granting `caps` to
    /// it and `file_caps` to files opened beneath it.
    pub fn insert_dir(
        &mut self,
        fd: u32,
        dir: Box<dyn WasiDir>,
        caps: DirCaps,
        file_caps: FileCaps,
        path: String,
    )
        ensures
            dir_stored_at(
                old(self).table@,
                final(self).table@,
                fd,
                caps@,
                file_caps@,
                path@,
                dir,
            ),
            final(self).args == old(self).args,
            final(self).env == old(self).env,
            final(self).same_services(old(self)),
    {
        self.table.insert_at(
            fd,
            Entry::Dir(Arc::new(DirEntry::new(caps, file_caps, Some(path), dir))),
        );
    }

    /// Stores `dir` under a fresh handle and returns it, granting `caps` to it
    /// and `file_caps` to files opened beneath it.
    pub fn push_dir(
        &mut self,
        dir: Box<dyn WasiDir>,
        caps: DirCaps,
        file_caps: FileCaps,
        path: String,
    ) -> (r: Result<u32, Error>)
        ensures
            r is Err <==> is_full(old(self).table@),
            r is Err ==> r->Err_0 == Error::TableFull && final(self).table@ == old(self).table@,
            r is Ok ==> is_lowest_free(old(self).table@, r->Ok_0) && dir_stored_at(
                old(self).table@,
                final(self).table@,
                r->Ok_0,
                caps@,
                file_caps@,
                path@,
                dir,
            ),
            final(self).args == old(self).args,
            final(self).env == old(self).env,
            final(self).same_services(old(self)),
    {
        self.table.push(Entry::Dir(Arc::new(DirEntry::new(caps, file_caps, Some(path), dir))))
    }

    pub fn table(&self) -> (r: &Table)
        ensures
            *r == self.table,
    {
        &self.table
    }

    /// Appends `arg` to the argument vector, or leaves it as it was and
    /// reports why not.
    pub fn push_arg(&mut self, arg: &str) -> (r: Result<(), StringArrayError>)
        requires
            old(self).wf(),
        ensures
            final(self).wf(),
            match push_error(old(self).args@, arg@) {
                Some(e) => r == Err::<(), StringArrayError>(e) && final(self).args@ == old(
                    self,
                ).args@,
                None => r is Ok && final(self).args@ == old(self).args@.push(arg@),
            },
            final(self).env == old(self).env,
            final(self).same_services(old(self)),
            final(self).table == old(self).table,
    {
        self.args.push(arg.to_owned())
    }

    /// Appends `var=value` to the environment vector, or leaves it as it was
    /// and reports why not.
    pub fn push_env(&mut self, var: &str, value: &str) -> (r: Result<(), StringArrayError>)
        requires
            old(self).wf(),
        ensures
            final(self).wf(),
            match push_error(old(self).env@, env_entry(var@, value@)) {
                Some(e) => r == Err::<(), StringArrayError>(e) && final(self).env@ == old(
                    self,
                ).env@,
                None => r is Ok && final(self).env@ == old(self).env@.push(
                    env_entry(var@, value@),
                ),
            },
            final(self).args == old(self).args,
            final(self).table == old(self).table,
            final(self).same_services(old(self)),
    {
        let entry = String::from_str(var).concat("=").concat(value);
        proof {
            reveal_strlit("=");
            assert(entry@ =~= env_entry(var@, value@));
        }
        self.env.push(entry)
    }

    /// Makes `f` the standard input.
    pub fn set_stdin(&mut self, f: Box<dyn WasiFile>)
        ensures
            stdio_stored_at(old(self).table@, final(self).table@, 0, f),
            final(self).args == old(self).args,
            final(self).env == old(self).env,
            final(self).same_services(old(self)),
    {
        let rights = Self::stdio_rights(&*f);
        self.insert_file(0, f, rights);
    }

    /// Makes `f` the standard output.
    pub fn set_stdout(&mut self, f: Box<dyn WasiFile>)
        ensures
            stdio_stored_at(old(self).table@, final(self).table@, 1, f),
            final(self).args == old(self).args,
            final(self).env == old(self).env,
            final(self).same_services(old(self)),
    {
        let rights = Self::stdio_rights(&*f);
        self.insert_file(1, f, rights);
    }

    /// Makes `f` the standard error.
    pub fn set_stderr(&mut self, f: Box<dyn WasiFile>)
        ensures
            stdio_stored_at(old(self).table@, final(self).table@, 2, f),
            final(self).args == old(self).args,
            final(self).env == old(self).env,
            final(self).same_services(old(self)),
    {
        let rights = Self::stdio_rights(&*f);
        self.insert_file(2, f, rights);
    }

    // A terminal loses seek and tell, so that a guest that probes for them
    // takes the stream for a terminal.
    fn stdio_rights(f: &dyn WasiFile) -> (r: FileCaps)
        ensures
            r@ == stdio_caps_spec(f.spec_isatty()),
    {
        stdio_caps(f.isatty())
    }

    /// Registers `dir` under a fresh handle as a preopened directory at
    /// `path`, with every directory and every file capability.
    pub fn push_preopened_dir(&mut self, dir: Box<dyn WasiDir>, path: &str) -> (r: Result<
        (),
        Error,
    >)
        ensures
            r is Err <==> is_full(old(self).table@),
            r is Err ==> r->Err_0 == Error::TableFull && final(self).table@ == old(self).table@,
            r is Ok ==> exists|h: u32|
                is_lowest_free(old(self).table@, h) && dir_stored_at(
                    old(self).table@,
                    final(self).table@,
                    h,
                    DIR_ALL,
                    FILE_ALL,
                    path@,
                    dir,
                ),
            final(self).args == old(self).args,
            final(self).env == old(self).env,
            final(self).same_services(old(self)),
    {
        let caps = DirCaps::all();
        let file_caps = FileCaps::all();
        let entry = Entry::Dir(
            Arc::new(DirEntry::new(caps, file_caps, Some(path.to_owned()), dir)),
        );
        match self.table.push(entry) {
            Ok(_) => Ok(()),
            Err(e) => Err(e),
        }
    }

    /// Asks the stream-pair factory for two connected endpoints in the table
    /// and returns their handles; its failure is returned as it came.
    pub fn unix_pair(&mut self) -> (r: Result<(u32, u32), Error>)
        ensures
            final(self).args == old(self).args,
            final(self).env == old(self).env,
            final(self).same_services(old(self)),
    {
        self.unix_pair.unix_pair(&mut self.table)
    }
}

} // verus!
