use vstd::prelude::*;
use crate::caps::{bits_contain, DirCaps, FileCaps, DIR_CREATE_DIRECTORY, DIR_OPEN};
use crate::error::Error;
use crate::file::{FileEntry, WasiFile};

verus! {

/// A directory-like resource.
pub trait WasiDir {
    /// Opens the file at `path` beneath this directory.
    fn open_file(&self, path: &str) -> Result<Box<dyn WasiFile>, Error>;

    /// Creates a directory at `path` beneath this directory.
    fn create_dir(&self, path: &str) -> Result<(), Error>;
}

/// A directory stored in the table: the operations it may perform, the
/// operations granted to files opened beneath it, the path it was registered
/// under, and the object that performs them (a trait object unless a concrete
/// type is named).
pub struct DirEntry<D: ?Sized = dyn WasiDir> {
    caps: DirCaps,
    file_caps: FileCaps,
    preopen_path: Option<String>,
    dir: Box<D>,
}

impl<D: ?Sized + WasiDir> DirEntry<D> {
    pub closed spec fn spec_caps(&self) -> DirCaps {
        self.caps
    }

    pub closed spec fn spec_file_caps(&self) -> FileCaps {
        self.file_caps
    }

    pub closed spec fn spec_dir(&self) -> Box<D> {
        self.dir
    }

    pub closed spec fn spec_preopen_path(&self) -> Option<Seq<char>> {
        match self.preopen_path {
            Some(p) => Some(p@),
            None => None,
        }
    }

    pub fn new(
        caps: DirCaps,
        file_caps: FileCaps,
        preopen_path: Option<String>,
        dir: Box<D>,
    ) -> (r: DirEntry<D>)
        ensures
            r.spec_caps() == caps,
            r.spec_dir() == dir,
            r.spec_file_caps() == file_caps,
            r.spec_preopen_path() == match preopen_path {
                Some(p) => Some(p@),
                None => None::<Seq<char>>,
            },
    {
        DirEntry { caps, file_caps, preopen_path, dir }
    }

    /// The operations this entry may perform.
    pub fn caps(&self) -> (r: DirCaps)
        ensures
            r == self.spec_caps(),
    {
        self.caps
    }

    /// The operations that files opened beneath this entry may at most get.
    pub fn file_caps(&self) -> (r: FileCaps)
        ensures
            r == self.spec_file_caps(),
    {
        self.file_caps
    }

    /// The path this directory was registered under, if any.
    pub fn preopen_path(&self) -> (r: &Option<String>)
        ensures
            match *r {
                Some(p) => self.spec_preopen_path() == Some(p@),
                None => self.spec_preopen_path() is None,
            },
    {
        &self.preopen_path
    }

    /// The directory object, handed out only where the entry grants every
    /// operation of `caps`.
    pub fn get_cap(&self, caps: DirCaps) -> (r: Result<&D, Error>)
        ensures
            r is Ok <==> bits_contain(self.spec_caps()@, caps@),
            r is Err ==> r == Err::<&D, Error>(Error::NotCapable),
    {
        if self.caps.contains(&caps) {
            Ok(&*self.dir)
        } else {
            Err(Error::NotCapable)
        }
    }

    /// The capability set of a directory opened beneath this one: what was
    /// asked for, narrowed to what this entry grants.
    pub fn child_dir_caps(&self, desired: DirCaps) -> (r: DirCaps)
        ensures
            r@ == desired@ & self.spec_caps()@,
    {
        desired.intersection(&self.caps)
    }

    /// The capability set of a file opened beneath this directory: what was
    /// asked for, narrowed to this entry's file capabilities.
    pub fn child_file_caps(&self, desired: FileCaps) -> (r: FileCaps)
        ensures
            r@ == desired@ & self.spec_file_caps()@,
    {
        desired.intersection(&self.file_caps)
    }

    /// Opens `path` beneath this directory where the entry grants opening;
    /// the new entry holds `desired` narrowed to this entry's file capabilities.
    pub fn open_file(&self, path: &str, desired: FileCaps) -> (r: Result<FileEntry, Error>)
        ensures
            !bits_contain(self.spec_caps()@, DIR_OPEN) ==> r is Err && r->Err_0
                == Error::NotCapable,
            r is Ok ==> r->Ok_0.spec_caps()@ == desired@ & self.spec_file_caps()@,
    {
        let d = self.get_cap(DirCaps::from_bits(DIR_OPEN))?;
        let f = d.open_file(path)?;
        Ok(FileEntry::new(self.child_file_caps(desired), f))
    }

    /// Creates a directory at `path` where the entry grants it.
    pub fn create_dir(&self, path: &str) -> (r: Result<(), Error>)
        ensures
            !bits_contain(self.spec_caps()@, DIR_CREATE_DIRECTORY) ==> r == Err::<(), Error>(
                Error::NotCapable,
            ),
    {
        match self.get_cap(DirCaps::from_bits(DIR_CREATE_DIRECTORY)) {
            Ok(d) => d.create_dir(path),
            Err(e) => Err(e),
        }
    }
}

} // verus!
