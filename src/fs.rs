//! A snapshot of which relevant paths exist on disk, so that every decision
//! that depends on the filesystem is a function of plain values.
use vstd::prelude::*;
use crate::path::{DirPath, PathModel};

verus! {

pub open spec fn path_views(v: Seq<DirPath>) -> Seq<PathModel> {
    v.map_values(|p: DirPath| p@)
}

/// The existing regular files and the existing directories.
pub struct FsModel {
    pub files: Seq<PathModel>,
    pub dirs: Seq<PathModel>,
}

/// Whether anything exists at `p`.
pub open spec fn present(fs: FsModel, p: PathModel) -> bool {
    fs.files.contains(p) || fs.dirs.contains(p)
}

/// Whether a directory exists at `p`.
pub open spec fn is_directory(fs: FsModel, p: PathModel) -> bool {
    fs.dirs.contains(p)
}

/// The paths known to exist, as files and as directories.
pub struct FsSnapshot {
    pub files: Vec<DirPath>,
    pub dirs: Vec<DirPath>,
}

impl View for FsSnapshot {
    type V = FsModel;

    open spec fn view(&self) -> FsModel {
        FsModel { files: path_views(self.files@), dirs: path_views(self.dirs@) }
    }
}

fn listed(v: &Vec<DirPath>, p: &DirPath) -> (r: bool)
    ensures
        r == path_views(v@).contains(p@),
{
    let mut i: usize = 0;
    while i < v.len()
        invariant
            i <= v@.len(),
            forall|k: int| 0 <= k < i ==> v@[k]@ != p@,
        decreases v@.len() - i,
    {
        if v[i].same_as(p) {
            assert(path_views(v@)[i as int] == p@);
            return true;
        }
        i = i + 1;
    }
    assert forall|k: int| 0 <= k < path_views(v@).len() implies path_views(v@)[k] != p@ by {}
    false
}

impl FsSnapshot {
    /// A snapshot in which nothing exists.
    pub fn new() -> (r: FsSnapshot)
        ensures
            r@.files.len() == 0,
            r@.dirs.len() == 0,
    {
        FsSnapshot { files: Vec::new(), dirs: Vec::new() }
    }

    /// Records that a regular file exists at `p`.
    pub fn add_file(&mut self, p: DirPath)
        ensures
            final(self)@.files == old(self)@.files.push(p@),
            final(self)@.dirs == old(self)@.dirs,
    {
        self.files.push(p);
        assert(self@.files =~= old(self)@.files.push(p@));
    }

    /// Records that a directory exists at `p`.
    pub fn add_dir(&mut self, p: DirPath)
        ensures
            final(self)@.dirs == old(self)@.dirs.push(p@),
            final(self)@.files == old(self)@.files,
    {
        self.dirs.push(p);
        assert(self@.dirs =~= old(self)@.dirs.push(p@));
    }

    /// Whether anything exists at `p`.
    pub fn contains_path(&self, p: &DirPath) -> (r: bool)
        ensures
            r == present(self@, p@),
    {
        listed(&self.files, p) || listed(&self.dirs, p)
    }

    /// Whether a directory exists at `p`.
    pub fn is_dir(&self, p: &DirPath) -> (r: bool)
        ensures
            r == is_directory(self@, p@),
    {
        listed(&self.dirs, p)
    }
}

} // verus!
