//! File system locations: the store paths that Nix builds, and the temporary
//! directory that keeps them alive.

use std::path::{Path, PathBuf};
use tempfile::TempDir;
use vstd::prelude::*;
use vstd::std_specs::convert::FromSpec;

verus! {

/// `std::path::Path`, known by its [`path_bytes`] alone.
#[verifier::external_type_specification]
#[verifier::external_body]
pub struct ExPath(std::path::Path);

/// `std::path::PathBuf`, known by its [`path_buf_bytes`] alone.
#[verifier::external_type_specification]
#[verifier::external_body]
pub struct ExPathBuf(std::path::PathBuf);

/// `tempfile::TempDir`, known by its [`temp_dir_bytes`] alone.
#[verifier::external_type_specification]
#[verifier::external_body]
pub struct ExTempDir(tempfile::TempDir);

/// The bytes that a path holds.
pub uninterp spec fn path_bytes(path: &Path) -> Seq<u8>;

/// The bytes that an owned path holds.
pub uninterp spec fn path_buf_bytes(path: PathBuf) -> Seq<u8>;

/// The bytes of the path at which a temporary directory lies.
pub uninterp spec fn temp_dir_bytes(dir: TempDir) -> Seq<u8>;

/// The bytes of the path that `Path::join` makes of a path and a segment, on
/// the Unix systems that Nix runs on.
pub uninterp spec fn joined_bytes(base: Seq<u8>, segment: Seq<char>) -> Seq<u8>;

/// `PathBuf::as_path` borrows the whole owned path.
pub assume_specification[ std::path::PathBuf::as_path ](path: &std::path::PathBuf) -> (borrowed: &std::path::Path)
    ensures
        path_bytes(borrowed) == path_buf_bytes(*path),
;

/// `Path::to_path_buf` copies the path into an owned one.
pub assume_specification[ std::path::Path::to_path_buf ](path: &std::path::Path) -> (owned: std::path::PathBuf)
    ensures
        path_buf_bytes(owned) == path_bytes(path),
;

/// `PathBuf::clone` copies the path.
pub assume_specification[ <std::path::PathBuf as Clone>::clone ](path: &std::path::PathBuf) -> (copy: std::path::PathBuf)
    ensures
        path_buf_bytes(copy) == path_buf_bytes(*path),
;

/// `TempDir::path` gives the location of the directory.
pub assume_specification[ tempfile::TempDir::path ](dir: &tempfile::TempDir) -> (path: &std::path::Path)
    ensures
        path_bytes(path) == temp_dir_bytes(*dir),
;

/// `Path::join`. Its result is named, as a function of what the path and the
/// segment hold; where a separator goes is left to it.
#[verifier::external_body]
fn join(base: &Path, segment: &str) -> (joined: PathBuf)
    ensures
        path_buf_bytes(joined) == joined_bytes(path_bytes(base), segment@),
{
    base.join(segment)
}

/// A store path (generated by `nix-store --realize` from a .drv file).
#[derive(Hash, PartialEq, Eq, Debug)]
pub struct StorePath(PathBuf);

impl View for StorePath {
    type V = Seq<u8>;

    open spec fn view(&self) -> Seq<u8> {
        path_buf_bytes(self.path_buf())
    }
}

impl StorePath {
    /// The owned path that a store path is made of.
    pub closed spec fn path_buf(self) -> PathBuf {
        self.0
    }

    /// Underlying `Path`.
    pub fn as_path(&self) -> (path: &Path)
        ensures
            path_bytes(path) == self@,
            path_bytes(path) == path_buf_bytes(self.path_buf()),
    {
        self.0.as_path()
    }
}

impl Clone for StorePath {
    fn clone(&self) -> (copy: StorePath)
        ensures
            copy@ == self@,
    {
        StorePath(self.0.clone())
    }
}

impl From<PathBuf> for StorePath {
    fn from(path: PathBuf) -> (store_path: StorePath)
        ensures
            store_path.path_buf() == path,
    {
        StorePath(path)
    }
}

impl vstd::std_specs::convert::FromSpecImpl<PathBuf> for StorePath {
    open spec fn obeys_from_spec() -> bool {
        true
    }

    closed spec fn from_spec(path: PathBuf) -> StorePath {
        StorePath(path)
    }
}

/// A store path made of an owned path holds that path.
pub proof fn lemma_made_of(path: PathBuf)
    ensures
        <StorePath as FromSpec<PathBuf>>::from_spec(path).path_buf() == path,
{
}

impl From<&Path> for StorePath {
    fn from(path: &Path) -> (store_path: StorePath)
        ensures
            store_path@ == path_bytes(path),
    {
        StorePath(path.to_path_buf())
    }
}

impl vstd::std_specs::convert::FromSpecImpl<&Path> for StorePath {
    open spec fn obeys_from_spec() -> bool {
        false
    }

    open spec fn from_spec(path: &Path) -> StorePath {
        arbitrary()
    }
}

/// Opaque type to keep a temporary GC root directory alive.
/// Once it is dropped, the GC root is removed.
#[derive(Debug)]
pub struct GcRootTempDir(TempDir);

impl View for GcRootTempDir {
    type V = Seq<u8>;

    open spec fn view(&self) -> Seq<u8> {
        temp_dir_bytes(self.dir())
    }
}

impl GcRootTempDir {
    /// The directory that is kept alive.
    pub closed spec fn dir(self) -> TempDir {
        self.0
    }

    /// Keep GC roots in `dir`.
    pub fn new(dir: TempDir) -> (gc_root: GcRootTempDir)
        ensures
            gc_root.dir() == dir,
            gc_root@ == temp_dir_bytes(dir),
    {
        GcRootTempDir(dir)
    }

    /// Where the link to the build output goes: `result` inside the directory.
    pub fn out_link(&self) -> (link: PathBuf)
        ensures
            path_buf_bytes(link) == joined_bytes(self@, "result"@),
    {
        join(self.0.path(), "result")
    }
}

} // verus!
