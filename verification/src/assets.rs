//! Where assets are loaded from, and how a failure to load one is told.
//!
//! The library names the store and tells the failures apart. Reading the files is
//! left to the program that uses it.

use vstd::prelude::*;

verus! {

/// Why an asset could not be loaded.
#[derive(Debug, PartialEq, Eq)]
pub enum AssetIoError {
    /// Nothing was found at the path, which is given.
    NotFound(String),
    /// Reading failed for another reason, which is given.
    Io(String),
}

/// A store of assets in the file system, below a root directory.
#[derive(Debug)]
pub struct FileAssetIo {
    root_path: String,
}

impl FileAssetIo {
    /// The root directory of the store.
    pub closed spec fn root(&self) -> Seq<char> {
        self.root_path@
    }

    /// A store of the assets below the directory `path`.
    pub fn new(path: &str) -> (store: Self)
        ensures
            store.root() == path@,
    {
        FileAssetIo { root_path: path.to_owned() }
    }

    /// The root directory of the store.
    pub fn root_path(&self) -> (path: &str)
        ensures
            path@ == self.root(),
    {
        self.root_path.as_str()
    }
}

/// Tells a failure to open the asset at `full_path`: the asset was not found, or
/// something else went wrong, of which `reason` speaks.
pub fn load_failure(not_found: bool, full_path: String, reason: String) -> (error: AssetIoError)
    ensures
        error == if not_found {
            AssetIoError::NotFound(full_path)
        } else {
            AssetIoError::Io(reason)
        },
{
    if not_found {
        AssetIoError::NotFound(full_path)
    } else {
        AssetIoError::Io(reason)
    }
}

} // verus!
