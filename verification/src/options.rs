//! The configuration of a node, as far as the repository reads it.
use std::path::PathBuf;
use vstd::prelude::*;

verus! {

/// The options a node is started with.
#[derive(Debug)]
pub struct IpfsOptions {
    /// The root location of the node's storage.
    pub ipfs_path: PathBuf,
}

impl Clone for IpfsOptions {
    fn clone(&self) -> (copy: IpfsOptions)
        ensures
            copy == *self,
    {
        IpfsOptions { ipfs_path: self.ipfs_path.clone() }
    }
}

} // verus!
