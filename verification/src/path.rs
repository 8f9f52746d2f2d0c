//! Root locations.
//!
//! A store is rooted at a `std::path::PathBuf`. The library never looks inside
//! a path: it only carries it from the configuration to the stores, so the
//! type is declared opaque and compared by value in contracts.
use std::path::PathBuf;
use vstd::prelude::*;

verus! {

/// `std::path::PathBuf`, carried through the library as an opaque root location.
#[verifier::external_type_specification]
#[verifier::external_body]
pub struct ExPathBuf(PathBuf);

/// `<std::path::PathBuf as Clone>::clone`, trusted to hand back a path that
/// names the same location as the one it was given.
pub assume_specification[ <PathBuf as Clone>::clone ](path: &PathBuf) -> (copy: PathBuf)
    ensures
        copy == *path,
;

} // verus!
