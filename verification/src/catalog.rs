//! The values that a run reads from its collaborators and hands to them.

use vstd::prelude::*;
use crate::algorithm::HashAlgorithm;

verus! {

/// `std::path::PathBuf`, declared so that the run can hold the candidate
/// paths. Nothing is claimed of a path: the run only keeps the list and lends
/// it out.
#[verifier::external_type_specification]
#[verifier::external_body]
pub struct ExPathBuf(std::path::PathBuf);

/// A logical category under which files are organized and matched. The
/// catalog owns it; a run only reads it.
#[derive(Debug, PartialEq, Eq)]
pub struct System {
    pub id: i64,
    pub name: String,
}

impl Clone for System {
    fn clone(&self) -> (r: Self)
        ensures
            r == *self,
    {
        System { id: self.id, name: self.name.clone() }
    }
}

/// The policy flags of a run. They are fixed when the run begins.
#[derive(Clone, Copy, Debug, PartialEq, Eq, Structural)]
pub struct RunOptions {
    /// Leave unmatched files in place instead of moving them to the trash.
    pub no_trash: bool,
}

/// What the import engine is given for one system, besides the candidate
/// paths, which every call of a run shares.
#[derive(Debug, PartialEq, Eq)]
pub struct ImportCall<H> {
    pub system: System,
    /// The system's header; `None` where the catalog holds none for it.
    pub header: Option<H>,
    pub algorithm: HashAlgorithm,
    pub no_trash: bool,
}

} // verus!
