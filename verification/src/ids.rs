//! Row identifiers shared by every module.

use vstd::prelude::*;

verus! {

/// Identifies a user row.
#[derive(Clone, Copy, Debug, PartialEq, Eq, Structural, Hash, PartialOrd, Ord)]
pub struct UserId(pub i64);

/// Identifies a message row.
#[derive(Clone, Copy, Debug, PartialEq, Eq, Structural, Hash, PartialOrd, Ord)]
pub struct MessageId(pub i64);

/// Identifies a stored file.
#[derive(Clone, Copy, Debug, PartialEq, Eq, Structural, Hash, PartialOrd, Ord)]
pub struct FileId(pub i64);

impl UserId {
    /// The raw row id.
    pub fn raw(&self) -> (r: i64)
        ensures
            r == self.0,
    {
        self.0
    }
}

} // verus!
