//! What the firehose handler makes of each kind of event.

use vstd::prelude::*;

verus! {

/// A commit with its operations resolved.
#[derive(Debug, Clone, PartialEq, Eq)]
pub struct ProcessedCommitData<R> {
    /// The commit came without operations and blocks: the consumer has to
    /// fetch the repository's state by other means.
    pub too_big: bool,
    /// The repository that the commit belongs to.
    pub repo: String,
    /// The content identifier of the commit object, by its bytes.
    pub commit: Vec<u8>,
    /// The operations in the commit's order; none where the commit was too
    /// big.
    pub ops: Option<Vec<Operation<R>>>,
}

/// One operation of a commit, with its record where the record could be
/// resolved.
#[derive(Debug, Clone, PartialEq, Eq)]
pub struct Operation<R> {
    pub action: String,
    pub path: String,
    /// The decoded record. None where the operation names no record, where
    /// the archive holds no block under the record's content identifier, and
    /// where the block does not decode.
    pub record: Option<R>,
}

#[derive(Debug, Clone, Copy, PartialEq, Eq)]
pub struct ProcessedIdentityData {}

#[derive(Debug, Clone, Copy, PartialEq, Eq)]
pub struct ProcessedAccountData {}

#[derive(Debug, Clone, Copy, PartialEq, Eq)]
pub struct ProcessedHandleData {}

#[derive(Debug, Clone, Copy, PartialEq, Eq)]
pub struct ProcessedMigrateData {}

#[derive(Debug, Clone, Copy, PartialEq, Eq)]
pub struct ProcessedTombstoneData {}

#[derive(Debug, Clone, Copy, PartialEq, Eq)]
pub struct ProcessedInfoData {}

} // verus!
