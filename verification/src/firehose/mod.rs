//! The handler of the firehose: it resolves the records of each commit from
//! the commit's archive of blocks.
//!
//! Reading the archive and decoding a record are the caller's: the handler
//! is given a function for each, and each may decline by returning `None`.

use std::marker::PhantomData;
use vstd::prelude::*;
use crate::firehose::blocks::{Block, BlockMap, found};
use crate::firehose::type_defs::{
    Operation, ProcessedAccountData, ProcessedCommitData, ProcessedHandleData,
    ProcessedIdentityData, ProcessedInfoData, ProcessedMigrateData, ProcessedTombstoneData,
};
use crate::subscriptions::ProcessedPayload;
use crate::subscriptions::repositories::handler::Handler;
use crate::subscriptions::repositories::payloads::{Commit, RepoOp};

pub mod blocks;
pub mod type_defs;

verus! {

/// Why a commit could not be processed.
#[derive(Debug, Clone, Copy, PartialEq, Eq)]
pub enum Error {
    /// The commit's archive of blocks could not be read.
    UnreadableArchive,
}

/// Whether `record` is a resolution of the record under `cid`: what the
/// decoder returns for the block that is found under `cid`, and none where
/// there is no `cid` or no such block.
pub open spec fn resolved<R, D: Fn(&Vec<u8>) -> Option<R>>(
    blocks: Seq<Block>,
    cid: Option<Vec<u8>>,
    decode: &D,
    record: Option<R>,
) -> bool {
    match cid {
        Some(cid) => match found(blocks, cid@) {
            Some(block) => call_ensures(*decode, (&block.data,), record),
            None => record is None,
        },
        None => record is None,
    }
}

/// Whether `operation` is `op` with its record resolved.
pub open spec fn op_resolved<R, D: Fn(&Vec<u8>) -> Option<R>>(
    blocks: Seq<Block>,
    op: RepoOp,
    decode: &D,
    operation: Operation<R>,
) -> bool {
    &&& operation.action == op.action
    &&& operation.path == op.path
    &&& resolved(blocks, op.cid, decode, operation.record)
}

/// Whether `operations` are `ops`, in order, each with its record resolved.
pub open spec fn ops_resolved<R, D: Fn(&Vec<u8>) -> Option<R>>(
    blocks: Seq<Block>,
    ops: Seq<RepoOp>,
    decode: &D,
    operations: Seq<Operation<R>>,
) -> bool {
    &&& operations.len() == ops.len()
    &&& forall|i: int|
        0 <= i < ops.len() ==> op_resolved(blocks, ops[i], decode, #[trigger] operations[i])
}

/// Resolves the record of a single operation. An operation whose record
/// cannot be resolved is no error: it comes back without a record.
pub fn process_op<R, D: Fn(&Vec<u8>) -> Option<R>>(
    map: &BlockMap,
    op: RepoOp,
    decode: &D,
) -> (operation: Operation<R>)
    requires
        forall|block: &Vec<u8>| call_requires(*decode, (block,)),
    ensures
        op_resolved(map.blocks(), op, decode, operation),
{
    let RepoOp { action, path, cid } = op;
    let record = match cid {
        Some(cid) => match map.get(&cid) {
            Some(data) => decode(data),
            None => None,
        },
        None => None,
    };
    Operation { action, path, record }
}

/// Resolves the records of a commit's operations, each on its own and in
/// order.
pub fn process_ops<R, D: Fn(&Vec<u8>) -> Option<R>>(
    ops: Vec<RepoOp>,
    map: &BlockMap,
    decode: &D,
) -> (operations: Vec<Operation<R>>)
    requires
        forall|block: &Vec<u8>| call_requires(*decode, (block,)),
    ensures
        ops_resolved(map.blocks(), ops@, decode, operations@),
{
    let mut operations: Vec<Operation<R>> = Vec::new();
    let ghost all = ops@;
    for op in it: ops
        invariant
            it.seq() == all,
            forall|block: &Vec<u8>| call_requires(*decode, (block,)),
            operations.len() == it.index(),
            forall|i: int|
                0 <= i < operations.len() ==> op_resolved(
                    map.blocks(),
                    all[i],
                    decode,
                    #[trigger] operations[i],
                ),
    {
        operations.push(process_op(map, op, decode));
    }
    operations
}

/// Whether `processed` is `payload` as it was sent, but for the operations
/// and the blocks.
pub open spec fn commit_kept<R>(
    payload: Commit,
    processed: ProcessedPayload<ProcessedCommitData<R>>,
) -> bool {
    &&& processed.seq == payload.seq
    &&& processed.data.too_big == payload.too_big
    &&& processed.data.repo == payload.repo
    &&& processed.data.commit == payload.commit
}

/// What processing makes of a commit, given what reading its archive gave
/// (`None` where the archive could not be read). A commit that is too big
/// comes back without operations, whatever its archive holds. Any other
/// commit needs its archive, and comes back with every operation, each with
/// its record resolved from the blocks.
pub open spec fn commit_processed<R, D: Fn(&Vec<u8>) -> Option<R>>(
    payload: Commit,
    archive: Option<Vec<Block>>,
    decode: &D,
    result: Result<ProcessedPayload<ProcessedCommitData<R>>, Error>,
) -> bool {
    if payload.too_big {
        result matches Ok(processed) && commit_kept(payload, processed) && processed.data.ops
            is None
    } else {
        match archive {
            Some(blocks) => {
                &&& result matches Ok(processed)
                &&& commit_kept(payload, processed)
                &&& processed.data.ops matches Some(operations)
                &&& ops_resolved(blocks@, payload.ops@, decode, operations@)
            },
            None => result == Err::<ProcessedPayload<ProcessedCommitData<R>>, Error>(
                Error::UnreadableArchive,
            ),
        }
    }
}

/// An operation whose record cannot be found does not fail its commit: where
/// the archive was read, and an operation names no record or names one that
/// no block of the archive is under, the commit is processed, keeps its
/// sequence number and all its operations, and that operation has no record.
pub proof fn lemma_absent_record_is_none<R, D: Fn(&Vec<u8>) -> Option<R>>(
    payload: Commit,
    blocks: Vec<Block>,
    decode: &D,
    result: Result<ProcessedPayload<ProcessedCommitData<R>>, Error>,
    i: int,
)
    requires
        !payload.too_big,
        commit_processed(payload, Some(blocks), decode, result),
        0 <= i < payload.ops.len(),
        payload.ops[i].cid matches Some(cid) ==> found(blocks@, cid@) is None,
    ensures
        result matches Ok(processed) && processed.seq == payload.seq && (
        processed.data.ops matches Some(operations) && operations.len() == payload.ops.len()
            && operations[i].record is None),
{
    let operations = result->Ok_0.data.ops->0;
    assert(op_resolved(blocks@, payload.ops@[i], decode, operations@[i]));
}

/// Resolves the operations of a commit from the blocks of its archive.
pub fn resolve_commit<R, D: Fn(&Vec<u8>) -> Option<R>>(
    payload: Commit,
    blocks: Vec<Block>,
    decode: &D,
) -> (processed: ProcessedPayload<ProcessedCommitData<R>>)
    requires
        forall|block: &Vec<u8>| call_requires(*decode, (block,)),
    ensures
        commit_kept(payload, processed),
        processed.data.ops matches Some(operations) && ops_resolved(
            blocks@,
            payload.ops@,
            decode,
            operations@,
        ),
{
    let Commit { seq, too_big, repo, commit, ops, blocks: _ } = payload;
    let map = BlockMap::from_blocks(blocks);
    let operations = process_ops(ops, &map, decode);
    ProcessedPayload {
        seq,
        data: ProcessedCommitData { too_big, repo, commit, ops: Some(operations) },
    }
}

/// Processes a commit. The archive of a commit that is too big is not read.
/// The archive of any other commit is read with `read_archive`; where that
/// fails the commit cannot be processed, and where it succeeds the commit comes
/// back with its operations resolved.
pub fn process_commit<R, A: Fn(&Vec<u8>) -> Option<Vec<Block>>, D: Fn(&Vec<u8>) -> Option<R>>(
    payload: Commit,
    read_archive: &A,
    decode: &D,
) -> (result: Result<ProcessedPayload<ProcessedCommitData<R>>, Error>)
    requires
        forall|archive: &Vec<u8>| call_requires(*read_archive, (archive,)),
        forall|block: &Vec<u8>| call_requires(*decode, (block,)),
    ensures
        exists|archive: Option<Vec<Block>>|
            (payload.too_big || call_ensures(*read_archive, (&payload.blocks,), archive))
                && #[trigger] commit_processed(payload, archive, decode, result),
{
    if payload.too_big {
        let Commit { seq, too_big, repo, commit, ops: _, blocks: _ } = payload;
        let data = ProcessedCommitData { too_big, repo, commit, ops: None };
        let result = Ok(ProcessedPayload { seq, data });
        assert(commit_processed(payload, None, decode, result));
        return result;
    }
    let archive = read_archive(&payload.blocks);
    let ghost read = archive;
    let result = match archive {
        Some(blocks) => Ok(resolve_commit(payload, blocks, decode)),
        None => Err(Error::UnreadableArchive),
    };
    assert(commit_processed(payload, read, decode, result));
    result
}

/// The handler of the firehose. It processes commits and ignores the events
/// of every other kind.
#[verifier::reject_recursive_types(R)]
pub struct Firehose<R, A: Fn(&Vec<u8>) -> Option<Vec<Block>>, D: Fn(&Vec<u8>) -> Option<R>> {
    read_archive: A,
    decode_record: D,
    record: PhantomData<R>,
}

impl<R, A: Fn(&Vec<u8>) -> Option<Vec<Block>>, D: Fn(&Vec<u8>) -> Option<R>> Firehose<R, A, D> {
    /// Both functions accept every input.
    #[verifier::type_invariant]
    spec fn total(self) -> bool {
        &&& forall|archive: &Vec<u8>| call_requires(self.read_archive, (archive,))
        &&& forall|block: &Vec<u8>| call_requires(self.decode_record, (block,))
    }

    pub closed spec fn read_archive(&self) -> A {
        self.read_archive
    }

    pub closed spec fn decode_record(&self) -> D {
        self.decode_record
    }

    /// The handler that reads archives with `read_archive` and decodes
    /// records with `decode_record`. Both have to accept every input.
    pub fn new(read_archive: A, decode_record: D) -> (handler: Self)
        requires
            forall|archive: &Vec<u8>| call_requires(read_archive, (archive,)),
            forall|block: &Vec<u8>| call_requires(decode_record, (block,)),
        ensures
            handler.read_archive() == read_archive,
            handler.decode_record() == decode_record,
    {
        Firehose { read_archive, decode_record, record: PhantomData }
    }
}

impl<R, A: Fn(&Vec<u8>) -> Option<Vec<Block>>, D: Fn(&Vec<u8>) -> Option<R>> Handler for Firehose<
    R,
    A,
    D,
> {
    type ProcessedCommitData = ProcessedCommitData<R>;

    type ProcessedIdentityData = ProcessedIdentityData;

    type ProcessedAccountData = ProcessedAccountData;

    type ProcessedHandleData = ProcessedHandleData;

    type ProcessedMigrateData = ProcessedMigrateData;

    type ProcessedTombstoneData = ProcessedTombstoneData;

    type ProcessedInfoData = ProcessedInfoData;

    type HandlingError = Error;

    /// Processes a commit with [`process_commit`]. No commit is ignored.
    fn process_commit(&self, payload: Commit) -> (result: Result<
        Option<ProcessedPayload<ProcessedCommitData<R>>>,
        Error,
    >)
        ensures
            exists|
                archive: Option<Vec<Block>>,
                processed: Result<ProcessedPayload<ProcessedCommitData<R>>, Error>,
            |
                (payload.too_big || call_ensures(self.read_archive(), (&payload.blocks,), archive))
                    && #[trigger] commit_processed(
                    payload,
                    archive,
                    &self.decode_record(),
                    processed,
                ) && result == (match processed {
                    Ok(p) => Ok::<Option<ProcessedPayload<ProcessedCommitData<R>>>, Error>(Some(p)),
                    Err(e) => Err(e),
                }),
    {
        proof {
            use_type_invariant(self);
        }
        let processed = process_commit(payload, &self.read_archive, &self.decode_record);
        proof {
            let archive = choose|archive: Option<Vec<Block>>|
                (payload.too_big || call_ensures(
                    self.read_archive,
                    (&payload.blocks,),
                    archive,
                )) && #[trigger] commit_processed(payload, archive, &self.decode_record, processed);
            assert(commit_processed(payload, archive, &self.decode_record(), processed));
        }
        match processed {
            Ok(processed) => Ok(Some(processed)),
            Err(e) => Err(e),
        }
    }
}

} // verus!
