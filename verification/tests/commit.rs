use std::collections::BTreeMap;

use atrium_api::com::atproto::sync::subscribe_repos;
use atrium_api::types::{CidLink, Object};
use firehose_client::firehose::blocks::{Block, BlockMap};
use firehose_client::firehose::type_defs::{
    Operation, ProcessedAccountData, ProcessedCommitData, ProcessedHandleData,
    ProcessedIdentityData, ProcessedInfoData, ProcessedMigrateData, ProcessedTombstoneData,
};
use firehose_client::firehose::{
    process_commit, process_op, process_ops, resolve_commit, Error, Firehose,
};
use firehose_client::subscriptions::repositories::handler::{
    dispatch, HandlingError, ProcessedData,
};
use firehose_client::subscriptions::repositories::payloads::{Commit, RepoOp};
use firehose_client::subscriptions::repositories::{replay, Error as Reported};
use firehose_client::subscriptions::{Inbound, ProcessedPayload, SubscriptionError};
use ipld_core::cid::multihash::Multihash;
use ipld_core::cid::Cid;
use ipld_core::ipld::Ipld;

const DID: &str = "did:plc:ewvi7nxzyoun6zhxrhs64oiz";

/// The DAG-CBOR text "hello", and its SHA-256 digest.
const HELLO: [u8; 6] = [0x65, 0x68, 0x65, 0x6c, 0x6c, 0x6f];
const HELLO_DIGEST: [u8; 32] = [
    0xcb, 0x83, 0x55, 0x93, 0xe4, 0xfa, 0x36, 0x33, 0xcc, 0x97, 0x1f, 0xcb, 0xd1, 0xeb, 0x08, 0x0c,
    0xa3, 0x22, 0x25, 0x82, 0x20, 0x54, 0x8e, 0xb7, 0x08, 0x7b, 0xea, 0xf8, 0xef, 0x6d, 0x7f, 0xf4,
];

/// The DAG-CBOR text "world", and its SHA-256 digest.
const WORLD: [u8; 6] = [0x65, 0x77, 0x6f, 0x72, 0x6c, 0x64];
const WORLD_DIGEST: [u8; 32] = [
    0x29, 0x65, 0x1e, 0x19, 0x5d, 0xe2, 0x5d, 0xea, 0xd9, 0xde, 0x33, 0xf3, 0x51, 0x84, 0xa6, 0x52,
    0x65, 0x38, 0xeb, 0x3d, 0xe5, 0x47, 0xe2, 0x09, 0x49, 0x9b, 0x71, 0x9f, 0x5e, 0x50, 0x26, 0xef,
];

fn sha256_cid(digest: [u8; 32]) -> Cid {
    Cid::new_v1(0x71, Multihash::<64>::wrap(0x12, &digest).unwrap())
}

/// A content identifier that holds the data itself in place of a digest.
fn identity_cid(data: &[u8]) -> Cid {
    Cid::new_v1(0x71, Multihash::<64>::wrap(0x00, data).unwrap())
}

fn varint(mut n: usize) -> Vec<u8> {
    let mut out = vec![];
    while n >= 0x80 {
        out.push((n as u8 & 0x7f) | 0x80);
        n >>= 7;
    }
    out.push(n as u8);
    out
}

fn archive(blocks: &[(Cid, Vec<u8>)]) -> Vec<u8> {
    let mut header = BTreeMap::new();
    header.insert("roots".to_string(), Ipld::List(vec![Ipld::Link(sha256_cid(HELLO_DIGEST))]));
    header.insert("version".to_string(), Ipld::Integer(1));
    let header = serde_ipld_dagcbor::to_vec(&Ipld::Map(header)).unwrap();
    let mut out = varint(header.len());
    out.extend(header);
    for (cid, data) in blocks {
        let cid = cid.to_bytes();
        out.extend(varint(cid.len() + data.len()));
        out.extend(cid);
        out.extend(data);
    }
    out
}

fn read_archive(archive: &Vec<u8>) -> Option<Vec<Block>> {
    let mut cursor = futures::io::Cursor::new(archive.as_slice());
    let (blocks, _) = futures::executor::block_on(rs_car::car_read_all(&mut cursor, true)).ok()?;
    Some(blocks.into_iter().map(|(cid, data)| Block { cid: cid.to_bytes(), data }).collect())
}

fn decode_text(block: &Vec<u8>) -> Option<String> {
    serde_ipld_dagcbor::from_slice::<String>(block).ok()
}

fn block(cid: &[u8], data: &[u8]) -> Block {
    Block { cid: cid.to_vec(), data: data.to_vec() }
}

fn op(action: &str, path: &str, cid: Option<&[u8]>) -> RepoOp {
    RepoOp { action: action.to_string(), path: path.to_string(), cid: cid.map(|c| c.to_vec()) }
}

fn operation(action: &str, path: &str, record: Option<&str>) -> Operation<String> {
    Operation {
        action: action.to_string(),
        path: path.to_string(),
        record: record.map(|r| r.to_string()),
    }
}

fn commit(seq: i64, too_big: bool, ops: Vec<RepoOp>, blocks: Vec<u8>) -> Commit {
    Commit { seq, too_big, repo: DID.to_string(), commit: vec![1, 2, 3], ops, blocks }
}

#[test]
fn block_map_finds_by_content_identifier() {
    let map = BlockMap::from_blocks(vec![block(&[1], &[10]), block(&[2], &[20, 21])]);
    assert_eq!(map.get(&vec![1]), Some(&vec![10]));
    assert_eq!(map.get(&vec![2]), Some(&vec![20, 21]));
    assert_eq!(map.get(&vec![3]), None);
    assert_eq!(map.get(&vec![]), None);
    assert_eq!(map.get(&vec![1, 0]), None);
}

#[test]
fn empty_block_map_finds_nothing() {
    let map = BlockMap::from_blocks(vec![]);
    assert_eq!(map.get(&vec![1]), None);
    assert_eq!(map.get(&vec![]), None);
}

#[test]
fn last_block_under_a_content_identifier_wins() {
    let map = BlockMap::from_blocks(vec![
        block(&[1], &[10]),
        block(&[2], &[20]),
        block(&[1], &[11]),
        block(&[3], &[30]),
    ]);
    assert_eq!(map.get(&vec![1]), Some(&vec![11]));
    assert_eq!(map.get(&vec![2]), Some(&vec![20]));
    assert_eq!(map.get(&vec![3]), Some(&vec![30]));
}

#[test]
fn block_map_holds_empty_keys_and_data() {
    let map = BlockMap::from_blocks(vec![block(&[], &[]), block(&[0], &[])]);
    assert_eq!(map.get(&vec![]), Some(&vec![]));
    assert_eq!(map.get(&vec![0]), Some(&vec![]));
}

#[test]
fn process_op_resolves_the_record() {
    let map = BlockMap::from_blocks(vec![block(&[7], &HELLO), block(&[8], &[0xff])]);
    assert_eq!(
        process_op(&map, op("create", "a/1", Some(&[7])), &decode_text),
        operation("create", "a/1", Some("hello"))
    );
}

#[test]
fn process_op_without_record_is_no_error() {
    let map = BlockMap::from_blocks(vec![block(&[7], &HELLO), block(&[8], &[0xff])]);
    // No content identifier.
    assert_eq!(
        process_op(&map, op("delete", "a/1", None), &decode_text),
        operation("delete", "a/1", None)
    );
    // No block under the content identifier.
    assert_eq!(
        process_op(&map, op("update", "a/2", Some(&[9])), &decode_text),
        operation("update", "a/2", None)
    );
    // A block that does not decode.
    assert_eq!(
        process_op(&map, op("create", "a/3", Some(&[8])), &decode_text),
        operation("create", "a/3", None)
    );
}

#[test]
fn process_ops_keeps_the_order() {
    let map = BlockMap::from_blocks(vec![block(&[1], &HELLO), block(&[2], &WORLD)]);
    let ops = vec![
        op("create", "p/2", Some(&[2])),
        op("delete", "p/0", None),
        op("update", "p/1", Some(&[1])),
        op("create", "p/3", Some(&[3])),
        op("create", "p/2", Some(&[2])),
    ];
    assert_eq!(
        process_ops(ops, &map, &decode_text),
        vec![
            operation("create", "p/2", Some("world")),
            operation("delete", "p/0", None),
            operation("update", "p/1", Some("hello")),
            operation("create", "p/3", None),
            operation("create", "p/2", Some("world")),
        ]
    );
    assert_eq!(process_ops(vec![], &map, &decode_text), vec![]);
}

#[test]
fn resolve_commit_keeps_the_commit() {
    let payload = commit(5, false, vec![op("create", "p/1", Some(&[1]))], vec![0xaa]);
    assert_eq!(
        resolve_commit(payload, vec![block(&[1], &HELLO)], &decode_text),
        ProcessedPayload {
            seq: 5,
            data: ProcessedCommitData {
                too_big: false,
                repo: DID.to_string(),
                commit: vec![1, 2, 3],
                ops: Some(vec![operation("create", "p/1", Some("hello"))]),
            },
        }
    );
}

#[test]
fn process_commit_reads_the_archive() {
    let hello = sha256_cid(HELLO_DIGEST);
    let world = sha256_cid(WORLD_DIGEST);
    let blocks = archive(&[(hello, HELLO.to_vec()), (world, WORLD.to_vec())]);
    let payload = commit(
        1234,
        false,
        vec![
            op("create", "app.bsky.feed.post/1", Some(&world.to_bytes())),
            op("create", "app.bsky.feed.post/2", Some(&hello.to_bytes())),
        ],
        blocks,
    );
    assert_eq!(
        process_commit(payload, &read_archive, &decode_text),
        Ok(ProcessedPayload {
            seq: 1234,
            data: ProcessedCommitData {
                too_big: false,
                repo: DID.to_string(),
                commit: vec![1, 2, 3],
                ops: Some(vec![
                    operation("create", "app.bsky.feed.post/1", Some("world")),
                    operation("create", "app.bsky.feed.post/2", Some("hello")),
                ]),
            },
        })
    );
}

#[test]
fn process_commit_with_an_absent_block_still_succeeds() {
    let hello = sha256_cid(HELLO_DIGEST);
    let world = sha256_cid(WORLD_DIGEST);
    let blocks = archive(&[(hello, HELLO.to_vec())]);
    let ops = vec![op("create", "app.bsky.feed.post/1", Some(&world.to_bytes()))];
    let payload = commit(99, false, ops, blocks);
    assert_eq!(
        process_commit(payload, &read_archive, &decode_text),
        Ok(ProcessedPayload {
            seq: 99,
            data: ProcessedCommitData {
                too_big: false,
                repo: DID.to_string(),
                commit: vec![1, 2, 3],
                ops: Some(vec![operation("create", "app.bsky.feed.post/1", None)]),
            },
        })
    );
}

#[test]
fn process_commit_that_is_too_big_has_no_operations() {
    // The archive is not read: one that cannot be read does no harm.
    let payload = commit(3, true, vec![op("create", "p/1", Some(&[1]))], vec![0xff, 0xff]);
    assert_eq!(
        process_commit(payload, &read_archive, &decode_text),
        Ok(ProcessedPayload {
            seq: 3,
            data: ProcessedCommitData {
                too_big: true,
                repo: DID.to_string(),
                commit: vec![1, 2, 3],
                ops: None,
            },
        })
    );
}

#[test]
fn process_commit_with_an_unreadable_archive_fails() {
    let payload = commit(3, false, vec![], vec![0xff, 0xff]);
    assert_eq!(
        process_commit(payload, &read_archive, &decode_text),
        Err(Error::UnreadableArchive)
    );
    let payload = commit(3, false, vec![op("delete", "p", None)], vec![]);
    assert_eq!(
        process_commit(payload, &read_archive, &decode_text),
        Err(Error::UnreadableArchive)
    );
}

#[test]
fn archive_with_a_wrong_digest_is_unreadable() {
    let hello = sha256_cid(HELLO_DIGEST);
    let blocks = archive(&[(hello, WORLD.to_vec())]);
    let payload = commit(3, false, vec![], blocks);
    assert_eq!(
        process_commit(payload, &read_archive, &decode_text),
        Err(Error::UnreadableArchive)
    );
}

#[test]
fn duplicate_blocks_in_an_archive_resolve_to_the_last() {
    // Two blocks under one content identifier can only differ where the
    // archive is read without checking digests.
    let unchecked = |archive: &Vec<u8>| -> Option<Vec<Block>> {
        let mut cursor = futures::io::Cursor::new(archive.as_slice());
        let (blocks, _) =
            futures::executor::block_on(rs_car::car_read_all(&mut cursor, false)).ok()?;
        Some(blocks.into_iter().map(|(cid, data)| Block { cid: cid.to_bytes(), data }).collect())
    };
    let hello = sha256_cid(HELLO_DIGEST);
    let blocks = archive(&[(hello, HELLO.to_vec()), (hello, WORLD.to_vec())]);
    let payload = commit(8, false, vec![op("update", "p/1", Some(&hello.to_bytes()))], blocks);
    let processed = process_commit(payload, &unchecked, &decode_text).unwrap();
    assert_eq!(processed.data.ops, Some(vec![operation("update", "p/1", Some("world"))]));
}

type Processed = ProcessedData<
    ProcessedCommitData<String>,
    ProcessedIdentityData,
    ProcessedAccountData,
    ProcessedHandleData,
    ProcessedMigrateData,
    ProcessedTombstoneData,
    ProcessedInfoData,
>;

fn commit_body(seq: i64, too_big: bool, record: Cid, blocks: Vec<u8>) -> Vec<u8> {
    let payload: subscribe_repos::Commit = Object::from(subscribe_repos::CommitData {
        blobs: vec![],
        blocks,
        commit: CidLink(sha256_cid(WORLD_DIGEST)),
        ops: vec![Object::from(subscribe_repos::RepoOpData {
            action: "create".to_string(),
            cid: Some(CidLink(record)),
            path: "app.bsky.feed.post/3l6oveex3ii2l".to_string(),
        })],
        prev: None,
        rebase: false,
        repo: DID.parse().unwrap(),
        rev: "3l6oveex3ii2l".to_string(),
        seq,
        since: None,
        time: "2024-11-05T12:34:56.789Z".parse().unwrap(),
        too_big,
    });
    serde_ipld_dagcbor::to_vec(&payload).unwrap()
}

fn frame(t: &str, body: Vec<u8>) -> Inbound {
    let mut header = BTreeMap::new();
    header.insert("op".to_string(), Ipld::Integer(1));
    header.insert("t".to_string(), Ipld::String(t.to_string()));
    let mut bytes = serde_ipld_dagcbor::to_vec(&Ipld::Map(header)).unwrap();
    bytes.extend(body);
    Inbound::Binary(bytes)
}

fn processed_commit(too_big: bool, record: Option<Option<&str>>) -> Processed {
    ProcessedData::Commit(ProcessedCommitData {
        too_big,
        repo: DID.to_string(),
        commit: sha256_cid(WORLD_DIGEST).to_bytes(),
        ops: record.map(|r| vec![operation("create", "app.bsky.feed.post/3l6oveex3ii2l", r)]),
    })
}

#[test]
fn commit_with_an_absent_record_is_still_yielded() {
    let hello = sha256_cid(HELLO_DIGEST);
    let absent = sha256_cid(WORLD_DIGEST);
    let blocks = archive(&[(hello, HELLO.to_vec())]);
    let handler = Firehose::new(read_archive, decode_text);
    let items = vec![frame("#commit", commit_body(4711, false, absent, blocks))];
    assert_eq!(
        replay(items, &handler),
        vec![Ok(ProcessedPayload { seq: 4711, data: processed_commit(false, Some(None)) })]
    );
}

#[test]
fn firehose_resolves_commits_and_ignores_the_rest() {
    let hello = sha256_cid(HELLO_DIGEST);
    let small = identity_cid(&WORLD);
    let handler = Firehose::new(read_archive, decode_text);
    let info: subscribe_repos::Info = Object::from(subscribe_repos::InfoData {
        message: None,
        name: "OutdatedCursor".to_string(),
    });
    let items = vec![
        frame("#commit", commit_body(1, false, hello, archive(&[(hello, HELLO.to_vec())]))),
        frame("#info", serde_ipld_dagcbor::to_vec(&info).unwrap()),
        frame("#commit", commit_body(2, true, hello, vec![])),
        frame("#commit", commit_body(3, false, small, archive(&[(small, WORLD.to_vec())]))),
    ];
    assert_eq!(
        replay(items, &handler),
        vec![
            Ok(ProcessedPayload { seq: 1, data: processed_commit(false, Some(Some("hello"))) }),
            Ok(ProcessedPayload { seq: 2, data: processed_commit(true, None) }),
            Ok(ProcessedPayload { seq: 3, data: processed_commit(false, Some(Some("world"))) }),
        ]
    );
}

#[test]
fn firehose_fails_on_an_unreadable_archive() {
    let hello = sha256_cid(HELLO_DIGEST);
    let handler = Firehose::new(read_archive, decode_text);
    assert_eq!(
        dispatch(&handler, "#commit".to_string(), commit_body(1, false, hello, vec![0x01])),
        Err(HandlingError::Handler(Error::UnreadableArchive))
    );
    let items = vec![
        frame("#commit", commit_body(1, false, hello, vec![0x01])),
        frame("#commit", commit_body(2, true, hello, vec![])),
    ];
    let expected: Vec<Result<ProcessedPayload<Processed>, SubscriptionError<Reported>>> =
        vec![Err(SubscriptionError::Abort("Received invalid payload".to_string()))];
    assert_eq!(replay(items, &handler), expected);
}
