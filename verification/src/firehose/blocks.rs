//! The blocks of one commit's archive, found by content identifier.

use vstd::prelude::*;

verus! {

/// One block of an archive: its content identifier, by its bytes, and its
/// data.
#[derive(Debug, Clone, PartialEq, Eq)]
pub struct Block {
    pub cid: Vec<u8>,
    pub data: Vec<u8>,
}

/// The place of the last block under `cid`, if there is one.
pub open spec fn last_under(blocks: Seq<Block>, cid: Seq<u8>) -> Option<int>
    decreases blocks.len(),
{
    if blocks.len() == 0 {
        None
    } else if blocks.last().cid@ == cid {
        Some(blocks.len() - 1)
    } else {
        last_under(blocks.drop_last(), cid)
    }
}

/// The place that `last_under` gives holds a block under `cid`, and no later
/// place does; it gives none only where no block is under `cid`.
pub proof fn lemma_last_under(blocks: Seq<Block>, cid: Seq<u8>)
    ensures
        match last_under(blocks, cid) {
            Some(i) => 0 <= i < blocks.len() && blocks[i].cid@ == cid && forall|j: int|
                i < j < blocks.len() ==> blocks[j].cid@ != cid,
            None => forall|j: int| 0 <= j < blocks.len() ==> blocks[j].cid@ != cid,
        },
    decreases blocks.len(),
{
    if blocks.len() > 0 && blocks.last().cid@ != cid {
        let front = blocks.drop_last();
        lemma_last_under(front, cid);
        assert forall|j: int| 0 <= j < front.len() implies front[j] == blocks[j] by {}
        match last_under(front, cid) {
            Some(i) => {
                assert forall|j: int| i < j < blocks.len() implies blocks[j].cid@ != cid by {
                    if j < front.len() {
                        assert(front[j] == blocks[j]);
                    }
                }
            },
            None => {
                assert forall|j: int| 0 <= j < blocks.len() implies blocks[j].cid@ != cid by {
                    if j < front.len() {
                        assert(front[j] == blocks[j]);
                    }
                }
            },
        }
    }
}

/// The block that is found under `cid` among `blocks`: the last one under
/// it, if there is one.
pub open spec fn found(blocks: Seq<Block>, cid: Seq<u8>) -> Option<Block> {
    match last_under(blocks, cid) {
        Some(i) => Some(blocks[i]),
        None => None,
    }
}

/// A lookup table from content identifier to block data, built once for one
/// commit. Where an archive holds several blocks under one content
/// identifier, the last of them is the one that is found.
#[derive(Debug)]
pub struct BlockMap {
    blocks: Vec<Block>,
}

impl View for BlockMap {
    type V = Map<Seq<u8>, Seq<u8>>;

    /// The data that is found under each content identifier.
    closed spec fn view(&self) -> Map<Seq<u8>, Seq<u8>> {
        Map::new(
            |cid: Seq<u8>| last_under(self.blocks@, cid) is Some,
            |cid: Seq<u8>| self.blocks@[last_under(self.blocks@, cid).unwrap()].data@,
        )
    }
}

fn same_bytes(a: &Vec<u8>, b: &Vec<u8>) -> (same: bool)
    ensures
        same == (a@ == b@),
{
    if a.len() != b.len() {
        return false;
    }
    let mut i: usize = 0;
    while i < a.len()
        invariant
            i <= a.len(),
            a.len() == b.len(),
            forall|j: int| 0 <= j < i ==> a@[j] == b@[j],
        decreases a.len() - i,
    {
        if a[i] != b[i] {
            return false;
        }
        i = i + 1;
    }
    assert(a@ =~= b@);
    true
}

impl BlockMap {
    /// The blocks in the order of the archive.
    pub closed spec fn blocks(&self) -> Seq<Block> {
        self.blocks@
    }

    /// The block that is found under `cid`, if there is one.
    pub open spec fn block(&self, cid: Seq<u8>) -> Option<Block> {
        found(self.blocks(), cid)
    }

    /// The view holds the data of the blocks that are found.
    pub proof fn lemma_view(&self, cid: Seq<u8>)
        ensures
            self@.dom().contains(cid) == (self.block(cid) is Some),
            self.block(cid) matches Some(block) ==> self@[cid] == block.data@,
    {
    }

    /// The table of an archive's blocks.
    pub fn from_blocks(blocks: Vec<Block>) -> (map: BlockMap)
        ensures
            map.blocks() == blocks@,
    {
        BlockMap { blocks }
    }

    /// Finds the data of the block under `cid`.
    pub fn get(&self, cid: &Vec<u8>) -> (data: Option<&Vec<u8>>)
        ensures
            match data {
                Some(data) => self.block(cid@) matches Some(block) && *data == block.data,
                None => self.block(cid@) is None,
            },
            data matches Some(data) ==> self@.dom().contains(cid@) && self@[cid@] == data@,
            data is None ==> !self@.dom().contains(cid@),
    {
        let mut i: usize = self.blocks.len();
        assert(self.blocks@.take(i as int) =~= self.blocks@);
        while i > 0
            invariant
                i <= self.blocks.len(),
                last_under(self.blocks@, cid@) == last_under(self.blocks@.take(i as int), cid@),
            decreases i,
        {
            let block = &self.blocks[i - 1];
            proof {
                let front = self.blocks@.take(i as int);
                assert(front.last() == self.blocks@[i - 1]);
                assert(front.drop_last() =~= self.blocks@.take(i - 1));
            }
            if same_bytes(&block.cid, cid) {
                proof {
                    self.lemma_view(cid@);
                }
                return Some(&block.data);
            }
            i = i - 1;
        }
        assert(self.blocks@.take(0).len() == 0);
        proof {
            self.lemma_view(cid@);
        }
        None
    }
}

/// Last write wins: a table built from blocks to which one more is added
/// finds the added block's data under its content identifier, and under
/// every other one what it found before.
pub proof fn lemma_last_block_wins(before: BlockMap, after: BlockMap, added: Block)
    requires
        after.blocks() == before.blocks().push(added),
    ensures
        after@ == before@.insert(added.cid@, added.data@),
{
    let blocks = after.blocks();
    assert(blocks.drop_last() =~= before.blocks());
    assert(blocks.last() == added);
    assert forall|cid: Seq<u8>| #[trigger]
        after@.dom().contains(cid) == before@.insert(added.cid@, added.data@).dom().contains(
            cid,
        ) by {
        lemma_last_under(before.blocks(), cid);
    }
    assert forall|cid: Seq<u8>| #[trigger] after@.dom().contains(cid) implies after@[cid]
        == before@.insert(added.cid@, added.data@)[cid] by {
        lemma_last_under(before.blocks(), cid);
    }
    assert(after@ =~= before@.insert(added.cid@, added.data@));
}

} // verus!
