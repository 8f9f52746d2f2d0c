//! Stores that keep everything in memory.
//!
//! The block store keeps its blocks in a vector in which no identifier
//! occurs twice; what it holds, as a map, is read off that vector.
use crate::block::{Block, Cid};
use crate::repo::model::{with_block, without_block, BlockMap};
use crate::repo::{BlockStore, DataStore, IpfsRepo, RepoTypes};
use std::path::PathBuf;
use vstd::prelude::*;

verus! {

/// Whether one of `entries` has the identifier `cid`.
spec fn holds(entries: Seq<Block>, cid: Seq<u8>) -> bool {
    exists|i: int| 0 <= i < entries.len() && entries[i]@.cid == cid
}

/// Where in `entries` the block with the identifier `cid` stands, if one
/// does.
spec fn position(entries: Seq<Block>, cid: Seq<u8>) -> int {
    choose|i: int| 0 <= i < entries.len() && entries[i]@.cid == cid
}

/// No identifier occurs twice in `entries`.
spec fn distinct(entries: Seq<Block>) -> bool {
    forall|i: int, j: int| 0 <= i < j < entries.len() ==> entries[i]@.cid != entries[j]@.cid
}

/// The map that `entries` stand for.
spec fn as_map(entries: Seq<Block>) -> BlockMap {
    Map::new(|cid: Seq<u8>| holds(entries, cid), |cid: Seq<u8>| entries[position(entries, cid)]@.data)
}

/// Among distinct entries, the entry with a given identifier is found at
/// the one place where it stands.
proof fn lemma_position(entries: Seq<Block>, i: int)
    requires
        distinct(entries),
        0 <= i < entries.len(),
    ensures
        holds(entries, entries[i]@.cid),
        position(entries, entries[i]@.cid) == i,
        as_map(entries)[entries[i]@.cid] == entries[i]@.data,
{
    let cid = entries[i]@.cid;
    let p = position(entries, cid);
    assert(0 <= p < entries.len() && entries[p]@.cid == cid);
    if p < i {
        assert(entries[p]@.cid != entries[i]@.cid);
    }
    if i < p {
        assert(entries[i]@.cid != entries[p]@.cid);
    }
}

/// A block store in memory.
#[derive(Debug)]
pub struct MemBlockStore {
    root: PathBuf,
    entries: Vec<Block>,
}

impl MemBlockStore {
    /// The location the store is rooted at.
    pub fn path(&self) -> (path: &PathBuf)
        ensures
            *path == self.root(),
    {
        &self.root
    }

    /// How many blocks the store holds. A block that was put twice counts
    /// once.
    pub fn len(&self) -> (count: usize)
        requires
            self.wf(),
        ensures
            self.blocks().dom().finite(),
            count == self.blocks().dom().len(),
    {
        proof {
            lemma_counted(self.entries@);
        }
        self.entries.len()
    }

    /// The place of the block with the identifier `cid`, if the store holds
    /// one.
    fn find(&self, cid: &Cid) -> (at: Option<usize>)
        ensures
            match at {
                Some(i) => i < self.entries@.len() && self.entries@[i as int]@.cid == cid@,
                None => !holds(self.entries@, cid@),
            },
    {
        let mut i: usize = 0;
        while i < self.entries.len()
            invariant
                i <= self.entries@.len(),
                forall|k: int| 0 <= k < i ==> self.entries@[k]@.cid != cid@,
            decreases self.entries@.len() - i,
        {
            if *self.entries[i].cid() == *cid {
                return Some(i);
            }
            i += 1;
        }
        None
    }
}

impl Clone for MemBlockStore {
    fn clone(&self) -> (copy: Self)
        ensures
            copy.root() == self.root(),
            self.wf() ==> copy.wf() && copy.blocks() == self.blocks(),
    {
        let mut entries: Vec<Block> = Vec::with_capacity(self.entries.len());
        let mut i: usize = 0;
        while i < self.entries.len()
            invariant
                i <= self.entries@.len(),
                entries@.len() == i,
                forall|k: int| 0 <= k < i ==> entries@[k]@ == self.entries@[k]@,
            decreases self.entries@.len() - i,
        {
            entries.push(self.entries[i].clone());
            i += 1;
        }
        proof {
            if self.wf() {
                lemma_same_views_same_map(self.entries@, entries@);
            }
        }
        MemBlockStore { root: self.root.clone(), entries }
    }
}

/// Entries that agree place by place stand for the same map, and are
/// distinct together.
proof fn lemma_same_views_same_map(a: Seq<Block>, b: Seq<Block>)
    requires
        a.len() == b.len(),
        forall|k: int| 0 <= k < a.len() ==> a[k]@ == b[k]@,
        distinct(a),
    ensures
        distinct(b),
        as_map(a) == as_map(b),
{
    assert forall|cid: Seq<u8>| holds(a, cid) == holds(b, cid) by {
        if holds(a, cid) {
            let i = position(a, cid);
            assert(b[i]@.cid == cid);
        }
        if holds(b, cid) {
            let i = position(b, cid);
            assert(a[i]@.cid == cid);
        }
    }
    assert forall|cid: Seq<u8>| holds(a, cid) implies as_map(a)[cid] == as_map(b)[cid] by {
        let i = position(a, cid);
        lemma_position(a, i);
        assert(b[i]@.cid == cid);
        lemma_position(b, i);
    }
    assert(as_map(a) =~= as_map(b));
}

impl BlockStore for MemBlockStore {
    closed spec fn root(&self) -> PathBuf {
        self.root
    }

    closed spec fn blocks(&self) -> BlockMap {
        as_map(self.entries@)
    }

    closed spec fn wf(&self) -> bool {
        distinct(self.entries@)
    }

    fn new(path: PathBuf) -> (store: Self)
        ensures
            store.blocks() == Map::<Seq<u8>, Seq<u8>>::empty(),
    {
        let store = MemBlockStore { root: path, entries: Vec::new() };
        assert(store.blocks() =~= Map::<Seq<u8>, Seq<u8>>::empty());
        store
    }

    fn contains(&self, cid: &Cid) -> (found: bool) {
        self.find(cid).is_some()
    }

    fn get(&self, cid: &Cid) -> (block: Option<Block>) {
        match self.find(cid) {
            Some(i) => {
                proof {
                    lemma_position(self.entries@, i as int);
                }
                Some(self.entries[i].clone())
            },
            None => None,
        }
    }

    fn put(&mut self, block: Block) -> (cid: Cid) {
        let cid = block.cid().clone();
        let ghost before = self.entries@;
        match self.find(&cid) {
            Some(i) => {
                self.entries.set(i, block);
                proof {
                    lemma_replaced(before, self.entries@, i as int, block);
                }
            },
            None => {
                self.entries.push(block);
                proof {
                    lemma_appended(before, self.entries@, block);
                }
            },
        }
        cid
    }

    fn remove(&mut self, cid: &Cid) {
        let ghost before = self.entries@;
        match self.find(cid) {
            Some(i) => {
                self.entries.remove(i);
                proof {
                    lemma_taken_out(before, self.entries@, i as int);
                }
            },
            None => {
                assert(without_block(as_map(before), cid@) =~= as_map(before));
            },
        }
    }
}

/// Putting a block in the place of the entry that has its identifier stores
/// the block.
proof fn lemma_replaced(before: Seq<Block>, after: Seq<Block>, i: int, block: Block)
    requires
        distinct(before),
        0 <= i < before.len(),
        before[i]@.cid == block@.cid,
        after == before.update(i, block),
    ensures
        distinct(after),
        as_map(after) == with_block(as_map(before), block@),
{
    assert forall|k: int| 0 <= k < before.len() implies #[trigger] after[k]@.cid == before[k]@.cid by {}
    assert forall|cid: Seq<u8>| holds(after, cid) == holds(before, cid) by {
        if holds(after, cid) {
            let k = position(after, cid);
            assert(before[k]@.cid == cid);
        }
        if holds(before, cid) {
            let k = position(before, cid);
            assert(after[k]@.cid == cid);
        }
    }
    lemma_position(before, i);
    let want = with_block(as_map(before), block@);
    assert forall|cid: Seq<u8>| holds(after, cid) implies as_map(after)[cid] == want[cid] by {
        let k = position(after, cid);
        lemma_position(after, k);
        lemma_position(before, k);
    }
    assert(as_map(after) =~= want);
}

/// Adding a block whose identifier no entry has stores the block.
proof fn lemma_appended(before: Seq<Block>, after: Seq<Block>, block: Block)
    requires
        distinct(before),
        !holds(before, block@.cid),
        after == before.push(block),
    ensures
        distinct(after),
        as_map(after) == with_block(as_map(before), block@),
{
    assert forall|k: int| 0 <= k < before.len() implies #[trigger] after[k] == before[k] by {}
    assert forall|k: int| 0 <= k < before.len() implies before[k]@.cid != block@.cid by {}
    let last = before.len() as int;
    assert(after[last] == block);
    assert forall|cid: Seq<u8>| holds(after, cid) == (holds(before, cid) || cid == block@.cid) by {
        if holds(after, cid) {
            let k = position(after, cid);
            if k < last {
                assert(before[k]@.cid == cid);
            }
        }
        if holds(before, cid) {
            let k = position(before, cid);
            assert(after[k]@.cid == cid);
        }
        if cid == block@.cid {
            assert(after[last]@.cid == cid);
        }
    }
    let want = with_block(as_map(before), block@);
    assert forall|cid: Seq<u8>| holds(after, cid) implies as_map(after)[cid] == want[cid] by {
        let k = position(after, cid);
        lemma_position(after, k);
        if k < last {
            lemma_position(before, k);
        }
    }
    assert(as_map(after) =~= want);
}

/// Taking an entry out deletes the block under its identifier.
proof fn lemma_taken_out(before: Seq<Block>, after: Seq<Block>, i: int)
    requires
        distinct(before),
        0 <= i < before.len(),
        after == before.remove(i),
    ensures
        distinct(after),
        as_map(after) == without_block(as_map(before), before[i]@.cid),
{
    let gone = before[i]@.cid;
    assert forall|k: int| 0 <= k < after.len() implies #[trigger] after[k] == before[if k < i {
        k
    } else {
        k + 1
    }] by {}
    assert forall|cid: Seq<u8>| holds(after, cid) == (holds(before, cid) && cid != gone) by {
        if holds(after, cid) {
            let k = position(after, cid);
            let b = if k < i {
                k
            } else {
                k + 1
            };
            assert(before[b]@.cid == cid);
        }
        if holds(before, cid) && cid != gone {
            let b = position(before, cid);
            let k = if b < i {
                b
            } else {
                b - 1
            };
            assert(after[k]@.cid == cid);
        }
    }
    let want = without_block(as_map(before), gone);
    assert forall|cid: Seq<u8>| holds(after, cid) implies as_map(after)[cid] == want[cid] by {
        let k = position(after, cid);
        lemma_position(after, k);
        let b = if k < i {
            k
        } else {
            k + 1
        };
        lemma_position(before, b);
    }
    assert(as_map(after) =~= want);
}

/// Distinct entries stand for a map of as many blocks as there are entries.
proof fn lemma_counted(entries: Seq<Block>)
    requires
        distinct(entries),
    ensures
        as_map(entries).dom().finite(),
        as_map(entries).dom().len() == entries.len(),
    decreases entries.len(),
{
    if entries.len() == 0 {
        assert(as_map(entries).dom() =~= Set::<Seq<u8>>::empty());
    } else {
        let before = entries.drop_last();
        let block = entries.last();
        assert(entries =~= before.push(block));
        assert(distinct(before)) by {
            assert forall|i: int, j: int| 0 <= i < j < before.len() implies before[i]@.cid
                != before[j]@.cid by {
                assert(before[i] == entries[i] && before[j] == entries[j]);
            }
        }
        assert(!holds(before, block@.cid)) by {
            assert forall|i: int| 0 <= i < before.len() implies before[i]@.cid != block@.cid by {
                assert(before[i] == entries[i]);
                assert(block == entries[entries.len() - 1]);
            }
        }
        lemma_counted(before);
        lemma_appended(before, entries, block);
        assert(as_map(entries).dom() =~= as_map(before).dom().insert(block@.cid));
    }
}

/// A data store in memory: nothing but its root.
#[derive(Debug)]
pub struct MemDataStore {
    root: PathBuf,
}

impl Clone for MemDataStore {
    fn clone(&self) -> (copy: Self)
        ensures
            copy.root() == self.root(),
    {
        MemDataStore { root: self.root.clone() }
    }
}

impl MemDataStore {
    /// The location the store is rooted at.
    pub fn path(&self) -> (path: &PathBuf)
        ensures
            *path == self.root(),
    {
        &self.root
    }
}

impl DataStore for MemDataStore {
    closed spec fn root(&self) -> PathBuf {
        self.root
    }

    fn new(path: PathBuf) -> (store: Self) {
        MemDataStore { root: path }
    }
}

/// The backend that keeps a repository in memory.
#[derive(Clone, Copy, Debug)]
pub struct MemRepoTypes;

impl RepoTypes for MemRepoTypes {
    type TBlockStore = MemBlockStore;

    type TDataStore = MemDataStore;

    type TRepo = IpfsRepo<MemBlockStore, MemDataStore>;
}

} // verus!
