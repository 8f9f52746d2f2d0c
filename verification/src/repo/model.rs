//! What a block store holds, as a map, and the laws of its operations.
//!
//! Every contract of the block store is written over the functions of this
//! file, so what is proved here holds of every store that meets the contract.
use crate::block::BlockView;
use vstd::prelude::*;

verus! {

/// The blocks a store holds: the bytes of each identifier, with the payload
/// kept under it.
pub type BlockMap = Map<Seq<u8>, Seq<u8>>;

/// Whether a block is kept under `cid`.
pub open spec fn stored(blocks: BlockMap, cid: Seq<u8>) -> bool {
    blocks.contains_key(cid)
}

/// The block kept under `cid`, if there is one.
pub open spec fn lookup(blocks: BlockMap, cid: Seq<u8>) -> Option<BlockView> {
    if blocks.contains_key(cid) {
        Some(BlockView { cid, data: blocks[cid] })
    } else {
        None
    }
}

/// The blocks after `block` was stored: its payload stands under its
/// identifier, whatever stood there before, and nothing else changed.
pub open spec fn with_block(blocks: BlockMap, block: BlockView) -> BlockMap {
    blocks.insert(block.cid, block.data)
}

/// The blocks after the one under `cid`, if any, was deleted.
pub open spec fn without_block(blocks: BlockMap, cid: Seq<u8>) -> BlockMap {
    blocks.remove(cid)
}

/// One change to a store.
pub enum StoreOp {
    Put(BlockView),
    Remove(Seq<u8>),
}

/// The blocks after one change.
pub open spec fn apply(blocks: BlockMap, op: StoreOp) -> BlockMap {
    match op {
        StoreOp::Put(block) => with_block(blocks, block),
        StoreOp::Remove(cid) => without_block(blocks, cid),
    }
}

/// The blocks after a run of changes, the first of `ops` applied first.
pub open spec fn apply_all(blocks: BlockMap, ops: Seq<StoreOp>) -> BlockMap
    decreases ops.len(),
{
    if ops.len() == 0 {
        blocks
    } else {
        apply(apply_all(blocks, ops.drop_last()), ops.last())
    }
}

/// Whether a change stores a block under `cid`.
pub open spec fn puts(op: StoreOp, cid: Seq<u8>) -> bool {
    match op {
        StoreOp::Put(block) => block.cid == cid,
        StoreOp::Remove(_) => false,
    }
}

/// No change in `ops` stores a block under `cid`.
pub open spec fn never_put(ops: Seq<StoreOp>, cid: Seq<u8>) -> bool {
    forall|i: int| 0 <= i < ops.len() ==> !puts(#[trigger] ops[i], cid)
}

/// Storing a block a second time changes nothing, and the block is visible
/// after the first time as after the second.
pub proof fn lemma_put_is_idempotent(blocks: BlockMap, block: BlockView)
    ensures
        with_block(with_block(blocks, block), block) == with_block(blocks, block),
        stored(with_block(blocks, block), block.cid),
        stored(with_block(with_block(blocks, block), block), block.cid),
{
    assert(with_block(with_block(blocks, block), block) =~= with_block(blocks, block));
}

/// A block that was just stored is read back whole.
pub proof fn lemma_get_after_put(blocks: BlockMap, block: BlockView)
    ensures
        lookup(with_block(blocks, block), block.cid) == Some(block),
{
}

/// Storing a block leaves every other identifier as it was.
pub proof fn lemma_put_keeps_others(blocks: BlockMap, block: BlockView, cid: Seq<u8>)
    requires
        cid != block.cid,
    ensures
        lookup(with_block(blocks, block), cid) == lookup(blocks, cid),
{
}

/// Deleting leaves every other identifier as it was.
pub proof fn lemma_remove_keeps_others(blocks: BlockMap, gone: Seq<u8>, cid: Seq<u8>)
    requires
        cid != gone,
    ensures
        lookup(without_block(blocks, gone), cid) == lookup(blocks, cid),
{
}

/// An identifier under which nothing was ever stored is absent: from a store
/// that does not hold it, no run of changes that never puts it makes it
/// appear.
pub proof fn lemma_never_stored_is_absent(blocks: BlockMap, ops: Seq<StoreOp>, cid: Seq<u8>)
    requires
        !stored(blocks, cid),
        never_put(ops, cid),
    ensures
        !stored(apply_all(blocks, ops), cid),
        lookup(apply_all(blocks, ops), cid) is None,
    decreases ops.len(),
{
    if ops.len() > 0 {
        let before = ops.drop_last();
        assert forall|i: int| 0 <= i < before.len() implies !puts(#[trigger] before[i], cid) by {
            assert(before[i] == ops[i]);
        }
        lemma_never_stored_is_absent(blocks, before, cid);
        assert(!puts(ops[ops.len() - 1], cid));
    }
}

/// Deleting a second time changes nothing.
pub proof fn lemma_remove_is_idempotent(blocks: BlockMap, cid: Seq<u8>)
    ensures
        without_block(without_block(blocks, cid), cid) == without_block(blocks, cid),
{
    assert(without_block(without_block(blocks, cid), cid) =~= without_block(blocks, cid));
}

/// Deleting an identifier that is absent changes nothing.
pub proof fn lemma_remove_absent_is_noop(blocks: BlockMap, cid: Seq<u8>)
    requires
        !stored(blocks, cid),
    ensures
        without_block(blocks, cid) == blocks,
{
    assert(without_block(blocks, cid) =~= blocks);
}

/// A block that was stored and then deleted is no longer visible.
pub proof fn lemma_remove_after_put(blocks: BlockMap, block: BlockView)
    ensures
        !stored(without_block(with_block(blocks, block), block.cid), block.cid),
        lookup(without_block(with_block(blocks, block), block.cid), block.cid) is None,
{
}

} // verus!
