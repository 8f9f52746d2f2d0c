use ipfs::block::{Block, Cid};

#[test]
fn cid_keeps_its_bytes() {
    let cid = Cid::new(vec![0x12, 0x20, 0xff]);
    assert_eq!(cid.to_bytes(), vec![0x12, 0x20, 0xff]);
}

#[test]
fn cids_are_equal_when_their_bytes_are() {
    assert_eq!(Cid::new(vec![1, 2, 3]), Cid::new(vec![1, 2, 3]));
    assert_ne!(Cid::new(vec![1, 2, 3]), Cid::new(vec![1, 2, 4]));
    assert_ne!(Cid::new(vec![1, 2, 3]), Cid::new(vec![1, 2]));
    assert_ne!(Cid::new(vec![]), Cid::new(vec![0]));
    assert_eq!(Cid::new(vec![]), Cid::new(vec![]));
}

#[test]
fn a_cloned_cid_is_equal() {
    let cid = Cid::new(vec![4, 5, 6]);
    assert_eq!(cid.clone(), cid);
}

#[test]
fn block_keeps_payload_and_identifier() {
    let block = Block::new(vec![b'h', b'i'], Cid::new(vec![1]));
    assert_eq!(block.data(), &vec![b'h', b'i']);
    assert_eq!(block.cid(), &Cid::new(vec![1]));
}

#[test]
fn blocks_are_equal_when_identifier_and_payload_are() {
    let block = Block::new(vec![1, 2], Cid::new(vec![9]));
    assert_eq!(block, Block::new(vec![1, 2], Cid::new(vec![9])));
    assert_ne!(block, Block::new(vec![1, 3], Cid::new(vec![9])));
    assert_ne!(block, Block::new(vec![1, 2], Cid::new(vec![8])));
    assert_ne!(block, Block::new(vec![1], Cid::new(vec![9])));
}

#[test]
fn a_cloned_block_is_equal() {
    let block = Block::new(vec![1, 2, 3], Cid::new(vec![7, 7]));
    let copy = block.clone();
    assert_eq!(copy, block);
    assert_eq!(copy.data(), &vec![1, 2, 3]);
    assert_eq!(copy.cid().to_bytes(), vec![7, 7]);
}
