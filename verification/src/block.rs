//! Content identifiers and blocks.
//!
//! Both are produced by whoever hashes the content. The stores only keep,
//! compare and hand back whole values, so an identifier is modelled by its
//! bytes and a block by an identifier together with a payload.
use vstd::prelude::*;

verus! {

/// Tells whether two byte vectors hold the same bytes.
fn bytes_eq(a: &Vec<u8>, b: &Vec<u8>) -> (same: bool)
    ensures
        same == (a@ == b@),
{
    if a.len() != b.len() {
        return false;
    }
    let mut i: usize = 0;
    while i < a.len()
        invariant
            a.len() == b.len(),
            i <= a.len(),
            forall|k: int| 0 <= k < i ==> a@[k] == b@[k],
        decreases a.len() - i,
    {
        if a[i] != b[i] {
            return false;
        }
        i += 1;
    }
    assert(a@ =~= b@);
    true
}

/// The name of a block: an opaque key, equal to another exactly when the
/// bytes are the same.
#[derive(Debug, Eq, Hash)]
pub struct Cid {
    bytes: Vec<u8>,
}

impl View for Cid {
    type V = Seq<u8>;

    closed spec fn view(&self) -> Seq<u8> {
        self.bytes@
    }
}

impl Cid {
    /// Wraps the bytes of an identifier.
    pub fn new(bytes: Vec<u8>) -> (cid: Cid)
        ensures
            cid@ == bytes@,
    {
        Cid { bytes }
    }

    /// The bytes of the identifier.
    pub fn to_bytes(&self) -> (bytes: Vec<u8>)
        ensures
            bytes@ == self@,
    {
        self.bytes.clone()
    }
}

impl Clone for Cid {
    fn clone(&self) -> (copy: Cid)
        ensures
            copy@ == self@,
    {
        Cid { bytes: self.bytes.clone() }
    }
}

impl PartialEq for Cid {
    fn eq(&self, other: &Cid) -> (same: bool) {
        bytes_eq(&self.bytes, &other.bytes)
    }
}

impl vstd::std_specs::cmp::PartialEqSpecImpl for Cid {
    open spec fn obeys_eq_spec() -> bool {
        true
    }

    open spec fn eq_spec(&self, other: &Cid) -> bool {
        self@ == other@
    }
}

/// An immutable payload together with the identifier it was given when it
/// was built.
#[derive(Debug, Eq)]
pub struct Block {
    data: Vec<u8>,
    cid: Cid,
}

/// What a block is in contracts: the bytes of its identifier and its payload.
pub struct BlockView {
    pub cid: Seq<u8>,
    pub data: Seq<u8>,
}

impl View for Block {
    type V = BlockView;

    closed spec fn view(&self) -> BlockView {
        BlockView { cid: self.cid@, data: self.data@ }
    }
}

impl Block {
    /// Pairs a payload with its identifier.
    pub fn new(data: Vec<u8>, cid: Cid) -> (block: Block)
        ensures
            block@.cid == cid@,
            block@.data == data@,
    {
        Block { data, cid }
    }

    /// The identifier of the block.
    pub fn cid(&self) -> (cid: &Cid)
        ensures
            cid@ == self@.cid,
    {
        &self.cid
    }

    /// The payload of the block.
    pub fn data(&self) -> (data: &Vec<u8>)
        ensures
            data@ == self@.data,
    {
        &self.data
    }
}

impl Clone for Block {
    fn clone(&self) -> (copy: Block)
        ensures
            copy@ == self@,
    {
        Block { data: self.data.clone(), cid: self.cid.clone() }
    }
}

impl PartialEq for Block {
    fn eq(&self, other: &Block) -> (same: bool) {
        self.cid == other.cid && bytes_eq(&self.data, &other.data)
    }
}

impl vstd::std_specs::cmp::PartialEqSpecImpl for Block {
    open spec fn obeys_eq_spec() -> bool {
        true
    }

    open spec fn eq_spec(&self, other: &Block) -> bool {
        self@ == other@
    }
}

} // verus!
