//! The repository: a block store and a data store under one root, with a
//! lifecycle.
//!
//! The three traits are the contracts a storage backend has to meet. A store
//! is changed through `&mut`, so that a contract can say what a call does to
//! it; a backend that shares one store among several owners puts its handle
//! around a value that meets these contracts.
use crate::block::{Block, Cid};
use crate::options::IpfsOptions;
use crate::repo::lifecycle::{Lifecycle, LifecycleEvent, RepoState};
use crate::repo::model::{lookup, stored, with_block, without_block, BlockMap};
use std::marker::PhantomData;
use std::path::PathBuf;
use vstd::prelude::*;

pub mod lifecycle;
pub mod mem;
pub mod model;

verus! {

/// The backend a repository is built from: which block store, which data
/// store, and which repository composes them.
pub trait RepoTypes {
    type TBlockStore: BlockStore;

    type TDataStore: DataStore;

    type TRepo: Repo<Self::TBlockStore, Self::TDataStore>;
}

/// Where a repository of the backend `TRepoTypes` is rooted.
#[derive(Debug)]
pub struct RepoOptions<TRepoTypes: RepoTypes> {
    _marker: PhantomData<TRepoTypes>,
    path: PathBuf,
}

impl<TRepoTypes: RepoTypes> RepoOptions<TRepoTypes> {
    /// The root location.
    pub closed spec fn root(&self) -> PathBuf {
        self.path
    }

    /// The root location.
    pub fn path(&self) -> (path: &PathBuf)
        ensures
            *path == self.root(),
    {
        &self.path
    }
}

impl<TRepoTypes: RepoTypes> Clone for RepoOptions<TRepoTypes> {
    fn clone(&self) -> (copy: Self)
        ensures
            copy.root() == self.root(),
    {
        RepoOptions { _marker: PhantomData, path: self.path.clone() }
    }
}

impl<TRepoTypes: RepoTypes> From<&IpfsOptions> for RepoOptions<TRepoTypes> {
    fn from(options: &IpfsOptions) -> (repo_options: Self)
        ensures
            repo_options.root() == options.ipfs_path,
    {
        RepoOptions { _marker: PhantomData, path: options.ipfs_path.clone() }
    }
}

impl<TRepoTypes: RepoTypes> vstd::std_specs::convert::FromSpecImpl<&IpfsOptions> for RepoOptions<TRepoTypes> {
    open spec fn obeys_from_spec() -> bool {
        true
    }

    closed spec fn from_spec(options: &IpfsOptions) -> Self {
        RepoOptions { _marker: PhantomData, path: options.ipfs_path }
    }
}

/// Builds the repository of a backend: a block store and a data store, both
/// rooted at the location the options name, composed and not yet opened.
pub fn create_repo<TRepoTypes: RepoTypes>(options: RepoOptions<TRepoTypes>) -> (repo:
    TRepoTypes::TRepo)
    ensures
        repo.block_store().wf(),
        repo.block_store().root() == options.root(),
        repo.data_store().root() == options.root(),
        repo.lifecycle().state == RepoState::Uninitialized,
        exists|block_store: TRepoTypes::TBlockStore, data_store: TRepoTypes::TDataStore|
            {
                &&& call_ensures(TRepoTypes::TBlockStore::new, (options.root(),), block_store)
                &&& call_ensures(TRepoTypes::TDataStore::new, (options.root(),), data_store)
                &&& #[trigger] call_ensures(TRepoTypes::TRepo::new, (block_store, data_store), repo)
            },
{
    let block_store = TRepoTypes::TBlockStore::new(options.path.clone());
    let data_store = TRepoTypes::TDataStore::new(options.path);
    TRepoTypes::TRepo::new(block_store, data_store)
}

/// The contract of a block store: the one place where the blocks of a
/// repository are kept, each under its content identifier.
pub trait BlockStore: Clone + Send {
    /// The location the store is rooted at.
    spec fn root(&self) -> PathBuf;

    /// The blocks the store holds.
    spec fn blocks(&self) -> BlockMap;

    /// What the store keeps true of itself between calls.
    spec fn wf(&self) -> bool;

    /// A store rooted at `path`.
    fn new(path: PathBuf) -> (store: Self)
        ensures
            store.wf(),
            store.root() == path,
    ;

    /// Whether a block is kept under `cid`.
    fn contains(&self, cid: &Cid) -> (found: bool)
        requires
            self.wf(),
        ensures
            found == stored(self.blocks(), cid@),
    ;

    /// The block kept under `cid`, byte for byte as it was stored; `None`
    /// where there is none.
    fn get(&self, cid: &Cid) -> (block: Option<Block>)
        requires
            self.wf(),
        ensures
            block.is_some() == stored(self.blocks(), cid@),
            match block {
                Some(found) => Some(found@) == lookup(self.blocks(), cid@),
                None => lookup(self.blocks(), cid@) is None,
            },
    ;

    /// Stores `block` under its identifier and hands the identifier back.
    fn put(&mut self, block: Block) -> (cid: Cid)
        requires
            old(self).wf(),
        ensures
            final(self).wf(),
            cid@ == block@.cid,
            final(self).blocks() == with_block(old(self).blocks(), block@),
            final(self).root() == old(self).root(),
    ;

    /// Deletes the block kept under `cid`, if there is one.
    fn remove(&mut self, cid: &Cid)
        requires
            old(self).wf(),
        ensures
            final(self).wf(),
            final(self).blocks() == without_block(old(self).blocks(), cid@),
            final(self).root() == old(self).root(),
    ;
}

/// The contract of a data store: auxiliary state beside the blocks, of which
/// only the root is fixed here.
pub trait DataStore: Clone + Send {
    /// The location the store is rooted at.
    spec fn root(&self) -> PathBuf;

    /// A store rooted at `path`.
    fn new(path: PathBuf) -> (store: Self)
        ensures
            store.root() == path,
    ;
}

/// The contract of a repository over a block store and a data store.
pub trait Repo<BS: BlockStore, DS: DataStore>: Clone + Send {
    /// The block store of the repository.
    spec fn block_store(&self) -> BS;

    /// The data store of the repository.
    spec fn data_store(&self) -> DS;

    /// Where the repository stands in its lifecycle.
    spec fn lifecycle(&self) -> Lifecycle;

    /// Composes a repository from its two stores. It is not open yet.
    fn new(block_store: BS, data_store: DS) -> (repo: Self)
        ensures
            repo.block_store() == block_store,
            repo.data_store() == data_store,
            repo.lifecycle().state == RepoState::Uninitialized,
    ;

    /// Prepares the backing storage. The stores and the state stay as they
    /// are.
    fn init(&mut self)
        ensures
            final(self).lifecycle() == old(self).lifecycle().after_init(),
            final(self).block_store() == old(self).block_store(),
            final(self).data_store() == old(self).data_store(),
    ;

    /// Makes the repository usable, from whatever state. Opening does not
    /// ask that the storage was prepared: whether it was stays as it is.
    fn open(&mut self)
        ensures
            final(self).lifecycle() == old(self).lifecycle().after_open(),
            final(self).block_store() == old(self).block_store(),
            final(self).data_store() == old(self).data_store(),
    ;

    /// Releases what `open` acquired. On a repository that is not open
    /// this changes nothing.
    fn close(&mut self)
        ensures
            final(self).lifecycle() == old(self).lifecycle().after_close(),
            final(self).block_store() == old(self).block_store(),
            final(self).data_store() == old(self).data_store(),
    ;

    /// Whether the backing storage has been prepared.
    fn is_initialized(&self) -> (prepared: bool)
        ensures
            prepared == self.lifecycle().prepared,
    ;

    /// The block store, to read from, in whatever state the repository is.
    fn blocks(&self) -> (store: &BS)
        ensures
            *store == self.block_store(),
    ;

    /// The data store, to read from, in whatever state the repository is.
    fn data(&self) -> (store: &DS)
        ensures
            *store == self.data_store(),
    ;

    /// The block store, to store and delete blocks in. What the caller
    /// leaves in it is the block store of the repository from then on.
    fn blocks_mut(&mut self) -> (store: &mut BS)
        ensures
            *store == old(self).block_store(),
            final(self).block_store() == *final(store),
            final(self).data_store() == old(self).data_store(),
            final(self).lifecycle() == old(self).lifecycle(),
    ;

    /// The data store, to change. What the caller leaves in it is the data
    /// store of the repository from then on.
    fn data_mut(&mut self) -> (store: &mut DS)
        ensures
            *store == old(self).data_store(),
            final(self).data_store() == *final(store),
            final(self).block_store() == old(self).block_store(),
            final(self).lifecycle() == old(self).lifecycle(),
    ;
}

/// The repository that composes any block store with any data store and
/// keeps the lifecycle itself: its storage counts as prepared once `init`
/// was called on it.
#[derive(Debug)]
pub struct IpfsRepo<BS: BlockStore, DS: DataStore> {
    block_store: BS,
    data_store: DS,
    lifecycle: Lifecycle,
}

impl<BS: BlockStore, DS: DataStore> IpfsRepo<BS, DS> {
    /// The state the repository is in.
    pub fn state(&self) -> (state: RepoState)
        ensures
            state == self.lifecycle().state,
    {
        self.lifecycle.state()
    }

    /// The repository after one lifecycle call: the lifecycle has made its
    /// step, the stores are the same.
    pub closed spec fn after(self, event: LifecycleEvent) -> Self {
        IpfsRepo {
            block_store: self.block_store,
            data_store: self.data_store,
            lifecycle: self.lifecycle.after(event),
        }
    }

    /// The repository after a run of lifecycle calls, the first of `events`
    /// made first.
    pub open spec fn after_all(self, events: Seq<LifecycleEvent>) -> Self
        decreases events.len(),
    {
        if events.len() == 0 {
            self
        } else {
            self.after_all(events.drop_last()).after(events.last())
        }
    }
}

impl<BS: BlockStore, DS: DataStore> Clone for IpfsRepo<BS, DS> {
    fn clone(&self) -> (copy: Self)
        ensures
            cloned(self.block_store(), copy.block_store()),
            cloned(self.data_store(), copy.data_store()),
            copy.lifecycle() == self.lifecycle(),
    {
        IpfsRepo {
            block_store: self.block_store.clone(),
            data_store: self.data_store.clone(),
            lifecycle: self.lifecycle,
        }
    }
}

impl<BS: BlockStore, DS: DataStore> Repo<BS, DS> for IpfsRepo<BS, DS> {
    closed spec fn block_store(&self) -> BS {
        self.block_store
    }

    closed spec fn data_store(&self) -> DS {
        self.data_store
    }

    closed spec fn lifecycle(&self) -> Lifecycle {
        self.lifecycle
    }

    fn new(block_store: BS, data_store: DS) -> (repo: Self)
        ensures
            repo.lifecycle() == Lifecycle::fresh(),
    {
        IpfsRepo { block_store, data_store, lifecycle: Lifecycle::new() }
    }

    fn init(&mut self)
        ensures
            *final(self) == old(self).after(LifecycleEvent::Init),
    {
        self.lifecycle.init();
    }

    fn open(&mut self)
        ensures
            *final(self) == old(self).after(LifecycleEvent::Open),
    {
        self.lifecycle.open();
    }

    fn close(&mut self)
        ensures
            *final(self) == old(self).after(LifecycleEvent::Close),
    {
        self.lifecycle.close();
    }

    fn is_initialized(&self) -> (prepared: bool) {
        self.lifecycle.is_initialized()
    }

    fn blocks(&self) -> (store: &BS) {
        &self.block_store
    }

    fn data(&self) -> (store: &DS) {
        &self.data_store
    }

    fn blocks_mut(&mut self) -> (store: &mut BS) {
        &mut self.block_store
    }

    fn data_mut(&mut self) -> (store: &mut DS) {
        &mut self.data_store
    }
}

/// Whatever lifecycle calls are made on a repository, in whatever order, its
/// stores are the ones it was composed from, with every block they held, and
/// its lifecycle is the one those calls lead to.
pub proof fn lemma_lifecycle_keeps_stores<BS: BlockStore, DS: DataStore>(
    repo: IpfsRepo<BS, DS>,
    events: Seq<LifecycleEvent>,
)
    ensures
        repo.after_all(events).block_store() == repo.block_store(),
        repo.after_all(events).data_store() == repo.data_store(),
        repo.after_all(events).lifecycle() == repo.lifecycle().after_all(events),
    decreases events.len(),
{
    if events.len() > 0 {
        lemma_lifecycle_keeps_stores(repo, events.drop_last());
    }
}

} // verus!
