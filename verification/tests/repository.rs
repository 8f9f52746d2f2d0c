use ipfs::block::{Block, Cid};
use ipfs::repo::lifecycle::RepoState;
use ipfs::repo::mem::{MemBlockStore, MemDataStore, MemRepoTypes};
use ipfs::repo::{create_repo, BlockStore, DataStore, IpfsRepo, Repo, RepoOptions};
use ipfs::IpfsOptions;
use std::path::PathBuf;

type MemRepo = IpfsRepo<MemBlockStore, MemDataStore>;

fn options_at(path: &str) -> RepoOptions<MemRepoTypes> {
    RepoOptions::from(&IpfsOptions { ipfs_path: PathBuf::from(path) })
}

fn repo_at(path: &str) -> MemRepo {
    create_repo(options_at(path))
}

fn hello() -> Block {
    Block::new("hello".as_bytes().to_vec(), Cid::new(vec![0x68, 0x65]))
}

#[test]
fn options_take_the_path_of_the_node() {
    let options = options_at("/home/node/.ipfs");
    assert_eq!(options.path(), &PathBuf::from("/home/node/.ipfs"));
}

#[test]
fn cloned_options_name_the_same_root() {
    let options = options_at("/srv/a");
    assert_eq!(options.clone().path(), &PathBuf::from("/srv/a"));
    let node = IpfsOptions { ipfs_path: PathBuf::from("/srv/b") };
    assert_eq!(node.clone().ipfs_path, PathBuf::from("/srv/b"));
}

#[test]
fn create_repo_roots_both_stores_at_the_same_place() {
    let repo = repo_at("/data/repo");
    assert_eq!(repo.blocks().path(), &PathBuf::from("/data/repo"));
    assert_eq!(repo.data().path(), &PathBuf::from("/data/repo"));
    assert_eq!(repo.blocks().path(), repo.data().path());
}

#[test]
fn create_repo_gives_an_uninitialized_repo() {
    let repo = repo_at("/fresh");
    assert_eq!(repo.state(), RepoState::Uninitialized);
    assert!(!repo.is_initialized());
}

#[test]
fn fresh_repo_from_init_to_close() {
    let mut repo = repo_at("/fresh");
    assert!(!repo.is_initialized());
    repo.init();
    assert!(repo.is_initialized());
    repo.open();
    assert_eq!(repo.state(), RepoState::Open);
    let id = repo.blocks_mut().put(hello());
    assert_eq!(id, Cid::new(vec![0x68, 0x65]));
    let found = repo.blocks().get(&id);
    assert_eq!(found.unwrap().data(), &"hello".as_bytes().to_vec());
    repo.blocks_mut().remove(&id);
    assert_eq!(repo.blocks().get(&id), None);
    repo.close();
    assert_eq!(repo.state(), RepoState::Closed);
}

#[test]
fn repo_hands_out_the_stores_it_was_given() {
    let mut blocks = MemBlockStore::new(PathBuf::from("/one"));
    let id = blocks.put(hello());
    let data = MemDataStore::new(PathBuf::from("/two"));
    let repo: MemRepo = Repo::new(blocks, data);
    assert_eq!(repo.blocks().path(), &PathBuf::from("/one"));
    assert_eq!(repo.data().path(), &PathBuf::from("/two"));
    assert_eq!(repo.blocks().get(&id), Some(hello()));
}

#[test]
fn lifecycle_calls_leave_the_stores_alone() {
    let mut repo = repo_at("/kept");
    let id = repo.blocks_mut().put(hello());
    repo.init();
    repo.open();
    repo.close();
    repo.open();
    repo.init();
    repo.close();
    assert_eq!(repo.blocks().get(&id), Some(hello()));
    assert_eq!(repo.blocks().path(), &PathBuf::from("/kept"));
    assert_eq!(repo.data().path(), &PathBuf::from("/kept"));
}

#[test]
fn init_twice_keeps_stored_blocks() {
    let mut repo = repo_at("/twice");
    repo.init();
    let id = repo.blocks_mut().put(hello());
    repo.init();
    assert!(repo.is_initialized());
    assert_eq!(repo.state(), RepoState::Uninitialized);
    assert_eq!(repo.blocks().get(&id), Some(hello()));
}

#[test]
fn close_on_a_never_opened_repo() {
    let mut repo = repo_at("/never");
    repo.close();
    assert_eq!(repo.state(), RepoState::Uninitialized);
    assert!(!repo.is_initialized());
}

#[test]
fn close_twice_on_a_repo() {
    let mut repo = repo_at("/closing");
    repo.open();
    repo.close();
    repo.close();
    assert_eq!(repo.state(), RepoState::Closed);
}

#[test]
fn a_closed_repo_can_be_reopened() {
    let mut repo = repo_at("/again");
    repo.open();
    repo.close();
    repo.open();
    assert_eq!(repo.state(), RepoState::Open);
}

#[test]
fn open_without_init_is_tolerated() {
    let mut repo = repo_at("/bare");
    repo.open();
    assert_eq!(repo.state(), RepoState::Open);
    assert!(!repo.is_initialized());
}

#[test]
fn accessors_work_in_every_state() {
    let mut repo = repo_at("/any");
    let id = repo.blocks_mut().put(hello());
    assert!(repo.blocks().contains(&id));
    repo.open();
    assert!(repo.blocks().contains(&id));
    repo.close();
    assert!(repo.blocks().contains(&id));
    assert_eq!(repo.data().path(), &PathBuf::from("/any"));
}

#[test]
fn data_store_can_be_replaced_through_the_repo() {
    let mut repo = repo_at("/first");
    *repo.data_mut() = MemDataStore::new(PathBuf::from("/second"));
    assert_eq!(repo.data().path(), &PathBuf::from("/second"));
    assert_eq!(repo.blocks().path(), &PathBuf::from("/first"));
}

#[test]
fn a_cloned_repo_is_a_copy() {
    let mut repo = repo_at("/original");
    repo.init();
    repo.open();
    let id = repo.blocks_mut().put(hello());
    let mut copy = repo.clone();
    assert_eq!(copy.state(), RepoState::Open);
    assert!(copy.is_initialized());
    assert_eq!(copy.blocks().get(&id), Some(hello()));
    copy.blocks_mut().remove(&id);
    copy.close();
    assert!(repo.blocks().contains(&id));
    assert_eq!(repo.state(), RepoState::Open);
}
