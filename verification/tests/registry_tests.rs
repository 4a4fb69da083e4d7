//! The registry seen through the public surface: exact and ancestor lookup,
//! removal, and the checked-out predicate.

use mega::api::MountInfo;
use mega::Event;
use mega::Mega;
use mega::MegaError;
use mega::MegaSettings;

fn settings() -> MegaSettings {
    MegaSettings {
        mega_url: "http://localhost:8000".to_string(),
        fuse_url: "http://localhost:2725".to_string(),
        mount_point: "/root".to_string(),
        mega_executable: "mega".to_string(),
        fuse_executable: "scorpio".to_string(),
    }
}

fn mount(path: &str, inode: u64) -> MountInfo {
    MountInfo {
        hash: "h".to_string(),
        path: path.to_string(),
        inode,
    }
}

#[test]
fn fresh_registry_has_nothing_checked_out() {
    let mega = Mega::new(settings(), false);
    assert!(!mega.is_path_checkout(&"/a".to_string()));
    assert!(!mega.is_path_checkout(&"/".to_string()));
}

#[test]
fn checked_out_iff_entry_or_ancestor_entry() {
    let mut mega = Mega::new(settings(), false);
    mega.commit_checkout(&mount("/a/b", 7));
    assert!(mega.is_path_checkout(&"/a/b".to_string()));
    assert!(mega.is_path_checkout(&"/a/b/c/d".to_string()));
    assert!(!mega.is_path_checkout(&"/a".to_string()));
    assert!(!mega.is_path_checkout(&"/zz".to_string()));
}

#[test]
fn exact_match_beats_coarser_ancestor() {
    let mut mega = Mega::new(settings(), false);
    mega.commit_checkout(&mount("/a", 1));
    mega.commit_checkout(&mount("/a/b", 7));
    let req = mega.restore_path(&"/a/b".to_string()).unwrap();
    assert_eq!(req.path, Some("/a/b".to_string()));
    assert_eq!(req.inode, Some(7));
}

#[test]
fn ancestor_lookup_resolves_longest_prefix() {
    let mut mega = Mega::new(settings(), false);
    mega.commit_checkout(&mount("/a", 1));
    mega.commit_checkout(&mount("/a/b", 7));
    let deep = mega.restore_path(&"/a/b/c".to_string()).unwrap();
    assert_eq!(deep.inode, Some(7));
    let shallow = mega.restore_path(&"/a/x".to_string()).unwrap();
    assert_eq!(shallow.inode, Some(1));
}

#[test]
fn insert_then_remove_leaves_path_unchecked() {
    let mut mega = Mega::new(settings(), false);
    mega.commit_checkout(&mount("/x/y", 3));
    assert!(mega.is_path_checkout(&"/x/y".to_string()));
    let e = mega.mark_commited(&"/x/y".to_string());
    assert_eq!(e, Event::FuseCheckout(None));
    assert!(!mega.is_path_checkout(&"/x/y".to_string()));
}

#[test]
fn removing_absent_path_is_a_noop() {
    let mut mega = Mega::new(settings(), false);
    mega.commit_checkout(&mount("/keep", 5));
    let e = mega.mark_commited(&"/absent".to_string());
    assert_eq!(e, Event::FuseCheckout(None));
    assert!(mega.is_path_checkout(&"/keep".to_string()));
}

#[test]
fn overwriting_an_entry_updates_its_inode() {
    let mut mega = Mega::new(settings(), false);
    mega.commit_checkout(&mount("/a", 1));
    mega.commit_checkout(&mount("/a", 2));
    let req = mega.restore_path(&"/a".to_string()).unwrap();
    assert_eq!(req.inode, Some(2));
}

#[test]
fn restore_of_uncovered_path_is_not_registered() {
    let mega = Mega::new(settings(), false);
    let err = mega.restore_path(&"/x/y".to_string()).unwrap_err();
    assert_eq!(err, MegaError::NotRegistered);
}
