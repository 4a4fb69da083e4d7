//! Driving checkouts and restores: the toggle plan, the per-path requests,
//! the optimistic marks, and the launch and heartbeat guards.

use mega::api::MountInfo;
use mega::Event;
use mega::Mega;
use mega::MegaSettings;
use mega::MegaSettingsContent;
use mega::TogglePlan;

fn settings() -> MegaSettings {
    MegaSettings {
        mega_url: "http://localhost:8000".to_string(),
        fuse_url: "http://localhost:2725".to_string(),
        mount_point: "/root".to_string(),
        mega_executable: "mega".to_string(),
        fuse_executable: "scorpio".to_string(),
    }
}

fn mount(path: &str, inode: u64) -> MountInfo {
    MountInfo {
        hash: "h".to_string(),
        path: path.to_string(),
        inode,
    }
}

#[test]
fn toggle_does_nothing_while_daemon_is_down() {
    let mut mega = Mega::new(settings(), false);
    mega.commit_checkout(&mount("/a/b", 7));
    let (plan, events) = mega.toggle_fuse();
    assert!(matches!(plan, TogglePlan::Idle));
    assert_eq!(events, vec![]);
    let (_, mounted) = mega.status();
    assert!(!mounted);
}

#[test]
fn toggle_mount_branch_plans_checkouts_and_announces_mounted() {
    let mut mega = Mega::new(settings(), true);
    mega.reconcile_mounts(&vec![mount("/a/b", 7)]);
    let (plan, events) = mega.toggle_fuse();
    match plan {
        TogglePlan::Checkout(paths) => assert_eq!(paths, vec!["/a/b".to_string()]),
        _ => panic!("expected a checkout plan"),
    }
    assert_eq!(events, vec![Event::FuseMounted(Some("/root".to_string()))]);
    let (_, mounted) = mega.status();
    assert!(mounted);
}

#[test]
fn toggle_unmount_branch_restores_and_removes_on_success() {
    let mut mega = Mega::new(settings(), true);
    mega.commit_checkout(&mount("/a/b", 7));
    mega.reconcile_mounts(&vec![]);
    mega.toggle_fuse(); // mount branch: mounted becomes true

    let (plan, events) = mega.toggle_fuse();
    let paths = match plan {
        TogglePlan::Restore(paths) => paths,
        _ => panic!("expected a restore plan"),
    };
    assert_eq!(paths, vec!["/a/b".to_string()]);
    // The unmount branch deliberately publishes no mounted event.
    assert_eq!(events, vec![]);
    let (_, mounted) = mega.status();
    assert!(!mounted);

    // The restore request for the planned path carries the entry's inode.
    let req = mega.restore_path(&paths[0]).unwrap();
    assert_eq!(req.path, Some("/a/b".to_string()));
    assert_eq!(req.inode, Some(7));

    // Once the daemon confirms, the entry goes away and observers hear of it.
    let e = mega.commit_restore(&paths[0]);
    assert_eq!(e, Some(Event::FuseCheckout(None)));
    assert!(!mega.is_path_checkout(&"/a/b".to_string()));
}

#[test]
fn failed_restore_leaves_the_entry_checked_out() {
    let mut mega = Mega::new(settings(), false);
    mega.commit_checkout(&mount("/a/b", 7));
    // The request could be built, but no success was ever committed.
    let _req = mega.restore_path(&"/a/b".to_string()).unwrap();
    assert!(mega.is_path_checkout(&"/a/b".to_string()));
}

#[test]
fn restore_without_entry_fails_without_any_change() {
    let mut mega = Mega::new(settings(), false);
    mega.commit_checkout(&mount("/other", 1));
    assert!(mega.restore_path(&"/x/y".to_string()).is_err());
    // No event, no mutation: the other entry is untouched and "/x/y" stays out.
    assert!(mega.is_path_checkout(&"/other".to_string()));
    assert!(!mega.is_path_checkout(&"/x/y".to_string()));
    assert_eq!(mega.commit_restore(&"/x/y".to_string()), None);
}

#[test]
fn commit_restore_removes_the_covering_entry() {
    let mut mega = Mega::new(settings(), false);
    mega.commit_checkout(&mount("/a", 1));
    let e = mega.commit_restore(&"/a/deep/child".to_string());
    assert_eq!(e, Some(Event::FuseCheckout(None)));
    assert!(!mega.is_path_checkout(&"/a".to_string()));
}

#[test]
fn checkout_request_carries_the_path() {
    let mega = Mega::new(settings(), false);
    let req = mega.checkout_path(&"/a/b".to_string());
    assert_eq!(req.path, "/a/b".to_string());
}

#[test]
fn confirmed_checkout_announces_the_confirmed_path() {
    let mut mega = Mega::new(settings(), false);
    let e = mega.commit_checkout(&mount("/a/b", 7));
    assert_eq!(e, Event::FuseCheckout(Some("/a/b".to_string())));
}

#[test]
fn daemon_is_launched_only_while_not_running() {
    let mut mega = Mega::new(settings(), false);
    assert_eq!(mega.toggle_mount(), Some("scorpio".to_string()));
    mega.reconcile_mounts(&vec![]);
    // Asked twice while running: the process is launched no time at all.
    assert_eq!(mega.toggle_mount(), None);
    assert_eq!(mega.toggle_mount(), None);
}

#[test]
fn heartbeat_loop_starts_at_most_once() {
    let mut mega = Mega::new(settings(), false);
    assert!(mega.heartbeat());
    assert!(!mega.heartbeat());
    assert!(!mega.heartbeat());
}

#[test]
fn mark_checkout_resolves_against_the_mount_point() {
    let mut mega = Mega::new(settings(), true);
    let e = mega.mark_checkout("c".to_string(), 9);
    assert_eq!(e, Some(Event::FuseCheckout(None)));
    assert!(mega.is_path_checkout(&"/root/c".to_string()));
    assert_eq!(mega.restore_path(&"/root/c".to_string()).unwrap().inode, Some(9));
}

#[test]
fn mark_checkout_does_not_double_a_trailing_separator() {
    let mut settings = settings();
    settings.mount_point = "/base/".to_string();
    let mut mega = Mega::new(settings, true);
    mega.mark_checkout("c".to_string(), 4);
    assert!(mega.is_path_checkout(&"/base/c".to_string()));
    assert!(!mega.is_path_checkout(&"/base//c".to_string()));
}

#[test]
fn mark_checkout_without_mount_point_does_nothing() {
    let mut mega = Mega::new(settings(), false);
    let e = mega.mark_checkout("c".to_string(), 9);
    assert_eq!(e, None);
    assert!(!mega.is_path_checkout(&"/root/c".to_string()));
}

#[test]
fn config_update_body_changes_nothing_remotely() {
    let mega = Mega::new(settings(), false);
    let req = mega.set_fuse_config();
    assert_eq!(req.mega_url, None);
    assert_eq!(req.mount_path, None);
    assert_eq!(req.store_path, None);
}

#[test]
fn settings_load_takes_every_field() {
    let s = MegaSettings::load(MegaSettingsContent {
        mega_url: "a".to_string(),
        fuse_url: "b".to_string(),
        mount_point: "c".to_string(),
        mega_executable: "d".to_string(),
        fuse_executable: "e".to_string(),
    });
    assert_eq!(s.mega_url, "a");
    assert_eq!(s.fuse_url, "b");
    assert_eq!(s.mount_point, "c");
    assert_eq!(s.mega_executable, "d");
    assert_eq!(s.fuse_executable, "e");
}
