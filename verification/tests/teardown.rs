use agent_ctl::error::{Error, Failure, Operation};
use agent_ctl::storage::{StorageDescriptor, StorageSession};
use agent_ctl::teardown::{unmount_shares, unshare_rootfs, Teardown, TeardownAction, TeardownEvent};

fn unmount(path: &str) -> TeardownAction {
    TeardownAction::Unmount { path: path.to_string() }
}

fn probe(path: &str) -> TeardownAction {
    TeardownAction::Probe { path: path.to_string() }
}

fn remove(path: &str) -> TeardownAction {
    TeardownAction::RemoveDir { path: path.to_string() }
}

#[test]
fn teardown_of_nothing_is_done_at_once() {
    let (run, action) = Teardown::begin(Vec::new());
    assert_eq!(action, TeardownAction::Done(Ok(())));
    assert!(run.is_finished());
}

#[test]
fn each_path_is_unmounted_probed_and_removed() {
    let (run, action) = Teardown::begin(vec!["/h/a".to_string(), "/h/b".to_string()]);
    assert_eq!(action, unmount("/h/a"));
    let (run, action) = run.step(TeardownEvent::Unmounted(Ok(())));
    assert_eq!(action, probe("/h/a"));
    let (run, action) = run.step(TeardownEvent::Probed(true));
    assert_eq!(action, remove("/h/a"));
    let (run, action) = run.step(TeardownEvent::Removed(Ok(())));
    assert_eq!(action, unmount("/h/b"));
    let (run, action) = run.step(TeardownEvent::Unmounted(Ok(())));
    assert_eq!(action, probe("/h/b"));
    assert!(!run.is_finished());
    let (run, action) = run.step(TeardownEvent::Probed(false));
    assert_eq!(action, TeardownAction::Done(Ok(())));
    assert!(run.is_finished());
}

#[test]
fn failures_are_collected_and_later_paths_still_taken_up() {
    let paths = vec!["/h/a".to_string(), "/h/b".to_string(), "/h/c".to_string()];
    let (run, action) = Teardown::begin(paths);
    assert_eq!(action, unmount("/h/a"));
    let (run, action) = run.step(TeardownEvent::Unmounted(Err("EBUSY".to_string())));
    assert_eq!(action, unmount("/h/b"));
    let (run, action) = run.step(TeardownEvent::Unmounted(Ok(())));
    assert_eq!(action, probe("/h/b"));
    let (run, action) = run.step(TeardownEvent::Probed(true));
    assert_eq!(action, remove("/h/b"));
    let (run, action) = run.step(TeardownEvent::Removed(Err("ENOTEMPTY".to_string())));
    assert_eq!(action, unmount("/h/c"));
    let (run, action) = run.step(TeardownEvent::Unmounted(Ok(())));
    assert_eq!(action, probe("/h/c"));
    let (run, action) = run.step(TeardownEvent::Probed(false));
    let expected = Error::Teardown {
        failures: vec![
            Failure {
                operation: Operation::Unmount,
                subject: "/h/a".to_string(),
                detail: "EBUSY".to_string(),
            },
            Failure {
                operation: Operation::RemoveDir,
                subject: "/h/b".to_string(),
                detail: "ENOTEMPTY".to_string(),
            },
        ],
    };
    assert_eq!(
        expected.message(),
        "failed to unmount shared mounts on host; unmount: /h/a: EBUSY; remove directory: /h/b: ENOTEMPTY"
    );
    assert_eq!(action, TeardownAction::Done(Err(expected)));
    assert!(run.is_finished());
}

#[test]
fn teardown_rejects_event_that_answers_nothing() {
    let (run, _) = Teardown::begin(vec!["/h/a".to_string()]);
    let (run, action) = run.step(TeardownEvent::Probed(true));
    assert_eq!(action, TeardownAction::Done(Err(Error::UnexpectedEvent)));
    assert!(run.is_finished());
    let (_, action) = run.step(TeardownEvent::Unmounted(Ok(())));
    assert_eq!(action, TeardownAction::Done(Err(Error::UnexpectedEvent)));
}

#[test]
fn unmount_shares_takes_the_pending_paths_out_of_the_session() {
    let vol = StorageDescriptor {
        driver: "virtio-fs".to_string(),
        driver_options: Vec::new(),
        source: "/srv/a".to_string(),
        fstype: "bind".to_string(),
        options: Vec::new(),
        mount_point: String::new(),
    };
    let mut session = StorageSession::new();
    session.record_shared_volume(&vol, "/h/1-a".to_string(), "/g/1-a".to_string());
    session.record_shared_volume(&vol, "/h/2-a".to_string(), "/g/2-a".to_string());
    let (run, action) = unmount_shares(&mut session);
    assert_eq!(action, unmount("/h/1-a"));
    assert!(session.pending_unmounts.is_empty());
    assert_eq!(session.mounts.len(), 2);
    let (run, _) = run.step(TeardownEvent::Unmounted(Ok(())));
    let (run, action) = run.step(TeardownEvent::Probed(false));
    assert_eq!(action, unmount("/h/2-a"));
    let (run, _) = run.step(TeardownEvent::Unmounted(Ok(())));
    let (_, action) = run.step(TeardownEvent::Probed(false));
    assert_eq!(action, TeardownAction::Done(Ok(())));
    let (_, action) = unmount_shares(&mut session);
    assert_eq!(action, TeardownAction::Done(Ok(())));
}

#[test]
fn unshare_rootfs_tears_down_the_rootfs_share() {
    let (run, action) = unshare_rootfs("/run/kata/shared", "c1");
    assert_eq!(action, unmount("/run/kata/shared/c1/rootfs"));
    let (run, action) = run.step(TeardownEvent::Unmounted(Ok(())));
    assert_eq!(action, probe("/run/kata/shared/c1/rootfs"));
    let (run, action) = run.step(TeardownEvent::Probed(true));
    assert_eq!(action, remove("/run/kata/shared/c1/rootfs"));
    let (_, action) = run.step(TeardownEvent::Removed(Ok(())));
    assert_eq!(action, TeardownAction::Done(Ok(())));
}

#[test]
fn unshare_rootfs_reports_a_failed_unmount() {
    let (run, _) = unshare_rootfs("/run/kata/shared", "c1");
    let (_, action) = run.step(TeardownEvent::Unmounted(Err("EINVAL".to_string())));
    assert_eq!(
        action,
        TeardownAction::Done(Err(Error::Teardown {
            failures: vec![Failure {
                operation: Operation::Unmount,
                subject: "/run/kata/shared/c1/rootfs".to_string(),
                detail: "EINVAL".to_string(),
            }],
        }))
    );
}
