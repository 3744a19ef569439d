use agent_ctl::device::{AttachedDevice, BlockConfig, DeviceConfig, FileStat};
use agent_ctl::error::{Error, Failure, Operation};
use agent_ctl::inject::{do_handle_storage, InjectAction, InjectEvent, Injection, SUFFIX_LEN};
use agent_ctl::storage::{
    append_storages_and_mounts, CreateContainerRequest, GuestMountDescriptor, StorageDescriptor,
    StorageSession,
};

const BLOCK: FileStat = FileStat { mode: 0o060660, rdev: 0x0707 };
const DIRECTORY: FileStat = FileStat { mode: 0o040755, rdev: 0 };
const REGULAR: FileStat = FileStat { mode: 0o100644, rdev: 0 };

fn volume(driver: &str, source: &str) -> StorageDescriptor {
    StorageDescriptor {
        driver: driver.to_string(),
        driver_options: Vec::new(),
        source: source.to_string(),
        fstype: "ext4".to_string(),
        options: vec!["rw".to_string()],
        mount_point: String::new(),
    }
}

fn attached(device_id: &str, pci_path: &str) -> InjectEvent {
    InjectEvent::Attached(Ok(AttachedDevice::Block {
        device_id: device_id.to_string(),
        pci_path: Some(pci_path.to_string()),
    }))
}

fn stat_action(path: &str) -> InjectAction {
    InjectAction::Stat { path: path.to_string() }
}

/// Handles one block volume up to the answer of the device manager.
fn through_block_volume(
    run: Injection,
    session: &mut StorageSession,
    device_id: &str,
    pci_path: &str,
) -> (Injection, InjectAction) {
    let (run, action) = run.step(session, InjectEvent::Stat(Some(BLOCK)));
    assert_eq!(action, InjectAction::QueryBlockDriver);
    let (run, action) = run.step(session, InjectEvent::BlockDriver("virtio-blk-pci".to_string()));
    assert_eq!(
        action,
        InjectAction::Attach(DeviceConfig::BlockCfg(BlockConfig {
            path_on_host: String::new(),
            is_readonly: false,
            driver_option: "virtio-blk-pci".to_string(),
            major: 7,
            minor: 7,
        }))
    );
    run.step(session, attached(device_id, pci_path))
}

/// Handles one shared volume up to the outcome of the bind mount.
fn through_shared_volume(
    run: Injection,
    session: &mut StorageSession,
    suffix: &str,
    source: &str,
    target: &str,
) -> (Injection, InjectAction) {
    let (run, action) = run.step(session, InjectEvent::Stat(Some(DIRECTORY)));
    assert_eq!(action, InjectAction::DrawSuffix { len: 32 });
    let (run, action) = run.step(session, InjectEvent::Suffix(suffix.to_string()));
    assert_eq!(
        action,
        InjectAction::BindMount { source: source.to_string(), target: target.to_string() }
    );
    run.step(session, InjectEvent::Mounted(Ok(())))
}

#[test]
fn empty_list_is_done_at_once() {
    let (run, action) = do_handle_storage(Vec::new(), "/run/share".to_string());
    assert_eq!(action, InjectAction::Done(Ok(())));
    assert!(run.is_finished());
}

#[test]
fn suffix_has_thirty_two_characters() {
    assert_eq!(SUFFIX_LEN, 32);
}

#[test]
fn block_then_shared_volume_end_to_end() {
    let mut session = StorageSession::new();
    let list = vec![volume("blk", "/dev/loop7"), volume("virtio-fs", "/var/lib/testdata")];
    let (run, action) = do_handle_storage(list, "/run/share".to_string());
    assert_eq!(action, stat_action("/dev/loop7"));
    assert!(!run.is_finished());
    let (run, action) = through_block_volume(run, &mut session, "dev-1", "02/00");
    assert_eq!(action, stat_action("/var/lib/testdata"));
    let suffix = "0123456789abcdef0123456789abcdef";
    let (run, action) = through_shared_volume(
        run,
        &mut session,
        suffix,
        "/var/lib/testdata",
        "/run/share/0123456789abcdef0123456789abcdef-testdata",
    );
    assert_eq!(action, InjectAction::Done(Ok(())));
    assert!(run.is_finished());

    assert_eq!(session.mounts.len(), 2);
    assert_eq!(session.mounts[0].destination, "/tmp/foo/dev-1/test-blk-vol");
    assert_eq!(session.mounts[0].source, "/run/kata-containers/dev-1/test-blk-vol");
    assert_eq!(session.mounts[1].destination, "/tmp/foo");
    assert_eq!(
        session.mounts[1].source,
        "/run/kata-containers/shared/containers/0123456789abcdef0123456789abcdef-testdata"
    );
    assert_eq!(session.storages.len(), 1);
    assert_ne!(session.storages[0].source, "/dev/loop7");
    assert_eq!(session.storages[0].source, "02/00");
    assert_eq!(session.storages[0].mount_point, "/run/kata-containers/dev-1/test-blk-vol");
    assert_eq!(
        session.pending_unmounts,
        vec!["/run/share/0123456789abcdef0123456789abcdef-testdata".to_string()]
    );
}

#[test]
fn regular_file_under_blk_is_rejected() {
    let mut session = StorageSession::new();
    let (run, action) =
        do_handle_storage(vec![volume("blk", "/etc/hostname")], "/run/share".to_string());
    assert_eq!(action, stat_action("/etc/hostname"));
    let (run, action) = run.step(&mut session, InjectEvent::Stat(Some(REGULAR)));
    match action {
        InjectAction::Done(Err(error)) => {
            assert_eq!(error, Error::NotBlockSpecial { source: "/etc/hostname".to_string() });
            assert_eq!(error.message(), "Not a block special file: /etc/hostname");
            assert!(error.message().to_lowercase().contains("not a block special file"));
        }
        other => panic!("unexpected action {:?}", other),
    }
    assert!(run.is_finished());
    assert_eq!(session, StorageSession::new());
}

#[test]
fn source_that_cannot_be_inspected_is_rejected() {
    let mut session = StorageSession::new();
    let (run, _) = do_handle_storage(vec![volume("blk", "/dev/none")], "/run/share".to_string());
    let (_, action) = run.step(&mut session, InjectEvent::Stat(None));
    assert_eq!(
        action,
        InjectAction::Done(Err(Error::NotBlockSpecial { source: "/dev/none".to_string() }))
    );
    let (run, _) =
        do_handle_storage(vec![volume("virtio-fs", "/none")], "/run/share".to_string());
    let (_, action) = run.step(&mut session, InjectEvent::Stat(None));
    assert_eq!(
        action,
        InjectAction::Done(Err(Error::NotDirectory { source: "/none".to_string() }))
    );
    assert_eq!(session, StorageSession::new());
}

#[test]
fn block_device_under_virtio_fs_is_rejected() {
    let mut session = StorageSession::new();
    let (run, _) =
        do_handle_storage(vec![volume("virtio-fs", "/dev/loop7")], "/run/share".to_string());
    let (run, action) = run.step(&mut session, InjectEvent::Stat(Some(BLOCK)));
    assert_eq!(
        action,
        InjectAction::Done(Err(Error::NotDirectory { source: "/dev/loop7".to_string() }))
    );
    assert!(run.is_finished());
    assert_eq!(session, StorageSession::new());
}

#[test]
fn directory_without_base_name_is_rejected() {
    let mut session = StorageSession::new();
    let (run, _) = do_handle_storage(vec![volume("virtio-fs", "/")], "/run/share".to_string());
    let (_, action) = run.step(&mut session, InjectEvent::Stat(Some(DIRECTORY)));
    assert_eq!(action, InjectAction::Done(Err(Error::NoBaseName { source: "/".to_string() })));
    assert_eq!(session, StorageSession::new());
}

#[test]
fn base_name_ignores_trailing_slash() {
    let mut session = StorageSession::new();
    let (run, _) =
        do_handle_storage(vec![volume("virtio-fs", "/srv/data/")], "/run/share".to_string());
    let (_, action) =
        through_shared_volume(run, &mut session, "ff", "/srv/data/", "/run/share/ff-data");
    assert_eq!(action, InjectAction::Done(Ok(())));
}

#[test]
fn unsupported_driver_is_named_and_earlier_volumes_stay() {
    let mut session = StorageSession::new();
    let list = vec![
        volume("blk", "/dev/loop7"),
        volume("nvdimm", "/dev/pmem0"),
        volume("blk", "/dev/loop8"),
    ];
    let (run, _) = do_handle_storage(list, "/run/share".to_string());
    let (run, action) = through_block_volume(run, &mut session, "dev-1", "02/00");
    match action {
        InjectAction::Done(Err(error)) => {
            assert_eq!(error, Error::UnsupportedStorageType { driver: "nvdimm".to_string() });
            assert_eq!(error.message(), "nvdimm storage type is not supported");
        }
        other => panic!("unexpected action {:?}", other),
    }
    assert!(run.is_finished());
    assert_eq!(session.storages.len(), 1);
    assert_eq!(session.storages[0].source, "02/00");
    assert_eq!(session.mounts.len(), 1);
}

#[test]
fn unsupported_driver_at_the_head_fails_at_once() {
    let (run, action) =
        do_handle_storage(vec![volume("9p", "/srv")], "/run/share".to_string());
    assert_eq!(
        action,
        InjectAction::Done(Err(Error::UnsupportedStorageType { driver: "9p".to_string() }))
    );
    assert!(run.is_finished());
}

#[test]
fn same_source_twice_gets_two_host_paths() {
    let mut session = StorageSession::new();
    let list = vec![volume("virtio-fs", "/var/lib/testdata"), volume("virtio-fs", "/var/lib/testdata")];
    let (run, _) = do_handle_storage(list, "/run/share".to_string());
    let (run, _) = through_shared_volume(
        run,
        &mut session,
        "aaaa",
        "/var/lib/testdata",
        "/run/share/aaaa-testdata",
    );
    let (_, action) = through_shared_volume(
        run,
        &mut session,
        "bbbb",
        "/var/lib/testdata",
        "/run/share/bbbb-testdata",
    );
    assert_eq!(action, InjectAction::Done(Ok(())));
    assert_eq!(session.pending_unmounts.len(), 2);
    assert_ne!(session.pending_unmounts[0], session.pending_unmounts[1]);
    assert_ne!(session.mounts[0].source, session.mounts[1].source);
}

#[test]
fn rejected_attach_fails_and_caches_nothing() {
    let mut session = StorageSession::new();
    let (run, _) = do_handle_storage(vec![volume("blk", "/dev/loop7")], "/run/share".to_string());
    let (run, _) = run.step(&mut session, InjectEvent::Stat(Some(BLOCK)));
    let (run, _) = run.step(&mut session, InjectEvent::BlockDriver("virtio-blk-pci".to_string()));
    let (run, action) =
        run.step(&mut session, InjectEvent::Attached(Err("no free slot".to_string())));
    let expected = Error::Outside(Failure {
        operation: Operation::AttachDevice,
        subject: "/dev/loop7".to_string(),
        detail: "no free slot".to_string(),
    });
    assert_eq!(expected.message(), "attach device: /dev/loop7: no free slot");
    assert_eq!(action, InjectAction::Done(Err(expected)));
    assert!(run.is_finished());
    assert_eq!(session, StorageSession::new());
}

#[test]
fn attached_device_without_pci_path_fails() {
    let mut session = StorageSession::new();
    let (run, _) = do_handle_storage(vec![volume("blk", "/dev/loop7")], "/run/share".to_string());
    let (run, _) = run.step(&mut session, InjectEvent::Stat(Some(BLOCK)));
    let (run, _) = run.step(&mut session, InjectEvent::BlockDriver("virtio-blk-pci".to_string()));
    let device = AttachedDevice::Block { device_id: "dev-1".to_string(), pci_path: None };
    let (_, action) = run.step(&mut session, InjectEvent::Attached(Ok(device)));
    match action {
        InjectAction::Done(Err(error)) => {
            assert_eq!(error, Error::MissingPciPath);
            assert_eq!(error.message(), "block driver is blk but no pci path exists");
        }
        other => panic!("unexpected action {:?}", other),
    }
    assert_eq!(session, StorageSession::new());
}

#[test]
fn failed_bind_mount_fails_and_caches_nothing() {
    let mut session = StorageSession::new();
    let (run, _) =
        do_handle_storage(vec![volume("virtio-fs", "/srv/data")], "/run/share".to_string());
    let (run, _) = run.step(&mut session, InjectEvent::Stat(Some(DIRECTORY)));
    let (run, _) = run.step(&mut session, InjectEvent::Suffix("c0ffee".to_string()));
    let (_, action) = run.step(&mut session, InjectEvent::Mounted(Err("EPERM".to_string())));
    assert_eq!(
        action,
        InjectAction::Done(Err(Error::Outside(Failure {
            operation: Operation::BindMount,
            subject: "/run/share/c0ffee-data".to_string(),
            detail: "EPERM".to_string(),
        })))
    );
    assert_eq!(session, StorageSession::new());
}

#[test]
fn event_that_answers_nothing_ends_the_run() {
    let mut session = StorageSession::new();
    let (run, _) = do_handle_storage(vec![volume("blk", "/dev/loop7")], "/run/share".to_string());
    let (run, action) = run.step(&mut session, InjectEvent::Suffix("abcd".to_string()));
    assert_eq!(action, InjectAction::Done(Err(Error::UnexpectedEvent)));
    assert!(run.is_finished());
    let (_, action) = run.step(&mut session, InjectEvent::Stat(Some(BLOCK)));
    assert_eq!(action, InjectAction::Done(Err(Error::UnexpectedEvent)));
    assert_eq!(session, StorageSession::new());
}

#[test]
fn injected_volumes_reach_the_request_in_declared_order() {
    let mut session = StorageSession::new();
    let list = vec![volume("virtio-fs", "/srv/a"), volume("blk", "/dev/loop7")];
    let (run, _) = do_handle_storage(list, "/h".to_string());
    let (run, action) = through_shared_volume(run, &mut session, "s1", "/srv/a", "/h/s1-a");
    assert_eq!(action, stat_action("/dev/loop7"));
    let (_, action) = through_block_volume(run, &mut session, "dev-9", "03/01");
    assert_eq!(action, InjectAction::Done(Ok(())));
    let mut req = CreateContainerRequest { storages: Vec::new(), mounts: Vec::new() };
    append_storages_and_mounts(&session, &mut req);
    assert_eq!(
        req.mounts,
        vec![
            GuestMountDescriptor {
                destination: "/tmp/foo".to_string(),
                fstype: "ext4".to_string(),
                source: "/run/kata-containers/shared/containers/s1-a".to_string(),
                options: vec!["rw".to_string()],
            },
            GuestMountDescriptor {
                destination: "/tmp/foo/dev-9/test-blk-vol".to_string(),
                fstype: "ext4".to_string(),
                source: "/run/kata-containers/dev-9/test-blk-vol".to_string(),
                options: vec!["rw".to_string()],
            },
        ]
    );
    assert_eq!(req.storages.len(), 1);
    assert_eq!(req.storages[0].source, "03/01");
}
