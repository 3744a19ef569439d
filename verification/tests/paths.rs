use agent_ctl::paths::{
    generate_path, get_host_share_path, share_rootfs, RootfsShare, CNT_MNT_BASE, GUEST_BASE_PATH,
    GUEST_SHARED_PATH, ROOTFS, TEST_BLK_APPEND,
};

#[test]
fn host_share_path_joins_with_slashes() {
    assert_eq!(
        get_host_share_path("/run/kata/shared", "c1", "rootfs"),
        "/run/kata/shared/c1/rootfs"
    );
}

#[test]
fn host_share_path_keeps_empty_parts() {
    assert_eq!(get_host_share_path("", "", ""), "//");
    assert_eq!(get_host_share_path("/a", "", "b"), "/a//b");
}

#[test]
fn generate_path_joins_with_slashes() {
    assert_eq!(
        generate_path(GUEST_BASE_PATH, "blk-7", TEST_BLK_APPEND),
        "/run/kata-containers/blk-7/test-blk-vol"
    );
    assert_eq!(
        generate_path(CNT_MNT_BASE, "blk-7", TEST_BLK_APPEND),
        "/tmp/foo/blk-7/test-blk-vol"
    );
}

#[test]
fn path_conventions_are_fixed() {
    assert_eq!(CNT_MNT_BASE, "/tmp/foo");
    assert_eq!(GUEST_BASE_PATH, "/run/kata-containers");
    assert_eq!(GUEST_SHARED_PATH, "/run/kata-containers/shared/containers");
    assert_eq!(ROOTFS, "rootfs");
    assert_eq!(TEST_BLK_APPEND, "test-blk-vol");
}

#[test]
fn share_rootfs_names_source_target_and_guest_path() {
    assert_eq!(
        share_rootfs("/bundles/c1", "/run/kata/shared", "c1"),
        RootfsShare {
            source: "/bundles/c1/rootfs".to_string(),
            target: "/run/kata/shared/c1/rootfs".to_string(),
            guest_path: "/run/kata-containers/shared/containers/c1".to_string(),
        }
    );
}
