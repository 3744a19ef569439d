//! Host and guest path conventions shared by the storage pipeline.

use vstd::prelude::*;
use vstd::string::*;

verus! {

/// Mount destination inside the container for every injected volume.
pub const CNT_MNT_BASE: &'static str = "/tmp/foo";

/// Directory in the guest under which block volumes are mounted.
pub const GUEST_BASE_PATH: &'static str = "/run/kata-containers";

/// Directory in the guest where the shared file system appears.
pub const GUEST_SHARED_PATH: &'static str = "/run/kata-containers/shared/containers";

/// Name of the root file system directory inside a bundle.
pub const ROOTFS: &'static str = "rootfs";

/// Last path component of every block volume mount point.
pub const TEST_BLK_APPEND: &'static str = "test-blk-vol";

/// The text `first/second/third`.
pub open spec fn slash_joined(first: Seq<char>, second: Seq<char>, third: Seq<char>) -> Seq<char> {
    first + seq!['/'] + second + seq!['/'] + third
}

/// Builds the path of a share on the host: `host_path/id/base`.
pub fn get_host_share_path(host_path: &str, id: &str, base: &str) -> (path: String)
    ensures
        path@ == slash_joined(host_path@, id@, base@),
{
    proof {
        reveal_strlit("/");
    }
    let mut path = host_path.to_owned();
    path.append("/");
    path.append(id);
    path.append("/");
    path.append(base);
    assert("/"@ =~= seq!['/']);
    path
}

/// Builds a path in the guest: `guest_base/id/suffix`.
pub fn generate_path(guest_base: &str, id: &str, suffix: &str) -> (path: String)
    ensures
        path@ == slash_joined(guest_base@, id@, suffix@),
{
    get_host_share_path(guest_base, id, suffix)
}

/// Where the root file system of a container is shared from, where on the
/// host it is mounted for that, and where the guest sees it.
#[derive(Debug, PartialEq, Eq)]
pub struct RootfsShare {
    /// The directory to bind-mount: the root file system in the bundle.
    pub source: String,
    /// The mount point on the host, below the shared directory.
    pub target: String,
    /// The directory of the container in the guest.
    pub guest_path: String,
}

/// The mathematical value of a [`RootfsShare`].
pub struct RootfsShareView {
    pub source: Seq<char>,
    pub target: Seq<char>,
    pub guest_path: Seq<char>,
}

impl View for RootfsShare {
    type V = RootfsShareView;

    open spec fn view(&self) -> RootfsShareView {
        RootfsShareView {
            source: self.source@,
            target: self.target@,
            guest_path: self.guest_path@,
        }
    }
}

/// The share of the root file system of container `id`: `bundle_dir/rootfs`
/// is mounted at `host_path/id/rootfs`, and the guest sees the container
/// below its shared directory, under `id`.
pub open spec fn rootfs_share(bundle_dir: Seq<char>, host_path: Seq<char>, id: Seq<char>) -> RootfsShareView {
    RootfsShareView {
        source: bundle_dir + seq!['/'] + ROOTFS@,
        target: slash_joined(host_path, id, ROOTFS@),
        guest_path: GUEST_SHARED_PATH@ + seq!['/'] + id,
    }
}

/// Works out the share of a container's root file system. The caller
/// bind-mounts `source` at `target`, writable and isolated from the
/// propagation of the host's mounts, and hands `guest_path` to the agent.
pub fn share_rootfs(bundle_dir: &str, host_path: &str, id: &str) -> (share: RootfsShare)
    ensures
        share@ == rootfs_share(bundle_dir@, host_path@, id@),
{
    proof {
        reveal_strlit("/");
        assert("/"@ =~= seq!['/']);
    }
    let target = get_host_share_path(host_path, id, ROOTFS);
    let mut source = bundle_dir.to_owned();
    source.append("/");
    source.append(ROOTFS);
    let mut guest_path = GUEST_SHARED_PATH.to_owned();
    guest_path.append("/");
    guest_path.append(id);
    RootfsShare { source, target, guest_path }
}

} // verus!
