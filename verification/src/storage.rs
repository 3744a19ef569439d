//! Storage descriptors, the guest mounts derived from them, and the session
//! that caches both until a container is created.

use crate::device::{AttachedDevice, AttachedDeviceView};
use crate::error::{Error, ErrorView};
use crate::paths::{slash_joined, generate_path, CNT_MNT_BASE, GUEST_BASE_PATH, GUEST_SHARED_PATH, TEST_BLK_APPEND};
use crate::text::{clone_strings, same_text};
use vstd::prelude::*;
use vstd::string::*;

verus! {

/// Driver name of a block volume.
pub const DRIVER_BLK: &'static str = "blk";

/// Driver name of a volume shared through virtio-fs.
pub const VIRTIO_FS: &'static str = "virtio-fs";

/// Tag under which the guest mounts the shared file system.
pub const MOUNT_GUEST_TAG: &'static str = "kataShared";

/// How the pipeline handles a storage descriptor.
#[derive(Clone, Copy, Debug, PartialEq, Eq, Structural)]
pub enum DriverKind {
    /// A block special file on the host, attached as a block device.
    Block,
    /// A directory on the host, shared with the guest.
    SharedDirectory,
}

impl DriverKind {
    /// The kind that a driver name stands for, if it stands for one.
    pub open spec fn spec_from_driver(driver: Seq<char>) -> Option<DriverKind> {
        if driver == DRIVER_BLK@ {
            Some(DriverKind::Block)
        } else if driver == VIRTIO_FS@ {
            Some(DriverKind::SharedDirectory)
        } else {
            None
        }
    }

    /// The kind that a driver name stands for, if it stands for one.
    pub fn from_driver(driver: &str) -> (kind: Option<DriverKind>)
        ensures
            kind == Self::spec_from_driver(driver@),
    {
        if same_text(driver, DRIVER_BLK) {
            Some(DriverKind::Block)
        } else if same_text(driver, VIRTIO_FS) {
            Some(DriverKind::SharedDirectory)
        } else {
            None
        }
    }
}

/// One test volume, as declared and as handed to the agent.
#[derive(Debug, PartialEq, Eq)]
pub struct StorageDescriptor {
    pub driver: String,
    pub driver_options: Vec<String>,
    pub source: String,
    pub fstype: String,
    pub options: Vec<String>,
    pub mount_point: String,
}

/// The mathematical value of a [`StorageDescriptor`].
pub struct StorageDescriptorView {
    pub driver: Seq<char>,
    pub driver_options: Seq<Seq<char>>,
    pub source: Seq<char>,
    pub fstype: Seq<char>,
    pub options: Seq<Seq<char>>,
    pub mount_point: Seq<char>,
}

impl View for StorageDescriptor {
    type V = StorageDescriptorView;

    open spec fn view(&self) -> StorageDescriptorView {
        StorageDescriptorView {
            driver: self.driver@,
            driver_options: self.driver_options.deep_view(),
            source: self.source@,
            fstype: self.fstype@,
            options: self.options.deep_view(),
            mount_point: self.mount_point@,
        }
    }
}

impl DeepView for StorageDescriptor {
    type V = StorageDescriptorView;

    open spec fn deep_view(&self) -> StorageDescriptorView {
        self@
    }
}

impl Clone for StorageDescriptor {
    fn clone(&self) -> (copy: Self)
        ensures
            copy@ == self@,
    {
        StorageDescriptor {
            driver: self.driver.clone(),
            driver_options: clone_strings(&self.driver_options),
            source: self.source.clone(),
            fstype: self.fstype.clone(),
            options: clone_strings(&self.options),
            mount_point: self.mount_point.clone(),
        }
    }
}

/// A mount inside the container, derived from one storage descriptor.
#[derive(Debug, PartialEq, Eq)]
pub struct GuestMountDescriptor {
    pub destination: String,
    pub fstype: String,
    pub source: String,
    pub options: Vec<String>,
}

/// The mathematical value of a [`GuestMountDescriptor`].
pub struct GuestMountDescriptorView {
    pub destination: Seq<char>,
    pub fstype: Seq<char>,
    pub source: Seq<char>,
    pub options: Seq<Seq<char>>,
}

impl View for GuestMountDescriptor {
    type V = GuestMountDescriptorView;

    open spec fn view(&self) -> GuestMountDescriptorView {
        GuestMountDescriptorView {
            destination: self.destination@,
            fstype: self.fstype@,
            source: self.source@,
            options: self.options.deep_view(),
        }
    }
}

impl DeepView for GuestMountDescriptor {
    type V = GuestMountDescriptorView;

    open spec fn deep_view(&self) -> GuestMountDescriptorView {
        self@
    }
}

impl Clone for GuestMountDescriptor {
    fn clone(&self) -> (copy: Self)
        ensures
            copy@ == self@,
    {
        GuestMountDescriptor {
            destination: self.destination.clone(),
            fstype: self.fstype.clone(),
            source: self.source.clone(),
            options: clone_strings(&self.options),
        }
    }
}

/// The descriptor of the shared file system that holds every container's
/// root: the driver is virtio-fs, the source the guest tag, the mount point
/// the shared directory of the guest.
pub open spec fn virtiofs_storage() -> StorageDescriptorView {
    StorageDescriptorView {
        driver: VIRTIO_FS@,
        driver_options: Seq::empty(),
        source: MOUNT_GUEST_TAG@,
        fstype: "virtiofs"@,
        options: seq!["nodev"@],
        mount_point: GUEST_SHARED_PATH@,
    }
}

/// Builds the descriptor of the shared file system that holds every
/// container's root.
pub fn get_virtiofs_storage() -> (storage: StorageDescriptor)
    ensures
        storage@ == virtiofs_storage(),
{
    let mut options: Vec<String> = Vec::new();
    options.push("nodev".to_owned());
    let driver_options: Vec<String> = Vec::new();
    assert(options.deep_view() =~= seq!["nodev"@]);
    assert(driver_options.deep_view() =~= Seq::<Seq<char>>::empty());
    StorageDescriptor {
        driver: VIRTIO_FS.to_owned(),
        driver_options,
        source: MOUNT_GUEST_TAG.to_owned(),
        fstype: "virtiofs".to_owned(),
        options,
        mount_point: GUEST_SHARED_PATH.to_owned(),
    }
}

/// The part of a container-creation request that the pipeline fills in.
#[derive(Debug, PartialEq, Eq)]
pub struct CreateContainerRequest {
    pub storages: Vec<StorageDescriptor>,
    pub mounts: Vec<GuestMountDescriptor>,
}

/// The mathematical value of a [`CreateContainerRequest`].
pub struct CreateContainerRequestView {
    pub storages: Seq<StorageDescriptorView>,
    pub mounts: Seq<GuestMountDescriptorView>,
}

impl View for CreateContainerRequest {
    type V = CreateContainerRequestView;

    open spec fn view(&self) -> CreateContainerRequestView {
        CreateContainerRequestView {
            storages: self.storages.deep_view(),
            mounts: self.mounts.deep_view(),
        }
    }
}

/// The caches of one run: the storages that were attached, the guest mounts
/// derived from the declared volumes in the order of their declaration, and
/// the host paths that wait to be unmounted.
#[derive(Debug, PartialEq, Eq)]
pub struct StorageSession {
    pub storages: Vec<StorageDescriptor>,
    pub mounts: Vec<GuestMountDescriptor>,
    pub pending_unmounts: Vec<String>,
}

/// The mathematical value of a [`StorageSession`].
pub struct StorageSessionView {
    pub storages: Seq<StorageDescriptorView>,
    pub mounts: Seq<GuestMountDescriptorView>,
    pub pending_unmounts: Seq<Seq<char>>,
}

impl StorageSessionView {
    /// The session with nothing cached.
    pub open spec fn empty() -> StorageSessionView {
        StorageSessionView {
            storages: Seq::empty(),
            mounts: Seq::empty(),
            pending_unmounts: Seq::empty(),
        }
    }
}

impl View for StorageSession {
    type V = StorageSessionView;

    open spec fn view(&self) -> StorageSessionView {
        StorageSessionView {
            storages: self.storages.deep_view(),
            mounts: self.mounts.deep_view(),
            pending_unmounts: self.pending_unmounts.deep_view(),
        }
    }
}

/// The storage descriptor and the guest mount that a block volume gives once
/// its device is attached. The device must be a block device with a path for
/// the guest: that path becomes the source, and the device's identifier names
/// the mount point in the guest and the destination in the container.
pub open spec fn block_volume_records(
    vol: StorageDescriptorView,
    device: AttachedDeviceView,
) -> Result<(StorageDescriptorView, GuestMountDescriptorView), ErrorView> {
    match device {
        AttachedDeviceView::Block { device_id, pci_path: Some(pci_path) } => {
            let guest_path = slash_joined(GUEST_BASE_PATH@, device_id, TEST_BLK_APPEND@);
            Ok(
                (
                    StorageDescriptorView { source: pci_path, mount_point: guest_path, ..vol },
                    GuestMountDescriptorView {
                        destination: slash_joined(CNT_MNT_BASE@, device_id, TEST_BLK_APPEND@),
                        fstype: vol.fstype,
                        source: guest_path,
                        options: vol.options,
                    },
                ),
            )
        },
        _ => Err(ErrorView::MissingPciPath),
    }
}

/// The name under which a shared volume appears below the share directories:
/// the random suffix, a hyphen and the base name of the source.
pub open spec fn share_name(suffix: Seq<char>, base_name: Seq<char>) -> Seq<char> {
    suffix + seq!['-'] + base_name
}

/// The path of a shared volume on the host, below `host_base`.
pub open spec fn host_share_path(
    host_base: Seq<char>,
    suffix: Seq<char>,
    base_name: Seq<char>,
) -> Seq<char> {
    host_base + seq!['/'] + share_name(suffix, base_name)
}

/// The path at which the guest sees a shared volume.
pub open spec fn guest_share_path(suffix: Seq<char>, base_name: Seq<char>) -> Seq<char> {
    GUEST_SHARED_PATH@ + seq!['/'] + share_name(suffix, base_name)
}

/// The guest mount that a shared volume gives.
pub open spec fn shared_volume_mount(
    vol: StorageDescriptorView,
    guest_path: Seq<char>,
) -> GuestMountDescriptorView {
    GuestMountDescriptorView {
        destination: CNT_MNT_BASE@,
        fstype: vol.fstype,
        source: guest_path,
        options: vol.options,
    }
}

/// Two shares of one source lie at different paths, on the host and in the
/// guest, whenever different suffixes were drawn for them.
pub proof fn distinct_suffixes_give_distinct_shares(
    host_base: Seq<char>,
    first_suffix: Seq<char>,
    second_suffix: Seq<char>,
    base_name: Seq<char>,
)
    requires
        first_suffix != second_suffix,
    ensures
        host_share_path(host_base, first_suffix, base_name) != host_share_path(
            host_base,
            second_suffix,
            base_name,
        ),
        guest_share_path(first_suffix, base_name) != guest_share_path(second_suffix, base_name),
{
    lemma_share_path_holds_suffix(host_base, first_suffix, base_name);
    lemma_share_path_holds_suffix(host_base, second_suffix, base_name);
    lemma_share_path_holds_suffix(GUEST_SHARED_PATH@, first_suffix, base_name);
    lemma_share_path_holds_suffix(GUEST_SHARED_PATH@, second_suffix, base_name);
}

/// Two shares lie at different paths on the host whenever suffixes of one
/// length that differ were drawn for them, whatever their sources are.
pub proof fn distinct_suffixes_of_one_length_give_distinct_shares(
    host_base: Seq<char>,
    first_suffix: Seq<char>,
    first_name: Seq<char>,
    second_suffix: Seq<char>,
    second_name: Seq<char>,
)
    requires
        first_suffix.len() == second_suffix.len(),
        first_suffix != second_suffix,
    ensures
        host_share_path(host_base, first_suffix, first_name) != host_share_path(
            host_base,
            second_suffix,
            second_name,
        ),
{
    lemma_share_path_holds_suffix(host_base, first_suffix, first_name);
    lemma_share_path_holds_suffix(host_base, second_suffix, second_name);
}

proof fn lemma_share_path_holds_suffix(base: Seq<char>, suffix: Seq<char>, base_name: Seq<char>)
    ensures
        (base + seq!['/'] + share_name(suffix, base_name)).len() == base.len() + suffix.len()
            + base_name.len() + 2,
        (base + seq!['/'] + share_name(suffix, base_name)).subrange(
            base.len() + 1 as int,
            base.len() + 1 + suffix.len() as int,
        ) == suffix,
{
    let path = base + seq!['/'] + share_name(suffix, base_name);
    assert(path.subrange(base.len() + 1 as int, base.len() + 1 + suffix.len() as int) =~= suffix);
}

/// The request after the session's caches were copied into it.
pub open spec fn drained_into(
    req: CreateContainerRequestView,
    session: StorageSessionView,
) -> CreateContainerRequestView {
    CreateContainerRequestView {
        storages: req.storages + session.storages,
        mounts: req.mounts + session.mounts,
    }
}

/// Builds `base/suffix-base_name`.
fn share_path(base: &str, suffix: &str, base_name: &str) -> (path: String)
    ensures
        path@ == base@ + seq!['/'] + share_name(suffix@, base_name@),
{
    proof {
        reveal_strlit("/");
        reveal_strlit("-");
        assert("/"@ =~= seq!['/']);
        assert("-"@ =~= seq!['-']);
    }
    let mut path = base.to_owned();
    path.append("/");
    path.append(suffix);
    path.append("-");
    path.append(base_name);
    assert(path@ =~= base@ + seq!['/'] + share_name(suffix@, base_name@));
    path
}

/// Builds the path of a shared volume on the host and the path at which the
/// guest sees it.
pub fn shared_volume_paths(host_base: &str, suffix: &str, base_name: &str) -> (paths: (
    String,
    String,
))
    ensures
        paths.0@ == host_share_path(host_base@, suffix@, base_name@),
        paths.1@ == guest_share_path(suffix@, base_name@),
{
    (share_path(host_base, suffix, base_name), share_path(GUEST_SHARED_PATH, suffix, base_name))
}

impl StorageSession {
    /// A session with empty caches.
    pub fn new() -> (session: StorageSession)
        ensures
            session@ == StorageSessionView::empty(),
    {
        let session = StorageSession {
            storages: Vec::new(),
            mounts: Vec::new(),
            pending_unmounts: Vec::new(),
        };
        assert(session@.storages =~= Seq::empty());
        assert(session@.mounts =~= Seq::empty());
        assert(session@.pending_unmounts =~= Seq::empty());
        session
    }

    /// Caches a block volume whose device was attached: the descriptor with
    /// its source and mount point rewritten, and the guest mount derived from
    /// it. Without a path for the guest nothing is cached.
    pub fn record_block_volume(&mut self, vol: StorageDescriptor, device: AttachedDevice) -> (res:
        Result<(), Error>)
        ensures
            match block_volume_records(vol@, device@) {
                Ok((storage, mount)) => res is Ok && final(self)@ == (StorageSessionView {
                    storages: old(self)@.storages.push(storage),
                    mounts: old(self)@.mounts.push(mount),
                    ..old(self)@
                }),
                Err(error) => res matches Err(e) && e@ == error && final(self)@ == old(self)@,
            },
    {
        match device {
            AttachedDevice::Block { device_id, pci_path: Some(pci_path) } => {
                let ghost before = self@;
                let mut vol = vol;
                let guest_path = generate_path(GUEST_BASE_PATH, device_id.as_str(), TEST_BLK_APPEND);
                let mount = GuestMountDescriptor {
                    destination: generate_path(CNT_MNT_BASE, device_id.as_str(), TEST_BLK_APPEND),
                    fstype: vol.fstype.clone(),
                    source: guest_path.clone(),
                    options: clone_strings(&vol.options),
                };
                vol.source = pci_path;
                vol.mount_point = guest_path;
                self.storages.push(vol);
                self.mounts.push(mount);
                assert(self@.storages =~= before.storages.push(vol@));
                assert(self@.mounts =~= before.mounts.push(mount@));
                Ok(())
            },
            _ => Err(Error::MissingPciPath),
        }
    }

    /// Caches a shared volume that was bind-mounted at `host_path`: the guest
    /// mount derived from it, and the host path that waits to be unmounted.
    pub fn record_shared_volume(
        &mut self,
        vol: &StorageDescriptor,
        host_path: String,
        guest_path: String,
    )
        ensures
            final(self)@ == (StorageSessionView {
                mounts: old(self)@.mounts.push(shared_volume_mount(vol@, guest_path@)),
                pending_unmounts: old(self)@.pending_unmounts.push(host_path@),
                ..old(self)@
            }),
    {
        let ghost before = self@;
        let mount = GuestMountDescriptor {
            destination: CNT_MNT_BASE.to_owned(),
            fstype: vol.fstype.clone(),
            source: guest_path,
            options: clone_strings(&vol.options),
        };
        self.mounts.push(mount);
        self.pending_unmounts.push(host_path);
        assert(self@.mounts =~= before.mounts.push(mount@));
        assert(self@.pending_unmounts =~= before.pending_unmounts.push(host_path@));
    }
}

/// Copies every cached storage and every cached guest mount into `req`, in
/// the order of the caches, behind what `req` already holds. The session is
/// left as it is.
pub fn append_storages_and_mounts(session: &StorageSession, req: &mut CreateContainerRequest)
    ensures
        final(req)@ == drained_into(old(req)@, session@),
{
    let ghost before = req@;
    let mut i: usize = 0;
    while i < session.storages.len()
        invariant
            i <= session.storages.len(),
            req@.mounts == before.mounts,
            req@.storages == before.storages + session@.storages.take(i as int),
        decreases session.storages.len() - i,
    {
        let ghost earlier = req@.storages;
        let storage = session.storages[i].clone();
        req.storages.push(storage);
        assert(req@.storages =~= earlier.push(storage@));
        assert(req@.storages =~= before.storages + session@.storages.take(i + 1));
        assert(req@.mounts =~= before.mounts);
        i += 1;
    }
    assert(session@.storages.take(i as int) =~= session@.storages);
    let ghost filled = req@.storages;
    let mut j: usize = 0;
    while j < session.mounts.len()
        invariant
            j <= session.mounts.len(),
            req@.storages == filled,
            req@.mounts == before.mounts + session@.mounts.take(j as int),
        decreases session.mounts.len() - j,
    {
        let ghost earlier = req@.mounts;
        let mount = session.mounts[j].clone();
        req.mounts.push(mount);
        assert(req@.mounts =~= earlier.push(mount@));
        assert(req@.mounts =~= before.mounts + session@.mounts.take(j + 1));
        assert(req@.storages =~= filled);
        j += 1;
    }
    assert(session@.mounts.take(j as int) =~= session@.mounts);
}

/// Draining reads the caches and never changes them: a second drain of the
/// same session into the same request appends the same records once more.
pub proof fn drain_twice_appends_twice(
    req: CreateContainerRequestView,
    session: StorageSessionView,
)
    ensures
        drained_into(drained_into(req, session), session).storages == req.storages
            + session.storages + session.storages,
        drained_into(drained_into(req, session), session).mounts == req.mounts + session.mounts
            + session.mounts,
{
}

} // verus!
