//! The storage injection pipeline: classifies each declared volume, asks for
//! the outside work it needs, and caches what the agent will be told.
//!
//! The pipeline itself touches neither the host nor the hypervisor. It hands
//! out one [`InjectAction`] at a time; the caller performs it and reports
//! what happened as an [`InjectEvent`].

use crate::device::{
    AttachedDevice, AttachedDeviceView, BlockConfig, BlockConfigView, DeviceConfig,
    DeviceConfigView, FileStat,
};
use crate::error::{outcome_view, Error, ErrorView, Failure, FailureView, Operation};
use crate::paths::{slash_joined, CNT_MNT_BASE, GUEST_BASE_PATH, TEST_BLK_APPEND};
use crate::storage::{
    block_volume_records, guest_share_path, host_share_path, shared_volume_mount,
    shared_volume_paths, DriverKind, GuestMountDescriptorView, StorageDescriptor,
    StorageDescriptorView, StorageSession, StorageSessionView,
};
use vstd::prelude::*;
use vstd::string::*;

verus! {

/// Number of characters of the random suffix in the name of a share.
pub const SUFFIX_LEN: u32 = 32;

/// What `std::path::Path::file_name` returns for a path: its final
/// component, if it has one.
pub uninterp spec fn path_file_name(path: Seq<char>) -> Option<Seq<char>>;

/// Calls `std::path::Path::file_name` and hands the final component back as a
/// string. The result depends on the characters of `path` alone.
#[verifier::external_body]
fn file_name_of(path: &str) -> (name: Option<String>)
    ensures
        name.deep_view() == path_file_name(path@),
{
    match std::path::Path::new(path).file_name() {
        Some(name) => Some(name.to_string_lossy().into_owned()),
        None => None,
    }
}

/// What the pipeline waits for.
#[derive(Clone, Copy, Debug, PartialEq, Eq, Structural)]
pub enum InjectPhase {
    /// The host's report on the source of the current volume.
    AwaitStat,
    /// The block driver that the device manager negotiated.
    AwaitBlockDriver,
    /// The device manager's answer to an attach request.
    AwaitAttach,
    /// A fresh random suffix.
    AwaitSuffix,
    /// The outcome of a bind mount.
    AwaitMount,
    /// Nothing: the pipeline has ended.
    Finished,
}

/// What the caller reports back to the pipeline.
#[derive(Debug, PartialEq, Eq)]
pub enum InjectEvent {
    /// What the host says of the inspected path; `None` if it could not be
    /// inspected.
    Stat(Option<FileStat>),
    /// The negotiated block driver.
    BlockDriver(String),
    /// The attached device, or what the device manager reported instead.
    Attached(Result<AttachedDevice, String>),
    /// The random suffix that was drawn.
    Suffix(String),
    /// Whether the bind mount succeeded, or what the host reported instead.
    Mounted(Result<(), String>),
}

/// The mathematical value of an [`InjectEvent`].
pub enum InjectEventView {
    Stat(Option<FileStat>),
    BlockDriver(Seq<char>),
    Attached(Result<AttachedDeviceView, Seq<char>>),
    Suffix(Seq<char>),
    Mounted(Result<(), Seq<char>>),
}

/// The mathematical value of what an attach request came to.
pub open spec fn attached_view(attached: Result<AttachedDevice, String>) -> Result<
    AttachedDeviceView,
    Seq<char>,
> {
    match attached {
        Ok(device) => Ok(device@),
        Err(detail) => Err(detail@),
    }
}

impl View for InjectEvent {
    type V = InjectEventView;

    open spec fn view(&self) -> InjectEventView {
        match self {
            InjectEvent::Stat(stat) => InjectEventView::Stat(*stat),
            InjectEvent::BlockDriver(driver) => InjectEventView::BlockDriver(driver@),
            InjectEvent::Attached(Ok(device)) => InjectEventView::Attached(Ok(device@)),
            InjectEvent::Attached(Err(detail)) => InjectEventView::Attached(Err(detail@)),
            InjectEvent::Suffix(suffix) => InjectEventView::Suffix(suffix@),
            InjectEvent::Mounted(Ok(_)) => InjectEventView::Mounted(Ok(())),
            InjectEvent::Mounted(Err(detail)) => InjectEventView::Mounted(Err(detail@)),
        }
    }
}

/// What the pipeline asks the caller to do next.
#[derive(Debug, PartialEq, Eq)]
pub enum InjectAction {
    /// Inspect the file at `path`.
    Stat { path: String },
    /// Ask the device manager for the negotiated block driver.
    QueryBlockDriver,
    /// Attach the device and wait until the device manager has answered.
    Attach(DeviceConfig),
    /// Draw a random suffix of `len` hexadecimal characters.
    DrawSuffix { len: u32 },
    /// Bind-mount `source` at `target`, read-only, recursively and isolated
    /// from the propagation of the host's mounts.
    BindMount { source: String, target: String },
    /// Stop: every volume was handled, or the pipeline failed.
    Done(Result<(), Error>),
}

/// The mathematical value of an [`InjectAction`].
pub enum InjectActionView {
    Stat { path: Seq<char> },
    QueryBlockDriver,
    Attach(DeviceConfigView),
    DrawSuffix { len: u32 },
    BindMount { source: Seq<char>, target: Seq<char> },
    Done(Result<(), ErrorView>),
}

impl View for InjectAction {
    type V = InjectActionView;

    open spec fn view(&self) -> InjectActionView {
        match self {
            InjectAction::Stat { path } => InjectActionView::Stat { path: path@ },
            InjectAction::QueryBlockDriver => InjectActionView::QueryBlockDriver,
            InjectAction::Attach(config) => InjectActionView::Attach(config@),
            InjectAction::DrawSuffix { len } => InjectActionView::DrawSuffix { len: *len },
            InjectAction::BindMount { source, target } => InjectActionView::BindMount {
                source: source@,
                target: target@,
            },
            InjectAction::Done(Ok(_)) => InjectActionView::Done(Ok(())),
            InjectAction::Done(Err(error)) => InjectActionView::Done(Err(error@)),
        }
    }
}

/// One run of the pipeline over a list of declared volumes.
#[derive(Debug, PartialEq, Eq)]
pub struct Injection {
    descriptors: Vec<StorageDescriptor>,
    host_share_base: String,
    index: usize,
    phase: InjectPhase,
    stat: FileStat,
    base_name: String,
    host_path: String,
    guest_path: String,
}

/// The mathematical value of an [`Injection`].
pub struct InjectionView {
    /// The declared volumes, in the order of their declaration.
    pub descriptors: Seq<StorageDescriptorView>,
    /// The directory on the host below which shares are mounted.
    pub host_share_base: Seq<char>,
    /// The position of the volume that is being handled.
    pub index: nat,
    pub phase: InjectPhase,
    /// The host's report on the current block volume.
    pub stat: FileStat,
    /// The base name of the current shared volume.
    pub base_name: Seq<char>,
    /// Where the current shared volume is mounted on the host.
    pub host_path: Seq<char>,
    /// Where the guest sees the current shared volume.
    pub guest_path: Seq<char>,
}

impl View for Injection {
    type V = InjectionView;

    closed spec fn view(&self) -> InjectionView {
        InjectionView {
            descriptors: self.descriptors.deep_view(),
            host_share_base: self.host_share_base@,
            index: self.index as nat,
            phase: self.phase,
            stat: self.stat,
            base_name: self.base_name@,
            host_path: self.host_path@,
            guest_path: self.guest_path@,
        }
    }
}

impl InjectionView {
    /// The run before its first volume.
    pub open spec fn initial(
        descriptors: Seq<StorageDescriptorView>,
        host_share_base: Seq<char>,
    ) -> InjectionView {
        InjectionView {
            descriptors,
            host_share_base,
            index: 0,
            phase: InjectPhase::Finished,
            stat: FileStat { mode: 0, rdev: 0 },
            base_name: Seq::empty(),
            host_path: Seq::empty(),
            guest_path: Seq::empty(),
        }
    }

    /// The run once it has ended.
    pub open spec fn finished(self) -> InjectionView {
        InjectionView { phase: InjectPhase::Finished, ..self }
    }

    /// The volume that is being handled.
    pub open spec fn current(self) -> StorageDescriptorView {
        self.descriptors[self.index as int]
    }

    /// Turns to the volume at `self.index`: asks for the host's report on its
    /// source, ends the run with success behind the last volume, and ends it
    /// with an error at a driver that the pipeline does not handle.
    pub open spec fn select(self) -> (InjectionView, InjectActionView) {
        if self.index >= self.descriptors.len() {
            (self.finished(), InjectActionView::Done(Ok(())))
        } else if DriverKind::spec_from_driver(self.current().driver) is None {
            (
                self.finished(),
                InjectActionView::Done(
                    Err(ErrorView::UnsupportedStorageType { driver: self.current().driver }),
                ),
            )
        } else {
            (
                InjectionView { phase: InjectPhase::AwaitStat, ..self },
                InjectActionView::Stat { path: self.current().source },
            )
        }
    }

    /// Ends the run with `error`.
    pub open spec fn fail(self, session: StorageSessionView, error: ErrorView) -> (
        InjectionView,
        StorageSessionView,
        InjectActionView,
    ) {
        (self.finished(), session, InjectActionView::Done(Err(error)))
    }

    /// Goes on behind the current volume, whose records `session` holds.
    pub open spec fn proceed(self, session: StorageSessionView) -> (
        InjectionView,
        StorageSessionView,
        InjectActionView,
    ) {
        let next = InjectionView { index: self.index + 1, ..self }.select();
        (next.0, session, next.1)
    }

    /// The answer to the host's report on the source of a block volume.
    pub open spec fn after_block_stat(self, session: StorageSessionView, stat: Option<FileStat>) -> (
        InjectionView,
        StorageSessionView,
        InjectActionView,
    ) {
        match stat {
            Some(stat) if stat.spec_is_block_special() => (
                InjectionView { phase: InjectPhase::AwaitBlockDriver, stat, ..self },
                session,
                InjectActionView::QueryBlockDriver,
            ),
            _ => self.fail(session, ErrorView::NotBlockSpecial { source: self.current().source }),
        }
    }

    /// The answer to the host's report on the source of a shared volume.
    pub open spec fn after_shared_stat(self, session: StorageSessionView, stat: Option<FileStat>) -> (
        InjectionView,
        StorageSessionView,
        InjectActionView,
    ) {
        match stat {
            Some(stat) if stat.spec_is_directory() => match path_file_name(self.current().source) {
                Some(base_name) => (
                    InjectionView { phase: InjectPhase::AwaitSuffix, base_name, ..self },
                    session,
                    InjectActionView::DrawSuffix { len: SUFFIX_LEN },
                ),
                None => self.fail(session, ErrorView::NoBaseName { source: self.current().source }),
            },
            _ => self.fail(session, ErrorView::NotDirectory { source: self.current().source }),
        }
    }

    /// The answer to the device manager's report on an attach request.
    pub open spec fn after_attach(
        self,
        session: StorageSessionView,
        attached: Result<AttachedDeviceView, Seq<char>>,
    ) -> (InjectionView, StorageSessionView, InjectActionView) {
        match attached {
            Ok(device) => match block_volume_records(self.current(), device) {
                Ok((storage, mount)) => self.proceed(
                    StorageSessionView {
                        storages: session.storages.push(storage),
                        mounts: session.mounts.push(mount),
                        ..session
                    },
                ),
                Err(error) => self.fail(session, error),
            },
            Err(detail) => self.fail(
                session,
                ErrorView::Outside(
                    FailureView {
                        operation: Operation::AttachDevice,
                        subject: self.current().source,
                        detail,
                    },
                ),
            ),
        }
    }

    /// The answer to the outcome of a bind mount.
    pub open spec fn after_mount(self, session: StorageSessionView, mounted: Result<(), Seq<char>>) -> (
        InjectionView,
        StorageSessionView,
        InjectActionView,
    ) {
        match mounted {
            Ok(_) => self.proceed(
                StorageSessionView {
                    mounts: session.mounts.push(
                        shared_volume_mount(self.current(), self.guest_path),
                    ),
                    pending_unmounts: session.pending_unmounts.push(self.host_path),
                    ..session
                },
            ),
            Err(detail) => self.fail(
                session,
                ErrorView::Outside(
                    FailureView {
                        operation: Operation::BindMount,
                        subject: self.host_path,
                        detail,
                    },
                ),
            ),
        }
    }

    /// The answer of the pipeline to an event: the state it moves to, the
    /// caches as it leaves them, and what it asks for next.
    ///
    /// An event that does not answer the last action ends the run.
    pub open spec fn step(self, session: StorageSessionView, event: InjectEventView) -> (
        InjectionView,
        StorageSessionView,
        InjectActionView,
    ) {
        if self.index >= self.descriptors.len() {
            self.fail(session, ErrorView::UnexpectedEvent)
        } else {
            match (self.phase, event) {
                (InjectPhase::AwaitStat, InjectEventView::Stat(stat)) => {
                    match DriverKind::spec_from_driver(self.current().driver) {
                        Some(DriverKind::Block) => self.after_block_stat(session, stat),
                        Some(DriverKind::SharedDirectory) => self.after_shared_stat(session, stat),
                        None => self.fail(session, ErrorView::UnexpectedEvent),
                    }
                },
                (InjectPhase::AwaitBlockDriver, InjectEventView::BlockDriver(driver)) => (
                    InjectionView { phase: InjectPhase::AwaitAttach, ..self },
                    session,
                    InjectActionView::Attach(
                        DeviceConfigView::BlockCfg(BlockConfigView::by_numbers(self.stat, driver)),
                    ),
                ),
                (InjectPhase::AwaitAttach, InjectEventView::Attached(attached)) => {
                    self.after_attach(session, attached)
                },
                (InjectPhase::AwaitSuffix, InjectEventView::Suffix(suffix)) => {
                    let host_path = host_share_path(self.host_share_base, suffix, self.base_name);
                    (
                        InjectionView {
                            phase: InjectPhase::AwaitMount,
                            host_path,
                            guest_path: guest_share_path(suffix, self.base_name),
                            ..self
                        },
                        session,
                        InjectActionView::BindMount {
                            source: self.current().source,
                            target: host_path,
                        },
                    )
                },
                (InjectPhase::AwaitMount, InjectEventView::Mounted(mounted)) => {
                    self.after_mount(session, mounted)
                },
                _ => self.fail(session, ErrorView::UnexpectedEvent),
            }
        }
    }
}

/// Starts a run of the pipeline over the declared `storages`, with shares
/// mounted below `host_share_path`, and tells what to do first.
pub fn do_handle_storage(storages: Vec<StorageDescriptor>, host_share_path: String) -> (res: (
    Injection,
    InjectAction,
))
    ensures
        (res.0@, res.1@) == InjectionView::initial(storages.deep_view(), host_share_path@).select(),
{
    let run = Injection {
        descriptors: storages,
        host_share_base: host_share_path,
        index: 0,
        phase: InjectPhase::Finished,
        stat: FileStat { mode: 0, rdev: 0 },
        base_name: String::new(),
        host_path: String::new(),
        guest_path: String::new(),
    };
    run.select()
}

impl Injection {
    /// Whether the run has ended.
    pub fn is_finished(&self) -> (finished: bool)
        ensures
            finished == (self@.phase == InjectPhase::Finished),
    {
        match self.phase {
            InjectPhase::Finished => true,
            _ => false,
        }
    }

    fn select(self) -> (res: (Injection, InjectAction))
        ensures
            (res.0@, res.1@) == self@.select(),
    {
        let mut run = self;
        if run.index >= run.descriptors.len() {
            run.phase = InjectPhase::Finished;
            return (run, InjectAction::Done(Ok(())));
        }
        assert(run@.current() == run.descriptors[run.index as int]@);
        match DriverKind::from_driver(run.descriptors[run.index].driver.as_str()) {
            None => {
                let driver = run.descriptors[run.index].driver.clone();
                run.phase = InjectPhase::Finished;
                (run, InjectAction::Done(Err(Error::UnsupportedStorageType { driver })))
            },
            Some(_) => {
                let path = run.descriptors[run.index].source.clone();
                run.phase = InjectPhase::AwaitStat;
                (run, InjectAction::Stat { path })
            },
        }
    }

    fn fail(self, error: Error) -> (res: (Injection, InjectAction))
        ensures
            res.0@ == self@.finished(),
            res.1@ == InjectActionView::Done(Err(error@)),
    {
        let mut run = self;
        run.phase = InjectPhase::Finished;
        (run, InjectAction::Done(Err(error)))
    }

    fn proceed(self) -> (res: (Injection, InjectAction))
        requires
            self@.index < self@.descriptors.len(),
        ensures
            (res.0@, res.1@) == (InjectionView { index: self@.index + 1, ..self@ }).select(),
    {
        let mut run = self;
        assert(run.descriptors.deep_view().len() == run.descriptors.len());
        run.index = run.index + 1;
        run.select()
    }

    fn after_stat(self, stat: Option<FileStat>, Ghost(session): Ghost<StorageSessionView>) -> (res:
        (Injection, InjectAction))
        requires
            self@.index < self@.descriptors.len(),
        ensures
            (res.0@, session, res.1@) == (match DriverKind::spec_from_driver(
                self@.current().driver,
            ) {
                Some(DriverKind::Block) => self@.after_block_stat(session, stat),
                Some(DriverKind::SharedDirectory) => self@.after_shared_stat(session, stat),
                None => self@.fail(session, ErrorView::UnexpectedEvent),
            }),
    {
        let mut run = self;
        assert(run@.current() == run.descriptors[run.index as int]@);
        let kind = DriverKind::from_driver(run.descriptors[run.index].driver.as_str());
        let source = run.descriptors[run.index].source.clone();
        match kind {
            Some(DriverKind::Block) => {
                match stat {
                    Some(stat) => {
                        if stat.is_block_special() {
                            run.phase = InjectPhase::AwaitBlockDriver;
                            run.stat = stat;
                            (run, InjectAction::QueryBlockDriver)
                        } else {
                            run.fail(Error::NotBlockSpecial { source })
                        }
                    },
                    None => run.fail(Error::NotBlockSpecial { source }),
                }
            },
            Some(DriverKind::SharedDirectory) => {
                match stat {
                    Some(stat) => {
                        if stat.is_directory() {
                            match file_name_of(source.as_str()) {
                                Some(base_name) => {
                                    run.phase = InjectPhase::AwaitSuffix;
                                    run.base_name = base_name;
                                    (run, InjectAction::DrawSuffix { len: SUFFIX_LEN })
                                },
                                None => run.fail(Error::NoBaseName { source }),
                            }
                        } else {
                            run.fail(Error::NotDirectory { source })
                        }
                    },
                    None => run.fail(Error::NotDirectory { source }),
                }
            },
            None => run.fail(Error::UnexpectedEvent),
        }
    }

    fn after_attach(self, session: &mut StorageSession, attached: Result<AttachedDevice, String>) -> (res:
        (Injection, InjectAction))
        requires
            self@.index < self@.descriptors.len(),
        ensures
            (res.0@, final(session)@, res.1@) == self@.after_attach(old(session)@, attached_view(attached)),
    {
        assert(self@.current() == self.descriptors[self.index as int]@);
        match attached {
            Ok(device) => {
                let vol = self.descriptors[self.index].clone();
                match session.record_block_volume(vol, device) {
                    Ok(_) => self.proceed(),
                    Err(error) => self.fail(error),
                }
            },
            Err(detail) => {
                let subject = self.descriptors[self.index].source.clone();
                self.fail(
                    Error::Outside(Failure { operation: Operation::AttachDevice, subject, detail }),
                )
            },
        }
    }

    fn after_mount(self, session: &mut StorageSession, mounted: Result<(), String>) -> (res: (
        Injection,
        InjectAction,
    ))
        requires
            self@.index < self@.descriptors.len(),
        ensures
            (res.0@, final(session)@, res.1@) == self@.after_mount(old(session)@, outcome_view(mounted)),
    {
        assert(self@.current() == self.descriptors[self.index as int]@);
        match mounted {
            Ok(_) => {
                session.record_shared_volume(
                    &self.descriptors[self.index],
                    self.host_path.clone(),
                    self.guest_path.clone(),
                );
                self.proceed()
            },
            Err(detail) => {
                let subject = self.host_path.clone();
                self.fail(
                    Error::Outside(Failure { operation: Operation::BindMount, subject, detail }),
                )
            },
        }
    }

    /// Takes the caller's report on the last action and tells what to do
    /// next. The caches in `session` change only when a volume is complete.
    pub fn step(self, session: &mut StorageSession, event: InjectEvent) -> (res: (
        Injection,
        InjectAction,
    ))
        ensures
            (res.0@, final(session)@, res.1@) == self@.step(old(session)@, event@),
    {
        if self.index >= self.descriptors.len() {
            return self.fail(Error::UnexpectedEvent);
        }
        assert(self@.current() == self.descriptors[self.index as int]@);
        match event {
            InjectEvent::Stat(stat) => match self.phase {
                InjectPhase::AwaitStat => self.after_stat(stat, Ghost(session@)),
                _ => self.fail(Error::UnexpectedEvent),
            },
            InjectEvent::BlockDriver(driver) => match self.phase {
                InjectPhase::AwaitBlockDriver => {
                    let mut run = self;
                    let config = BlockConfig::by_numbers(&run.stat, driver);
                    run.phase = InjectPhase::AwaitAttach;
                    (run, InjectAction::Attach(DeviceConfig::BlockCfg(config)))
                },
                _ => self.fail(Error::UnexpectedEvent),
            },
            InjectEvent::Attached(attached) => match self.phase {
                InjectPhase::AwaitAttach => self.after_attach(session, attached),
                _ => self.fail(Error::UnexpectedEvent),
            },
            InjectEvent::Suffix(suffix) => match self.phase {
                InjectPhase::AwaitSuffix => {
                    let mut run = self;
                    let paths = shared_volume_paths(
                        run.host_share_base.as_str(),
                        suffix.as_str(),
                        run.base_name.as_str(),
                    );
                    let source = run.descriptors[run.index].source.clone();
                    let target = paths.0.clone();
                    run.phase = InjectPhase::AwaitMount;
                    run.host_path = paths.0;
                    run.guest_path = paths.1;
                    (run, InjectAction::BindMount { source, target })
                },
                _ => self.fail(Error::UnexpectedEvent),
            },
            InjectEvent::Mounted(mounted) => match self.phase {
                InjectPhase::AwaitMount => self.after_mount(session, mounted),
                _ => self.fail(Error::UnexpectedEvent),
            },
        }
    }
}

/// How the outside answers for the volume at each position of the list: the
/// host's report on its source, the negotiated block driver, what attaching
/// comes to, the suffix that is drawn, and what the bind mount comes to.
pub struct InjectAnswers {
    pub stat: spec_fn(int) -> Option<FileStat>,
    pub block_driver: spec_fn(int) -> Seq<char>,
    pub attach: spec_fn(int) -> Result<AttachedDeviceView, Seq<char>>,
    pub suffix: spec_fn(int) -> Seq<char>,
    pub mount: spec_fn(int) -> Result<(), Seq<char>>,
}

impl InjectAnswers {
    /// The event with which the outside answers `action` while the pipeline
    /// handles the volume at `index`.
    pub open spec fn respond(self, index: int, action: InjectActionView) -> InjectEventView {
        match action {
            InjectActionView::QueryBlockDriver => InjectEventView::BlockDriver(
                (self.block_driver)(index),
            ),
            InjectActionView::Attach(_) => InjectEventView::Attached((self.attach)(index)),
            InjectActionView::DrawSuffix { .. } => InjectEventView::Suffix((self.suffix)(index)),
            InjectActionView::BindMount { .. } => InjectEventView::Mounted((self.mount)(index)),
            _ => InjectEventView::Stat((self.stat)(index)),
        }
    }

    /// The caches after the block volume `vol` at `index` was handled, or why
    /// it could not be: its source must be a block special file, the device
    /// must attach, and the attached device must have a path for the guest.
    pub open spec fn block_outcome(
        self,
        vol: StorageDescriptorView,
        index: int,
        session: StorageSessionView,
    ) -> Result<StorageSessionView, ErrorView> {
        match (self.stat)(index) {
            Some(stat) if stat.spec_is_block_special() => match (self.attach)(index) {
                Ok(device) => match block_volume_records(vol, device) {
                    Ok((storage, mount)) => Ok(
                        StorageSessionView {
                            storages: session.storages.push(storage),
                            mounts: session.mounts.push(mount),
                            ..session
                        },
                    ),
                    Err(error) => Err(error),
                },
                Err(detail) => Err(
                    ErrorView::Outside(
                        FailureView {
                            operation: Operation::AttachDevice,
                            subject: vol.source,
                            detail,
                        },
                    ),
                ),
            },
            _ => Err(ErrorView::NotBlockSpecial { source: vol.source }),
        }
    }

    /// The caches after the shared volume `vol` at `index` was handled, or
    /// why it could not be: its source must be a directory with a base name,
    /// and the bind mount below `host_share_base` must succeed.
    pub open spec fn shared_outcome(
        self,
        vol: StorageDescriptorView,
        host_share_base: Seq<char>,
        index: int,
        session: StorageSessionView,
    ) -> Result<StorageSessionView, ErrorView> {
        match (self.stat)(index) {
            Some(stat) if stat.spec_is_directory() => match path_file_name(vol.source) {
                Some(base_name) => {
                    let suffix = (self.suffix)(index);
                    let host_path = host_share_path(host_share_base, suffix, base_name);
                    match (self.mount)(index) {
                        Ok(_) => Ok(
                            StorageSessionView {
                                mounts: session.mounts.push(
                                    shared_volume_mount(vol, guest_share_path(suffix, base_name)),
                                ),
                                pending_unmounts: session.pending_unmounts.push(host_path),
                                ..session
                            },
                        ),
                        Err(detail) => Err(
                            ErrorView::Outside(
                                FailureView {
                                    operation: Operation::BindMount,
                                    subject: host_path,
                                    detail,
                                },
                            ),
                        ),
                    }
                },
                None => Err(ErrorView::NoBaseName { source: vol.source }),
            },
            _ => Err(ErrorView::NotDirectory { source: vol.source }),
        }
    }

    /// The caches after the volume `vol` at `index` was handled, or why it
    /// could not be.
    pub open spec fn volume_outcome(
        self,
        vol: StorageDescriptorView,
        host_share_base: Seq<char>,
        index: int,
        session: StorageSessionView,
    ) -> Result<StorageSessionView, ErrorView> {
        match DriverKind::spec_from_driver(vol.driver) {
            Some(DriverKind::Block) => self.block_outcome(vol, index, session),
            Some(DriverKind::SharedDirectory) => self.shared_outcome(
                vol,
                host_share_base,
                index,
                session,
            ),
            None => Err(ErrorView::UnsupportedStorageType { driver: vol.driver }),
        }
    }

    /// What handling the volumes from `index` on comes to: they are handled
    /// in the order of the list; the first one that fails ends the run with
    /// its error and leaves the caches as the volumes before it filled them.
    pub open spec fn outcome_from(
        self,
        descriptors: Seq<StorageDescriptorView>,
        host_share_base: Seq<char>,
        index: int,
        session: StorageSessionView,
    ) -> (StorageSessionView, Result<(), ErrorView>)
        decreases descriptors.len() - index,
    {
        if index < 0 || index >= descriptors.len() {
            (session, Ok(()))
        } else {
            match self.volume_outcome(descriptors[index], host_share_base, index, session) {
                Ok(filled) => self.outcome_from(descriptors, host_share_base, index + 1, filled),
                Err(error) => (session, Err(error)),
            }
        }
    }
}

/// The caches and the last action of a run that goes on from `action` while
/// the outside answers each action as `answers` says. `fuel` bounds the
/// number of actions.
pub open spec fn drive(
    state: InjectionView,
    session: StorageSessionView,
    action: InjectActionView,
    answers: InjectAnswers,
    fuel: nat,
) -> (StorageSessionView, InjectActionView)
    decreases fuel,
{
    if fuel == 0 || action is Done {
        (session, action)
    } else {
        let next = state.step(session, answers.respond(state.index as int, action));
        drive(next.0, next.1, next.2, answers, (fuel - 1) as nat)
    }
}

proof fn lemma_drive_from(
    state: InjectionView,
    session: StorageSessionView,
    answers: InjectAnswers,
    fuel: nat,
)
    requires
        state.index <= state.descriptors.len(),
        fuel >= 3 * (state.descriptors.len() - state.index),
    ensures
        ({
            let outcome = answers.outcome_from(
                state.descriptors,
                state.host_share_base,
                state.index as int,
                session,
            );
            drive(state.select().0, session, state.select().1, answers, fuel) == (
                outcome.0,
                InjectActionView::Done(outcome.1),
            )
        }),
    decreases state.descriptors.len() - state.index,
{
    let index = state.index as int;
    if state.index < state.descriptors.len() {
        let vol = state.descriptors[index];
        let s0 = state.select().0;
        let a0 = state.select().1;
        match DriverKind::spec_from_driver(vol.driver) {
            None => {},
            Some(kind) => {
                let n1 = s0.step(session, answers.respond(index, a0));
                assert(drive(s0, session, a0, answers, fuel) == drive(
                    n1.0,
                    n1.1,
                    n1.2,
                    answers,
                    (fuel - 1) as nat,
                ));
                if n1.2 is Done {
                } else {
                    let n2 = n1.0.step(n1.1, answers.respond(index, n1.2));
                    assert(drive(n1.0, n1.1, n1.2, answers, (fuel - 1) as nat) == drive(
                        n2.0,
                        n2.1,
                        n2.2,
                        answers,
                        (fuel - 2) as nat,
                    ));
                    let n3 = n2.0.step(n2.1, answers.respond(index, n2.2));
                    assert(drive(n2.0, n2.1, n2.2, answers, (fuel - 2) as nat) == drive(
                        n3.0,
                        n3.1,
                        n3.2,
                        answers,
                        (fuel - 3) as nat,
                    ));
                    match answers.volume_outcome(vol, state.host_share_base, index, session) {
                        Ok(filled) => {
                            let after = InjectionView { index: state.index + 1, ..n2.0 };
                            assert(n3 == (after.select().0, filled, after.select().1));
                            lemma_drive_from(after, filled, answers, (fuel - 3) as nat);
                        },
                        Err(_) => {},
                    }
                }
            },
        }
    }
}

/// A run of the pipeline handles the declared volumes in their order. It ends
/// with success once every volume is cached, or with the error of the first
/// volume that fails; the caches then hold what the volumes before it gave
/// and nothing of the one that failed.
pub proof fn injection_handles_volumes_in_order(
    descriptors: Seq<StorageDescriptorView>,
    host_share_base: Seq<char>,
    session: StorageSessionView,
    answers: InjectAnswers,
)
    ensures
        ({
            let start = InjectionView::initial(descriptors, host_share_base).select();
            let outcome = answers.outcome_from(descriptors, host_share_base, 0, session);
            drive(start.0, session, start.1, answers, 3 * descriptors.len()) == (
                outcome.0,
                InjectActionView::Done(outcome.1),
            )
        }),
{
    lemma_drive_from(
        InjectionView::initial(descriptors, host_share_base),
        session,
        answers,
        3 * descriptors.len(),
    );
}

/// A block volume whose source is a block special file, and whose attached
/// device has a path for the guest, adds exactly one storage descriptor and
/// exactly one guest mount to the caches. The descriptor's source is that
/// path; its mount point and the mount's source are the guest directory
/// named after the device; the mount's destination is the container
/// directory named after the device.
pub proof fn block_volume_is_cached_once(
    answers: InjectAnswers,
    vol: StorageDescriptorView,
    host_share_base: Seq<char>,
    index: int,
    session: StorageSessionView,
    device_id: Seq<char>,
    pci_path: Seq<char>,
)
    requires
        DriverKind::spec_from_driver(vol.driver) == Some(DriverKind::Block),
        (answers.stat)(index) matches Some(stat) && stat.spec_is_block_special(),
        (answers.attach)(index) == Ok::<AttachedDeviceView, Seq<char>>(
            AttachedDeviceView::Block { device_id, pci_path: Some(pci_path) },
        ),
    ensures
        answers.volume_outcome(vol, host_share_base, index, session) matches Ok(filled)
            && filled.storages == session.storages.push(
            StorageDescriptorView {
                source: pci_path,
                mount_point: slash_joined(GUEST_BASE_PATH@, device_id, TEST_BLK_APPEND@),
                ..vol
            },
        ) && filled.mounts == session.mounts.push(
            GuestMountDescriptorView {
                destination: slash_joined(CNT_MNT_BASE@, device_id, TEST_BLK_APPEND@),
                fstype: vol.fstype,
                source: slash_joined(GUEST_BASE_PATH@, device_id, TEST_BLK_APPEND@),
                options: vol.options,
            },
        ) && filled.pending_unmounts == session.pending_unmounts,
{
}

/// A shared volume whose source is a directory, and whose bind mount
/// succeeds, adds exactly one guest mount and exactly one host path to the
/// caches, both named after the suffix that was drawn for it, and no storage
/// descriptor.
pub proof fn shared_volume_is_cached_once(
    answers: InjectAnswers,
    vol: StorageDescriptorView,
    host_share_base: Seq<char>,
    index: int,
    session: StorageSessionView,
    base_name: Seq<char>,
)
    requires
        DriverKind::spec_from_driver(vol.driver) == Some(DriverKind::SharedDirectory),
        (answers.stat)(index) matches Some(stat) && stat.spec_is_directory(),
        path_file_name(vol.source) == Some(base_name),
        (answers.mount)(index) is Ok,
    ensures
        answers.volume_outcome(vol, host_share_base, index, session) matches Ok(filled)
            && filled.storages == session.storages && filled.mounts == session.mounts.push(
            GuestMountDescriptorView {
                destination: CNT_MNT_BASE@,
                fstype: vol.fstype,
                source: guest_share_path((answers.suffix)(index), base_name),
                options: vol.options,
            },
        ) && filled.pending_unmounts == session.pending_unmounts.push(
            host_share_path(host_share_base, (answers.suffix)(index), base_name),
        ),
{
}

/// A volume with a driver that the pipeline does not handle ends the run
/// with an error that names the driver, and leaves the caches as they were
/// when its turn came.
pub proof fn unsupported_driver_ends_the_run(
    answers: InjectAnswers,
    descriptors: Seq<StorageDescriptorView>,
    host_share_base: Seq<char>,
    index: int,
    session: StorageSessionView,
)
    requires
        0 <= index < descriptors.len(),
        DriverKind::spec_from_driver(descriptors[index].driver) is None,
    ensures
        answers.outcome_from(descriptors, host_share_base, index, session) == (
            session,
            Err::<(), ErrorView>(
                ErrorView::UnsupportedStorageType { driver: descriptors[index].driver },
            ),
        ),
{
}

/// A block volume whose source is not a block special file, or cannot be
/// inspected, ends the run with an error that names the source, and leaves
/// the caches as they were when its turn came.
pub proof fn not_block_special_ends_the_run(
    answers: InjectAnswers,
    descriptors: Seq<StorageDescriptorView>,
    host_share_base: Seq<char>,
    index: int,
    session: StorageSessionView,
)
    requires
        0 <= index < descriptors.len(),
        DriverKind::spec_from_driver(descriptors[index].driver) == Some(DriverKind::Block),
        !((answers.stat)(index) matches Some(stat) && stat.spec_is_block_special()),
    ensures
        answers.outcome_from(descriptors, host_share_base, index, session) == (
            session,
            Err::<(), ErrorView>(ErrorView::NotBlockSpecial { source: descriptors[index].source }),
        ),
{
}

/// Whatever a run comes to, it only appends to the caches: what they held
/// before, and what earlier volumes of the run added, stays where it was.
pub proof fn injection_only_appends(
    answers: InjectAnswers,
    descriptors: Seq<StorageDescriptorView>,
    host_share_base: Seq<char>,
    index: int,
    session: StorageSessionView,
)
    ensures
        ({
            let after = answers.outcome_from(descriptors, host_share_base, index, session).0;
            &&& session.storages.is_prefix_of(after.storages)
            &&& session.mounts.is_prefix_of(after.mounts)
            &&& session.pending_unmounts.is_prefix_of(after.pending_unmounts)
        }),
    decreases descriptors.len() - index,
{
    if 0 <= index < descriptors.len() {
        match answers.volume_outcome(descriptors[index], host_share_base, index, session) {
            Ok(filled) => {
                injection_only_appends(answers, descriptors, host_share_base, index + 1, filled);
                let after = answers.outcome_from(descriptors, host_share_base, index + 1, filled).0;
                assert(session.storages.is_prefix_of(filled.storages));
                assert(session.mounts.is_prefix_of(filled.mounts));
                assert(session.pending_unmounts.is_prefix_of(filled.pending_unmounts));
                assert(session.storages.is_prefix_of(after.storages));
                assert(session.mounts.is_prefix_of(after.mounts));
                assert(session.pending_unmounts.is_prefix_of(after.pending_unmounts));
            },
            Err(_) => {},
        }
    }
}

} // verus!
