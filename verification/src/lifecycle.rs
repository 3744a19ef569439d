//! The life of the test VM: from configuration over device attachment to a
//! running guest, and back to a stopped one.
//!
//! Booting and shutting down are sequences of steps that the hypervisor, the
//! device manager and the host carry out. The library decides which step
//! comes next: it hands out one action at a time, and the caller performs it
//! and reports what happened.

use crate::backend::BackendKind;
use crate::device::{DeviceConfig, DeviceConfigView};
use crate::error::{outcome_view, Error, ErrorView, Failure, FailureView, Operation};
use vstd::prelude::*;
use vstd::string::*;

verus! {

/// How long the hypervisor is given to start the VM, in milliseconds.
pub const VM_START_TIMEOUT: i32 = 10_000;

/// How far the VM has come.
#[derive(Clone, Copy, Debug, PartialEq, Eq, Structural)]
pub enum VmState {
    /// No configuration was applied yet.
    Unconfigured,
    /// The configuration is applied and the VM is prepared.
    Configured,
    /// Every device that the guest needs at its start is attached.
    DevicesAttached,
    /// The guest is running.
    Running,
    /// The hypervisor has stopped the guest.
    Stopped,
}

impl VmState {
    /// The position of the state in the life of a VM.
    pub open spec fn rank(self) -> nat {
        match self {
            VmState::Unconfigured => 0,
            VmState::Configured => 1,
            VmState::DevicesAttached => 2,
            VmState::Running => 3,
            VmState::Stopped => 4,
        }
    }
}

/// The record of the helper process that serves the shared file system.
#[derive(Debug, PartialEq, Eq)]
pub struct SharedFs {
    /// The process id of the helper; 0 while none runs.
    pub pid: u32,
    /// The tag under which the guest mounts the file system.
    pub mount_tag: String,
}

/// The mathematical value of a [`SharedFs`].
pub struct SharedFsView {
    pub pid: u32,
    pub mount_tag: Seq<char>,
}

impl SharedFsView {
    /// The record of a helper that was never started.
    pub open spec fn not_running() -> SharedFsView {
        SharedFsView { pid: 0, mount_tag: Seq::empty() }
    }
}

impl View for SharedFs {
    type V = SharedFsView;

    open spec fn view(&self) -> SharedFsView {
        SharedFsView { pid: self.pid, mount_tag: self.mount_tag@ }
    }
}

impl Default for SharedFs {
    fn default() -> (record: Self)
        ensures
            record@ == SharedFsView::not_running(),
    {
        SharedFs { pid: 0, mount_tag: String::new() }
    }
}

impl Clone for SharedFs {
    fn clone(&self) -> (copy: Self)
        ensures
            copy@ == self@,
    {
        SharedFs { pid: self.pid, mount_tag: self.mount_tag.clone() }
    }
}

/// A booted test VM, as far as the harness decides by it.
#[derive(Debug, PartialEq, Eq)]
pub struct TestVm {
    pub backend: BackendKind,
    /// The address at which the agent in the guest is reached.
    pub socket_addr: String,
    /// Whether that address names a socket on the host.
    pub is_hybrid_vsock: bool,
    pub shared_fs_info: SharedFs,
}

/// The mathematical value of a [`TestVm`].
pub struct TestVmView {
    pub backend: BackendKind,
    pub socket_addr: Seq<char>,
    pub is_hybrid_vsock: bool,
    pub shared_fs_info: SharedFsView,
}

impl View for TestVm {
    type V = TestVmView;

    open spec fn view(&self) -> TestVmView {
        TestVmView {
            backend: self.backend,
            socket_addr: self.socket_addr@,
            is_hybrid_vsock: self.is_hybrid_vsock,
            shared_fs_info: self.shared_fs_info@,
        }
    }
}

impl Clone for TestVm {
    fn clone(&self) -> (copy: Self)
        ensures
            copy@ == self@,
    {
        TestVm {
            backend: self.backend,
            socket_addr: self.socket_addr.clone(),
            is_hybrid_vsock: self.is_hybrid_vsock,
            shared_fs_info: self.shared_fs_info.clone(),
        }
    }
}

/// What a boot waits for.
#[derive(Clone, Copy, Debug, PartialEq, Eq, Structural)]
pub enum BootPhase {
    /// The loaded and validated configuration.
    AwaitConfig,
    /// The prepared VM.
    AwaitPrepare,
    /// The device manager.
    AwaitDeviceManager,
    /// The device manager's answer to an attach request.
    AwaitAttach,
    /// What the hypervisor is capable of.
    AwaitCapabilities,
    /// The helper that serves the shared file system.
    AwaitSharedFs,
    /// The started VM.
    AwaitStart,
    /// The address of the agent's socket.
    AwaitSocket,
    /// Nothing: the boot has ended.
    Finished,
}

impl BootPhase {
    /// The outside step that the phase waits for.
    pub open spec fn spec_operation(self) -> Operation {
        match self {
            BootPhase::AwaitConfig => Operation::LoadConfig,
            BootPhase::AwaitPrepare => Operation::Prepare,
            BootPhase::AwaitDeviceManager => Operation::CreateDeviceManager,
            BootPhase::AwaitAttach => Operation::AttachDevice,
            BootPhase::AwaitCapabilities => Operation::QueryCapabilities,
            BootPhase::AwaitSharedFs => Operation::SetupSharedFs,
            BootPhase::AwaitStart => Operation::StartVm,
            BootPhase::AwaitSocket => Operation::ReadAgentSocket,
            BootPhase::Finished => Operation::StartVm,
        }
    }

    /// The outside step that the phase waits for.
    pub fn operation(self) -> (operation: Operation)
        ensures
            operation == self.spec_operation(),
    {
        match self {
            BootPhase::AwaitConfig => Operation::LoadConfig,
            BootPhase::AwaitPrepare => Operation::Prepare,
            BootPhase::AwaitDeviceManager => Operation::CreateDeviceManager,
            BootPhase::AwaitAttach => Operation::AttachDevice,
            BootPhase::AwaitCapabilities => Operation::QueryCapabilities,
            BootPhase::AwaitSharedFs => Operation::SetupSharedFs,
            BootPhase::AwaitStart => Operation::StartVm,
            BootPhase::AwaitSocket => Operation::ReadAgentSocket,
            BootPhase::Finished => Operation::StartVm,
        }
    }
}

/// What the caller reports back to a boot.
#[derive(Debug, PartialEq, Eq)]
pub enum BootEvent {
    /// The configuration was loaded and is valid. `image` is the guest image
    /// it names, empty if the guest boots from something else, and
    /// `vm_rootfs_driver` the driver under which that image is attached.
    ConfigLoaded { image: String, vm_rootfs_driver: String },
    /// The last action succeeded and has nothing to report.
    Completed,
    /// Whether the hypervisor can share a file system with the guest.
    Capabilities { fs_sharing: bool },
    /// The helper that serves the shared file system is running.
    SharedFsReady(SharedFs),
    /// The address of the agent's socket, as the hypervisor reports it.
    AgentSocket(String),
    /// The last action failed; `detail` is what was reported.
    Failed { detail: String },
}

/// The mathematical value of a [`BootEvent`].
pub enum BootEventView {
    ConfigLoaded { image: Seq<char>, vm_rootfs_driver: Seq<char> },
    Completed,
    Capabilities { fs_sharing: bool },
    SharedFsReady(SharedFsView),
    AgentSocket(Seq<char>),
    Failed { detail: Seq<char> },
}

impl View for BootEvent {
    type V = BootEventView;

    open spec fn view(&self) -> BootEventView {
        match self {
            BootEvent::ConfigLoaded { image, vm_rootfs_driver } => BootEventView::ConfigLoaded {
                image: image@,
                vm_rootfs_driver: vm_rootfs_driver@,
            },
            BootEvent::Completed => BootEventView::Completed,
            BootEvent::Capabilities { fs_sharing } => BootEventView::Capabilities {
                fs_sharing: *fs_sharing,
            },
            BootEvent::SharedFsReady(record) => BootEventView::SharedFsReady(record@),
            BootEvent::AgentSocket(address) => BootEventView::AgentSocket(address@),
            BootEvent::Failed { detail } => BootEventView::Failed { detail: detail@ },
        }
    }
}

/// What a boot asks the caller to do next.
#[derive(Debug, PartialEq, Eq)]
pub enum BootAction {
    /// Load the configuration file at `path`, add the agent's kernel
    /// parameters to it, validate it, and pick the settings in `section`.
    LoadConfig { path: String, section: String },
    /// Construct the backend, apply the settings to it, and prepare a VM of
    /// this name, with no network namespace and no annotations.
    Prepare { vm_name: String },
    /// Construct the device manager for the backend.
    CreateDeviceManager,
    /// Attach the device and wait until the device manager has answered.
    Attach(DeviceConfig),
    /// Ask the hypervisor what it is capable of.
    QueryCapabilities,
    /// Start the helper that serves the shared file system to the VM of this
    /// name, and attach its device.
    SetupSharedFs { vm_name: String },
    /// Start the VM and give it `timeout_ms` to come up.
    StartVm { timeout_ms: i32 },
    /// Ask the hypervisor for the address of the agent's socket.
    ReadAgentSocket,
    /// Stop: the VM runs, or the boot failed.
    Done(Result<TestVm, Error>),
}

/// The mathematical value of a [`BootAction`].
pub enum BootActionView {
    LoadConfig { path: Seq<char>, section: Seq<char> },
    Prepare { vm_name: Seq<char> },
    CreateDeviceManager,
    Attach(DeviceConfigView),
    QueryCapabilities,
    SetupSharedFs { vm_name: Seq<char> },
    StartVm { timeout_ms: i32 },
    ReadAgentSocket,
    Done(Result<TestVmView, ErrorView>),
}

impl View for BootAction {
    type V = BootActionView;

    open spec fn view(&self) -> BootActionView {
        match self {
            BootAction::LoadConfig { path, section } => BootActionView::LoadConfig {
                path: path@,
                section: section@,
            },
            BootAction::Prepare { vm_name } => BootActionView::Prepare { vm_name: vm_name@ },
            BootAction::CreateDeviceManager => BootActionView::CreateDeviceManager,
            BootAction::Attach(config) => BootActionView::Attach(config@),
            BootAction::QueryCapabilities => BootActionView::QueryCapabilities,
            BootAction::SetupSharedFs { vm_name } => BootActionView::SetupSharedFs {
                vm_name: vm_name@,
            },
            BootAction::StartVm { timeout_ms } => BootActionView::StartVm { timeout_ms: *timeout_ms },
            BootAction::ReadAgentSocket => BootActionView::ReadAgentSocket,
            BootAction::Done(Ok(vm)) => BootActionView::Done(Ok(vm@)),
            BootAction::Done(Err(error)) => BootActionView::Done(Err(error@)),
        }
    }
}

/// One boot of a test VM.
#[derive(Debug, PartialEq, Eq)]
pub struct Boot {
    backend: BackendKind,
    phase: BootPhase,
    vm_state: VmState,
    devices: Vec<DeviceConfig>,
    next_device: usize,
    shared_fs: SharedFs,
}

/// The mathematical value of a [`Boot`].
pub struct BootView {
    pub backend: BackendKind,
    pub phase: BootPhase,
    /// How far the VM has come.
    pub vm_state: VmState,
    /// The devices to attach before the VM starts, in this order.
    pub devices: Seq<DeviceConfigView>,
    /// The position of the device that is attached next.
    pub next_device: nat,
    /// The record of the helper that serves the shared file system.
    pub shared_fs: SharedFsView,
}

impl View for Boot {
    type V = BootView;

    closed spec fn view(&self) -> BootView {
        BootView {
            backend: self.backend,
            phase: self.phase,
            vm_state: self.vm_state,
            devices: self.devices.deep_view(),
            next_device: self.next_device as nat,
            shared_fs: self.shared_fs@,
        }
    }
}

impl BootView {
    /// The first state of a boot on `backend`, and its first action: to load
    /// the configuration.
    pub open spec fn start(backend: BackendKind) -> (BootView, BootActionView) {
        (
            BootView {
                backend,
                phase: BootPhase::AwaitConfig,
                vm_state: VmState::Unconfigured,
                devices: Seq::empty(),
                next_device: 0,
                shared_fs: SharedFsView::not_running(),
            },
            BootActionView::LoadConfig {
                path: backend.spec_config_path(),
                section: backend.spec_config_section(),
            },
        )
    }

    /// What an outside step of the current phase is applied to: the
    /// configuration file while it is loaded, the VM after that.
    pub open spec fn subject(self) -> Seq<char> {
        if self.phase == BootPhase::AwaitConfig {
            self.backend.spec_config_path()
        } else {
            self.backend.spec_vm_name()
        }
    }

    /// Ends the boot with `error`. The VM stays as far as it has come.
    pub open spec fn fail(self, error: ErrorView) -> (BootView, BootActionView) {
        (BootView { phase: BootPhase::Finished, ..self }, BootActionView::Done(Err(error)))
    }

    /// Asks for the device at `self.next_device`, or, behind the last
    /// device, for the hypervisor's capabilities.
    pub open spec fn attach_next(self) -> (BootView, BootActionView) {
        if self.next_device < self.devices.len() {
            (
                BootView { phase: BootPhase::AwaitAttach, ..self },
                BootActionView::Attach(self.devices[self.next_device as int]),
            )
        } else {
            (
                BootView { phase: BootPhase::AwaitCapabilities, ..self },
                BootActionView::QueryCapabilities,
            )
        }
    }

    /// Asks for the start of the VM, now that every device is attached.
    pub open spec fn start_vm(self) -> (BootView, BootActionView) {
        (
            BootView { phase: BootPhase::AwaitStart, vm_state: VmState::DevicesAttached, ..self },
            BootActionView::StartVm { timeout_ms: VM_START_TIMEOUT },
        )
    }

    /// The VM that a boot hands over once the agent's socket is known.
    pub open spec fn booted(self, reported: Seq<char>) -> TestVmView {
        TestVmView {
            backend: self.backend,
            socket_addr: self.backend.spec_agent_address(reported),
            is_hybrid_vsock: self.backend.spec_is_hybrid_vsock(),
            shared_fs_info: self.shared_fs,
        }
    }

    /// Whether the phase and the state of the VM go together: the VM is
    /// configured once it is prepared, has its devices once its start is
    /// asked for, and runs once it was started.
    pub open spec fn consistent(self) -> bool {
        match self.phase {
            BootPhase::AwaitConfig | BootPhase::AwaitPrepare => self.vm_state
                == VmState::Unconfigured,
            BootPhase::AwaitDeviceManager
            | BootPhase::AwaitAttach
            | BootPhase::AwaitCapabilities
            | BootPhase::AwaitSharedFs => self.vm_state == VmState::Configured,
            BootPhase::AwaitStart => self.vm_state == VmState::DevicesAttached,
            BootPhase::AwaitSocket => self.vm_state == VmState::Running,
            BootPhase::Finished => self.vm_state != VmState::Stopped,
        }
    }

    /// The answer of a boot to an event: the state it moves to and what it
    /// asks for next.
    ///
    /// A failure of any step ends the boot; nothing is tried again. An event
    /// that does not answer the last action ends it as well.
    pub open spec fn step(self, event: BootEventView) -> (BootView, BootActionView) {
        match (self.phase, event) {
            (BootPhase::Finished, _) => self.fail(ErrorView::UnexpectedEvent),
            (_, BootEventView::Failed { detail }) => self.fail(
                ErrorView::Outside(
                    FailureView {
                        operation: self.phase.spec_operation(),
                        subject: self.subject(),
                        detail,
                    },
                ),
            ),
            (BootPhase::AwaitConfig, BootEventView::ConfigLoaded { image, vm_rootfs_driver }) => (
                BootView {
                    phase: BootPhase::AwaitPrepare,
                    devices: self.backend.spec_mandatory_devices(image, vm_rootfs_driver),
                    next_device: 0,
                    ..self
                },
                BootActionView::Prepare { vm_name: self.backend.spec_vm_name() },
            ),
            (BootPhase::AwaitPrepare, BootEventView::Completed) => (
                BootView {
                    phase: BootPhase::AwaitDeviceManager,
                    vm_state: VmState::Configured,
                    ..self
                },
                BootActionView::CreateDeviceManager,
            ),
            (BootPhase::AwaitDeviceManager, BootEventView::Completed) => self.attach_next(),
            (BootPhase::AwaitAttach, BootEventView::Completed) => BootView {
                next_device: if self.next_device < self.devices.len() {
                    self.next_device + 1
                } else {
                    self.next_device
                },
                ..self
            }.attach_next(),
            (BootPhase::AwaitCapabilities, BootEventView::Capabilities { fs_sharing }) => {
                if fs_sharing {
                    (
                        BootView { phase: BootPhase::AwaitSharedFs, ..self },
                        BootActionView::SetupSharedFs { vm_name: self.backend.spec_vm_name() },
                    )
                } else {
                    self.start_vm()
                }
            },
            (BootPhase::AwaitSharedFs, BootEventView::SharedFsReady(record)) => BootView {
                shared_fs: record,
                ..self
            }.start_vm(),
            (BootPhase::AwaitStart, BootEventView::Completed) => (
                BootView { phase: BootPhase::AwaitSocket, vm_state: VmState::Running, ..self },
                BootActionView::ReadAgentSocket,
            ),
            (BootPhase::AwaitSocket, BootEventView::AgentSocket(reported)) => (
                BootView { phase: BootPhase::Finished, ..self },
                BootActionView::Done(Ok(self.booted(reported))),
            ),
            _ => self.fail(ErrorView::UnexpectedEvent),
        }
    }
}

/// The mathematical value of a boot that was started, or of why it was not.
pub open spec fn started_view(res: Result<(Boot, BootAction), Error>) -> Result<
    (BootView, BootActionView),
    ErrorView,
> {
    match res {
        Ok((boot, action)) => Ok((boot@, action@)),
        Err(error) => Err(error@),
    }
}

/// Starts the boot of a test VM on the backend that goes by
/// `hypervisor_name`, and tells what to do first. For a name that no backend
/// goes by nothing is started.
pub fn boot_test_vm(hypervisor_name: String) -> (res: Result<(Boot, BootAction), Error>)
    ensures
        started_view(res) == (match BackendKind::spec_from_name(hypervisor_name@) {
            Some(backend) => Ok(BootView::start(backend)),
            None => Err(ErrorView::UnsupportedHypervisor { name: hypervisor_name@ }),
        }),
{
    match BackendKind::from_name(hypervisor_name.as_str()) {
        Ok(backend) => {
            let devices: Vec<DeviceConfig> = Vec::new();
            assert(devices.deep_view() =~= Seq::<DeviceConfigView>::empty());
            let boot = Boot {
                backend,
                phase: BootPhase::AwaitConfig,
                vm_state: VmState::Unconfigured,
                devices,
                next_device: 0,
                shared_fs: SharedFs::default(),
            };
            let action = BootAction::LoadConfig {
                path: backend.config_path().to_owned(),
                section: backend.config_section().to_owned(),
            };
            Ok((boot, action))
        },
        Err(error) => Err(error),
    }
}

impl Boot {
    /// How far the VM has come.
    pub fn vm_state(&self) -> (state: VmState)
        ensures
            state == self@.vm_state,
    {
        self.vm_state
    }

    /// Whether the boot has ended.
    pub fn is_finished(&self) -> (finished: bool)
        ensures
            finished == (self@.phase == BootPhase::Finished),
    {
        match self.phase {
            BootPhase::Finished => true,
            _ => false,
        }
    }

    fn fail(self, error: Error) -> (res: (Boot, BootAction))
        ensures
            (res.0@, res.1@) == self@.fail(error@),
    {
        let mut boot = self;
        boot.phase = BootPhase::Finished;
        (boot, BootAction::Done(Err(error)))
    }

    fn attach_next(self) -> (res: (Boot, BootAction))
        ensures
            (res.0@, res.1@) == self@.attach_next(),
    {
        let mut boot = self;
        if boot.next_device < boot.devices.len() {
            assert(boot.devices.deep_view()[boot.next_device as int]
                == boot.devices[boot.next_device as int]@);
            let device = boot.devices[boot.next_device].clone();
            boot.phase = BootPhase::AwaitAttach;
            (boot, BootAction::Attach(device))
        } else {
            boot.phase = BootPhase::AwaitCapabilities;
            (boot, BootAction::QueryCapabilities)
        }
    }

    fn start_vm(self) -> (res: (Boot, BootAction))
        ensures
            (res.0@, res.1@) == self@.start_vm(),
    {
        let mut boot = self;
        boot.phase = BootPhase::AwaitStart;
        boot.vm_state = VmState::DevicesAttached;
        (boot, BootAction::StartVm { timeout_ms: VM_START_TIMEOUT })
    }

    fn subject(&self) -> (subject: String)
        ensures
            subject@ == self@.subject(),
    {
        match self.phase {
            BootPhase::AwaitConfig => self.backend.config_path().to_owned(),
            _ => self.backend.vm_name().to_owned(),
        }
    }

    /// Takes the caller's report on the last action and tells what to do
    /// next.
    pub fn step(self, event: BootEvent) -> (res: (Boot, BootAction))
        ensures
            (res.0@, res.1@) == self@.step(event@),
    {
        if self.is_finished() {
            return self.fail(Error::UnexpectedEvent);
        }
        match event {
            BootEvent::Failed { detail } => {
                let failure = Failure {
                    operation: self.phase.operation(),
                    subject: self.subject(),
                    detail,
                };
                self.fail(Error::Outside(failure))
            },
            BootEvent::ConfigLoaded { image, vm_rootfs_driver } => match self.phase {
                BootPhase::AwaitConfig => {
                    let mut boot = self;
                    boot.devices = boot.backend.mandatory_devices(image, vm_rootfs_driver);
                    boot.next_device = 0;
                    boot.phase = BootPhase::AwaitPrepare;
                    let vm_name = boot.backend.vm_name().to_owned();
                    (boot, BootAction::Prepare { vm_name })
                },
                _ => self.fail(Error::UnexpectedEvent),
            },
            BootEvent::Completed => match self.phase {
                BootPhase::AwaitPrepare => {
                    let mut boot = self;
                    boot.phase = BootPhase::AwaitDeviceManager;
                    boot.vm_state = VmState::Configured;
                    (boot, BootAction::CreateDeviceManager)
                },
                BootPhase::AwaitDeviceManager => self.attach_next(),
                BootPhase::AwaitAttach => {
                    let mut boot = self;
                    assert(boot.devices.deep_view().len() == boot.devices.len());
                    if boot.next_device < boot.devices.len() {
                        boot.next_device = boot.next_device + 1;
                    }
                    boot.attach_next()
                },
                BootPhase::AwaitStart => {
                    let mut boot = self;
                    boot.phase = BootPhase::AwaitSocket;
                    boot.vm_state = VmState::Running;
                    (boot, BootAction::ReadAgentSocket)
                },
                _ => self.fail(Error::UnexpectedEvent),
            },
            BootEvent::Capabilities { fs_sharing } => match self.phase {
                BootPhase::AwaitCapabilities => {
                    if fs_sharing {
                        let mut boot = self;
                        boot.phase = BootPhase::AwaitSharedFs;
                        let vm_name = boot.backend.vm_name().to_owned();
                        (boot, BootAction::SetupSharedFs { vm_name })
                    } else {
                        self.start_vm()
                    }
                },
                _ => self.fail(Error::UnexpectedEvent),
            },
            BootEvent::SharedFsReady(record) => match self.phase {
                BootPhase::AwaitSharedFs => {
                    let mut boot = self;
                    boot.shared_fs = record;
                    boot.start_vm()
                },
                _ => self.fail(Error::UnexpectedEvent),
            },
            BootEvent::AgentSocket(reported) => match self.phase {
                BootPhase::AwaitSocket => {
                    let mut boot = self;
                    let vm = TestVm {
                        backend: boot.backend,
                        socket_addr: boot.backend.agent_address(reported),
                        is_hybrid_vsock: boot.backend.is_hybrid_vsock(),
                        shared_fs_info: boot.shared_fs.clone(),
                    };
                    boot.phase = BootPhase::Finished;
                    (boot, BootAction::Done(Ok(vm)))
                },
                _ => self.fail(Error::UnexpectedEvent),
            },
        }
    }
}

/// What a shutdown waits for.
#[derive(Clone, Copy, Debug, PartialEq, Eq, Structural)]
pub enum ShutdownPhase {
    /// The outcome of stopping the helper that serves the shared file system.
    AwaitSharedFsStop,
    /// The outcome of stopping the VM.
    AwaitVmStop,
    /// Nothing: the shutdown has ended.
    Finished,
}

/// What a shutdown asks the caller to do next.
#[derive(Debug, PartialEq, Eq)]
pub enum ShutdownAction {
    /// Stop the helper that serves the shared file system and wait until it
    /// is gone.
    StopSharedFs(SharedFs),
    /// Have the hypervisor stop the VM.
    StopVm,
    /// Stop: both steps were tried. The error is the first failure.
    Done(Result<(), Error>),
}

/// The mathematical value of a [`ShutdownAction`].
pub enum ShutdownActionView {
    StopSharedFs(SharedFsView),
    StopVm,
    Done(Result<(), ErrorView>),
}

impl View for ShutdownAction {
    type V = ShutdownActionView;

    open spec fn view(&self) -> ShutdownActionView {
        match self {
            ShutdownAction::StopSharedFs(record) => ShutdownActionView::StopSharedFs(record@),
            ShutdownAction::StopVm => ShutdownActionView::StopVm,
            ShutdownAction::Done(Ok(_)) => ShutdownActionView::Done(Ok(())),
            ShutdownAction::Done(Err(error)) => ShutdownActionView::Done(Err(error@)),
        }
    }
}

/// One shutdown of a test VM.
#[derive(Debug, PartialEq, Eq)]
pub struct Shutdown {
    backend: BackendKind,
    phase: ShutdownPhase,
    vm_state: VmState,
    failure: Option<Failure>,
}

/// The mathematical value of a [`Shutdown`].
pub struct ShutdownView {
    pub backend: BackendKind,
    pub phase: ShutdownPhase,
    /// How far the VM has come.
    pub vm_state: VmState,
    /// The first step that failed, if one did.
    pub failure: Option<FailureView>,
}

impl View for Shutdown {
    type V = ShutdownView;

    closed spec fn view(&self) -> ShutdownView {
        ShutdownView {
            backend: self.backend,
            phase: self.phase,
            vm_state: self.vm_state,
            failure: match self.failure {
                Some(failure) => Some(failure@),
                None => None,
            },
        }
    }
}

impl ShutdownView {
    /// The first state of the shutdown of `vm`, and its first action: to stop
    /// the helper of the shared file system if one runs, else to stop the VM.
    pub open spec fn start(vm: TestVmView) -> (ShutdownView, ShutdownActionView) {
        let state = ShutdownView {
            backend: vm.backend,
            phase: ShutdownPhase::AwaitVmStop,
            vm_state: VmState::Running,
            failure: None,
        };
        if vm.shared_fs_info.pid > 0 {
            (
                ShutdownView { phase: ShutdownPhase::AwaitSharedFsStop, ..state },
                ShutdownActionView::StopSharedFs(vm.shared_fs_info),
            )
        } else {
            (state, ShutdownActionView::StopVm)
        }
    }

    /// Whether the phase and the state of the VM go together: the VM runs
    /// until the shutdown has ended, and is stopped or still runs after it.
    pub open spec fn consistent(self) -> bool {
        if self.phase == ShutdownPhase::Finished {
            self.vm_state == VmState::Running || self.vm_state == VmState::Stopped
        } else {
            self.vm_state == VmState::Running
        }
    }

    /// The failure of the step that the phase waits for.
    pub open spec fn failed(self, operation: Operation, detail: Seq<char>) -> FailureView {
        FailureView { operation, subject: self.backend.spec_vm_name(), detail }
    }

    /// The answer of a shutdown to the outcome of its last action: the state
    /// it moves to and what it asks for next.
    ///
    /// The VM is stopped whether or not the helper could be stopped. The
    /// shutdown as a whole fails with the first step that failed.
    pub open spec fn step(self, outcome: Result<(), Seq<char>>) -> (
        ShutdownView,
        ShutdownActionView,
    ) {
        match self.phase {
            ShutdownPhase::AwaitSharedFsStop => (
                ShutdownView {
                    phase: ShutdownPhase::AwaitVmStop,
                    failure: match outcome {
                        Ok(_) => None,
                        Err(detail) => Some(self.failed(Operation::StopSharedFs, detail)),
                    },
                    ..self
                },
                ShutdownActionView::StopVm,
            ),
            ShutdownPhase::AwaitVmStop => match outcome {
                Ok(_) => (
                    ShutdownView {
                        phase: ShutdownPhase::Finished,
                        vm_state: VmState::Stopped,
                        ..self
                    },
                    ShutdownActionView::Done(
                        match self.failure {
                            Some(failure) => Err(ErrorView::Outside(failure)),
                            None => Ok(()),
                        },
                    ),
                ),
                Err(detail) => {
                    let first = match self.failure {
                        Some(failure) => failure,
                        None => self.failed(Operation::StopVm, detail),
                    };
                    (
                        ShutdownView {
                            phase: ShutdownPhase::Finished,
                            failure: Some(first),
                            ..self
                        },
                        ShutdownActionView::Done(Err(ErrorView::Outside(first))),
                    )
                },
            },
            ShutdownPhase::Finished => (self, ShutdownActionView::Done(Err(ErrorView::UnexpectedEvent))),
        }
    }
}

/// Starts the shutdown of a test VM and tells what to do first.
pub fn stop_test_vm(vm_instance: TestVm) -> (res: (Shutdown, ShutdownAction))
    ensures
        (res.0@, res.1@) == ShutdownView::start(vm_instance@),
{
    let mut shutdown = Shutdown {
        backend: vm_instance.backend,
        phase: ShutdownPhase::AwaitVmStop,
        vm_state: VmState::Running,
        failure: None,
    };
    if vm_instance.shared_fs_info.pid > 0 {
        shutdown.phase = ShutdownPhase::AwaitSharedFsStop;
        (shutdown, ShutdownAction::StopSharedFs(vm_instance.shared_fs_info))
    } else {
        (shutdown, ShutdownAction::StopVm)
    }
}

impl Shutdown {
    /// How far the VM has come.
    pub fn vm_state(&self) -> (state: VmState)
        ensures
            state == self@.vm_state,
    {
        self.vm_state
    }

    /// Whether the shutdown has ended.
    pub fn is_finished(&self) -> (finished: bool)
        ensures
            finished == (self@.phase == ShutdownPhase::Finished),
    {
        match self.phase {
            ShutdownPhase::Finished => true,
            _ => false,
        }
    }

    fn failed(&self, operation: Operation, detail: String) -> (failure: Failure)
        ensures
            failure@ == self@.failed(operation, detail@),
    {
        Failure { operation, subject: self.backend.vm_name().to_owned(), detail }
    }

    /// Takes the outcome of the last action and tells what to do next.
    pub fn step(self, outcome: Result<(), String>) -> (res: (Shutdown, ShutdownAction))
        ensures
            (res.0@, res.1@) == self@.step(outcome_view(outcome)),
    {
        let mut shutdown = self;
        match shutdown.phase {
            ShutdownPhase::AwaitSharedFsStop => {
                shutdown.failure = match outcome {
                    Ok(_) => None,
                    Err(detail) => Some(shutdown.failed(Operation::StopSharedFs, detail)),
                };
                shutdown.phase = ShutdownPhase::AwaitVmStop;
                (shutdown, ShutdownAction::StopVm)
            },
            ShutdownPhase::AwaitVmStop => match outcome {
                Ok(_) => {
                    shutdown.phase = ShutdownPhase::Finished;
                    shutdown.vm_state = VmState::Stopped;
                    let verdict = match &shutdown.failure {
                        Some(failure) => Err(Error::Outside(failure.clone())),
                        None => Ok(()),
                    };
                    (shutdown, ShutdownAction::Done(verdict))
                },
                Err(detail) => {
                    let first = match &shutdown.failure {
                        Some(failure) => failure.clone(),
                        None => shutdown.failed(Operation::StopVm, detail),
                    };
                    shutdown.phase = ShutdownPhase::Finished;
                    shutdown.failure = Some(first.clone());
                    (shutdown, ShutdownAction::Done(Err(Error::Outside(first))))
                },
            },
            ShutdownPhase::Finished => (
                shutdown,
                ShutdownAction::Done(Err(Error::UnexpectedEvent)),
            ),
        }
    }
}

/// How the outside answers each step of a boot.
pub struct BootAnswers {
    /// The guest image and its driver as the configuration names them, or
    /// why the configuration could not be loaded.
    pub config: Result<(Seq<char>, Seq<char>), Seq<char>>,
    pub prepare: Result<(), Seq<char>>,
    pub device_manager: Result<(), Seq<char>>,
    /// What attaching the device at each position comes to.
    pub attach: spec_fn(int) -> Result<(), Seq<char>>,
    /// Whether the hypervisor can share a file system.
    pub capabilities: Result<bool, Seq<char>>,
    pub shared_fs: Result<SharedFsView, Seq<char>>,
    pub start: Result<(), Seq<char>>,
    /// The address of the agent's socket, as the hypervisor reports it.
    pub socket: Result<Seq<char>, Seq<char>>,
}

/// The event that reports `outcome` of a step with nothing else to report.
pub open spec fn completion(outcome: Result<(), Seq<char>>) -> BootEventView {
    match outcome {
        Ok(_) => BootEventView::Completed,
        Err(detail) => BootEventView::Failed { detail },
    }
}

impl BootAnswers {
    /// The event with which the outside answers `action` in `state`.
    pub open spec fn respond(self, state: BootView, action: BootActionView) -> BootEventView {
        match action {
            BootActionView::LoadConfig { .. } => match self.config {
                Ok((image, vm_rootfs_driver)) => BootEventView::ConfigLoaded {
                    image,
                    vm_rootfs_driver,
                },
                Err(detail) => BootEventView::Failed { detail },
            },
            BootActionView::Prepare { .. } => completion(self.prepare),
            BootActionView::CreateDeviceManager => completion(self.device_manager),
            BootActionView::Attach(_) => completion((self.attach)(state.next_device as int)),
            BootActionView::QueryCapabilities => match self.capabilities {
                Ok(fs_sharing) => BootEventView::Capabilities { fs_sharing },
                Err(detail) => BootEventView::Failed { detail },
            },
            BootActionView::SetupSharedFs { .. } => match self.shared_fs {
                Ok(record) => BootEventView::SharedFsReady(record),
                Err(detail) => BootEventView::Failed { detail },
            },
            BootActionView::StartVm { .. } => completion(self.start),
            _ => match self.socket {
                Ok(reported) => BootEventView::AgentSocket(reported),
                Err(detail) => BootEventView::Failed { detail },
            },
        }
    }

    /// What the first attach request that fails reports, among those for the
    /// positions from `from` up to `count`.
    pub open spec fn attach_failure(self, count: int, from: int) -> Option<Seq<char>>
        decreases count - from,
    {
        if from >= count {
            None
        } else {
            match (self.attach)(from) {
                Err(detail) => Some(detail),
                Ok(_) => self.attach_failure(count, from + 1),
            }
        }
    }

    /// What a boot comes to once the device manager exists: the devices are
    /// attached in their order; the shared file system is set up exactly if
    /// the hypervisor is capable of it; then the VM is started and the
    /// agent's socket is read. The first step that fails is the error.
    pub open spec fn outcome_with_devices(
        self,
        backend: BackendKind,
        devices: Seq<DeviceConfigView>,
        from: int,
    ) -> Result<TestVmView, ErrorView> {
        let vm_name = backend.spec_vm_name();
        if let Some(detail) = self.attach_failure(devices.len() as int, from) {
            boot_failure(Operation::AttachDevice, vm_name, detail)
        } else if let Err(detail) = self.capabilities {
            boot_failure(Operation::QueryCapabilities, vm_name, detail)
        } else if self.capabilities == Ok::<bool, Seq<char>>(true) && self.shared_fs is Err {
            boot_failure(Operation::SetupSharedFs, vm_name, self.shared_fs->Err_0)
        } else if let Err(detail) = self.start {
            boot_failure(Operation::StartVm, vm_name, detail)
        } else if let Err(detail) = self.socket {
            boot_failure(Operation::ReadAgentSocket, vm_name, detail)
        } else {
            Ok(
                TestVmView {
                    backend,
                    socket_addr: backend.spec_agent_address(self.socket->Ok_0),
                    is_hybrid_vsock: backend.spec_is_hybrid_vsock(),
                    shared_fs_info: if self.capabilities == Ok::<bool, Seq<char>>(true) {
                        self.shared_fs->Ok_0
                    } else {
                        SharedFsView::not_running()
                    },
                },
            )
        }
    }

    /// What a boot on `backend` comes to: the configuration is loaded, the VM
    /// prepared, the device manager made, and the rest follows as
    /// [`Self::outcome_with_devices`] says for the devices that the backend
    /// needs. The first step that fails is the error.
    pub open spec fn outcome(self, backend: BackendKind) -> Result<TestVmView, ErrorView> {
        let vm_name = backend.spec_vm_name();
        match self.config {
            Err(detail) => boot_failure(Operation::LoadConfig, backend.spec_config_path(), detail),
            Ok((image, vm_rootfs_driver)) => if let Err(detail) = self.prepare {
                boot_failure(Operation::Prepare, vm_name, detail)
            } else if let Err(detail) = self.device_manager {
                boot_failure(Operation::CreateDeviceManager, vm_name, detail)
            } else {
                self.outcome_with_devices(
                    backend,
                    backend.spec_mandatory_devices(image, vm_rootfs_driver),
                    0,
                )
            },
        }
    }

    /// How far the VM has come when a boot on `backend` ends.
    pub open spec fn reached(self, backend: BackendKind) -> VmState {
        match self.config {
            Err(_) => VmState::Unconfigured,
            Ok((image, vm_rootfs_driver)) => {
                let devices = backend.spec_mandatory_devices(image, vm_rootfs_driver);
                if self.prepare is Err {
                    VmState::Unconfigured
                } else if self.device_manager is Err || self.attach_failure(
                    devices.len() as int,
                    0,
                ) is Some || self.capabilities is Err || (self.capabilities == Ok::<
                    bool,
                    Seq<char>,
                >(true) && self.shared_fs is Err) {
                    VmState::Configured
                } else if self.start is Err {
                    VmState::DevicesAttached
                } else {
                    VmState::Running
                }
            },
        }
    }
}

/// The error of a boot in which `operation` failed.
pub open spec fn boot_failure(operation: Operation, subject: Seq<char>, detail: Seq<char>) -> Result<
    TestVmView,
    ErrorView,
> {
    Err(ErrorView::Outside(FailureView { operation, subject, detail }))
}

/// The state and the last action of a boot that goes on from `action` while
/// the outside answers each action as `answers` says. `fuel` bounds the
/// number of actions.
pub open spec fn drive_boot(
    state: BootView,
    action: BootActionView,
    answers: BootAnswers,
    fuel: nat,
) -> (BootView, BootActionView)
    decreases fuel,
{
    if fuel == 0 || action is Done {
        (state, action)
    } else {
        let next = state.step(answers.respond(state, action));
        drive_boot(next.0, next.1, answers, (fuel - 1) as nat)
    }
}

proof fn lemma_boot_after_devices(state: BootView, answers: BootAnswers, fuel: nat)
    requires
        state.phase != BootPhase::Finished,
        state.vm_state == VmState::Configured,
        state.shared_fs == SharedFsView::not_running(),
        answers.attach_failure(state.devices.len() as int, state.next_device as int) is None,
        state.next_device >= state.devices.len(),
        fuel >= 4,
    ensures
        ({
            let end = drive_boot(state.attach_next().0, state.attach_next().1, answers, fuel);
            &&& end.1 == BootActionView::Done(
                answers.outcome_with_devices(state.backend, state.devices, state.next_device as int),
            )
            &&& end.0.vm_state == (if answers.capabilities is Err || (answers.capabilities == Ok::<
                bool,
                Seq<char>,
            >(true) && answers.shared_fs is Err) {
                VmState::Configured
            } else if answers.start is Err {
                VmState::DevicesAttached
            } else {
                VmState::Running
            })
        }),
{
    let s0 = state.attach_next().0;
    let a0 = state.attach_next().1;
    assert(a0 == BootActionView::QueryCapabilities);
    let n1 = s0.step(answers.respond(s0, a0));
    assert(drive_boot(s0, a0, answers, fuel) == drive_boot(n1.0, n1.1, answers, (fuel - 1) as nat));
    let n2 = n1.0.step(answers.respond(n1.0, n1.1));
    assert(drive_boot(n1.0, n1.1, answers, (fuel - 1) as nat) == if n1.1 is Done {
        n1
    } else {
        drive_boot(n2.0, n2.1, answers, (fuel - 2) as nat)
    });
    let n3 = n2.0.step(answers.respond(n2.0, n2.1));
    assert(drive_boot(n2.0, n2.1, answers, (fuel - 2) as nat) == if n2.1 is Done {
        n2
    } else {
        drive_boot(n3.0, n3.1, answers, (fuel - 3) as nat)
    });
    let n4 = n3.0.step(answers.respond(n3.0, n3.1));
    assert(drive_boot(n3.0, n3.1, answers, (fuel - 3) as nat) == if n3.1 is Done {
        n3
    } else {
        drive_boot(n4.0, n4.1, answers, (fuel - 4) as nat)
    });
    assert(!(n1.1 is Done) && !(n2.1 is Done) && !(n3.1 is Done) ==> n4.1 is Done);
}

proof fn lemma_boot_attaches(state: BootView, answers: BootAnswers, fuel: nat)
    requires
        state.phase != BootPhase::Finished,
        state.vm_state == VmState::Configured,
        state.shared_fs == SharedFsView::not_running(),
        state.next_device <= state.devices.len(),
        fuel >= 4 + (state.devices.len() - state.next_device),
    ensures
        ({
            let end = drive_boot(state.attach_next().0, state.attach_next().1, answers, fuel);
            &&& end.1 == BootActionView::Done(
                answers.outcome_with_devices(state.backend, state.devices, state.next_device as int),
            )
            &&& end.0.vm_state == (if answers.attach_failure(
                state.devices.len() as int,
                state.next_device as int,
            ) is Some || answers.capabilities is Err || (answers.capabilities == Ok::<
                bool,
                Seq<char>,
            >(true) && answers.shared_fs is Err) {
                VmState::Configured
            } else if answers.start is Err {
                VmState::DevicesAttached
            } else {
                VmState::Running
            })
        }),
    decreases state.devices.len() - state.next_device,
{
    if state.next_device >= state.devices.len() {
        lemma_boot_after_devices(state, answers, fuel);
    } else {
        let s0 = state.attach_next().0;
        let a0 = state.attach_next().1;
        let n1 = s0.step(answers.respond(s0, a0));
        assert(drive_boot(s0, a0, answers, fuel) == drive_boot(
            n1.0,
            n1.1,
            answers,
            (fuel - 1) as nat,
        ));
        match (answers.attach)(state.next_device as int) {
            Err(_) => {},
            Ok(_) => {
                let after = BootView { next_device: state.next_device + 1, ..s0 };
                assert(n1 == after.attach_next());
                lemma_boot_attaches(after, answers, (fuel - 1) as nat);
            },
        }
    }
}

/// A boot carries out its steps in one fixed order and ends at the first
/// that fails: it comes to what [`BootAnswers::outcome`] says, and the VM
/// has then come as far as [`BootAnswers::reached`] says. In particular the
/// VM is not started unless every device was attached and, where the
/// hypervisor can share a file system, the helper for it runs.
pub proof fn boot_runs_to_its_outcome(backend: BackendKind, answers: BootAnswers)
    ensures
        ({
            let start = BootView::start(backend);
            let end = drive_boot(start.0, start.1, answers, 9);
            &&& end.1 == BootActionView::Done(answers.outcome(backend))
            &&& end.0.vm_state == answers.reached(backend)
        }),
{
    let start = BootView::start(backend);
    let n1 = start.0.step(answers.respond(start.0, start.1));
    assert(drive_boot(start.0, start.1, answers, 9) == drive_boot(n1.0, n1.1, answers, 8));
    if let Ok((image, vm_rootfs_driver)) = answers.config {
        let devices = backend.spec_mandatory_devices(image, vm_rootfs_driver);
        assert(devices.len() <= 2);
        let n2 = n1.0.step(answers.respond(n1.0, n1.1));
        assert(drive_boot(n1.0, n1.1, answers, 8) == drive_boot(n2.0, n2.1, answers, 7));
        if answers.prepare is Ok {
            let n3 = n2.0.step(answers.respond(n2.0, n2.1));
            assert(drive_boot(n2.0, n2.1, answers, 7) == drive_boot(n3.0, n3.1, answers, 6));
            if answers.device_manager is Ok {
                assert(n3 == n2.0.attach_next());
                lemma_boot_attaches(n2.0, answers, 6);
            }
        }
    }
}

/// On either backend, a boot in which no step fails ends with a running VM,
/// and the shutdown that follows it, if no step of it fails either, ends
/// with success and a stopped VM. The shutdown stops the helper of the
/// shared file system exactly if the boot started one, and stops it before
/// the VM.
pub proof fn boot_then_shutdown_succeeds(backend: BackendKind, answers: BootAnswers)
    requires
        answers.config is Ok,
        answers.prepare is Ok,
        answers.device_manager is Ok,
        forall|i: int| (#[trigger] (answers.attach)(i)) is Ok,
        answers.capabilities is Ok,
        answers.shared_fs is Ok,
        answers.start is Ok,
        answers.socket is Ok,
    ensures
        ({
            let start = BootView::start(backend);
            let end = drive_boot(start.0, start.1, answers, 9);
            &&& end.0.vm_state == VmState::Running
            &&& end.1 matches BootActionView::Done(Ok(vm))
            &&& vm.backend == backend
            &&& vm.socket_addr == backend.spec_agent_address(answers.socket->Ok_0)
            &&& vm.is_hybrid_vsock == backend.spec_is_hybrid_vsock()
            &&& ({
                let first = ShutdownView::start(vm);
                if vm.shared_fs_info.pid > 0 {
                    let second = first.0.step(Ok(()));
                    let last = second.0.step(Ok(()));
                    &&& answers.capabilities == Ok::<bool, Seq<char>>(true)
                    &&& first.1 == ShutdownActionView::StopSharedFs(vm.shared_fs_info)
                    &&& second.1 == ShutdownActionView::StopVm
                    &&& last.1 == ShutdownActionView::Done(Ok(()))
                    &&& last.0.vm_state == VmState::Stopped
                } else {
                    let last = first.0.step(Ok(()));
                    &&& first.1 == ShutdownActionView::StopVm
                    &&& last.1 == ShutdownActionView::Done(Ok(()))
                    &&& last.0.vm_state == VmState::Stopped
                }
            })
        }),
{
    boot_runs_to_its_outcome(backend, answers);
    let devices = backend.spec_mandatory_devices(answers.config->Ok_0.0, answers.config->Ok_0.1);
    lemma_no_attach_failure(answers, devices.len() as int, 0);
}

proof fn lemma_no_attach_failure(answers: BootAnswers, count: int, from: int)
    requires
        forall|i: int| (#[trigger] (answers.attach)(i)) is Ok,
    ensures
        answers.attach_failure(count, from) is None,
    decreases count - from,
{
    if from < count {
        assert((answers.attach)(from) is Ok);
        lemma_no_attach_failure(answers, count, from + 1);
    }
}

/// The VM goes through its states in one order: unconfigured, configured,
/// devices attached, running, stopped. A step of a boot leaves the VM in its
/// state or moves it to the next one, and never stops it; a boot starts with
/// an unconfigured VM.
pub proof fn boot_moves_the_vm_forward(state: BootView, event: BootEventView)
    requires
        state.consistent(),
    ensures
        state.step(event).0.consistent(),
        state.step(event).0.vm_state == state.vm_state || state.step(event).0.vm_state.rank()
            == state.vm_state.rank() + 1,
        forall|backend: BackendKind| #[trigger]
            BootView::start(backend).0.consistent() && BootView::start(backend).0.vm_state
                == VmState::Unconfigured,
{
}

/// A shutdown starts from a running VM, and a step of it leaves the VM
/// running or stops it.
pub proof fn shutdown_moves_the_vm_forward(
    vm: TestVmView,
    state: ShutdownView,
    outcome: Result<(), Seq<char>>,
)
    requires
        state.consistent(),
    ensures
        ShutdownView::start(vm).0.consistent(),
        ShutdownView::start(vm).0.vm_state == VmState::Running,
        state.step(outcome).0.consistent(),
        state.step(outcome).0.vm_state == state.vm_state || (state.vm_state == VmState::Running
            && state.step(outcome).0.vm_state == VmState::Stopped),
{
}

/// A shutdown asks to stop the VM whatever became of the helper of the
/// shared file system, and fails with the first step that failed.
pub proof fn shutdown_tries_both_steps(
    vm: TestVmView,
    helper: Result<(), Seq<char>>,
    hypervisor: Result<(), Seq<char>>,
)
    requires
        vm.shared_fs_info.pid > 0,
    ensures
        ({
            let first = ShutdownView::start(vm);
            let second = first.0.step(helper);
            let last = second.0.step(hypervisor);
            let vm_name = vm.backend.spec_vm_name();
            &&& first.1 == ShutdownActionView::StopSharedFs(vm.shared_fs_info)
            &&& second.1 == ShutdownActionView::StopVm
            &&& last.1 == ShutdownActionView::Done(
                match (helper, hypervisor) {
                    (Err(detail), _) => Err(
                        ErrorView::Outside(
                            FailureView {
                                operation: Operation::StopSharedFs,
                                subject: vm_name,
                                detail,
                            },
                        ),
                    ),
                    (Ok(_), Err(detail)) => Err(
                        ErrorView::Outside(
                            FailureView { operation: Operation::StopVm, subject: vm_name, detail },
                        ),
                    ),
                    (Ok(_), Ok(_)) => Ok(()),
                },
            )
            &&& last.0.vm_state == (if hypervisor is Ok {
                VmState::Stopped
            } else {
                VmState::Running
            })
        }),
{
}

} // verus!
