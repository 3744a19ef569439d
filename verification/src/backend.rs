//! The hypervisor backends that the harness can drive, and what differs
//! between them.

use crate::device::{BlockConfig, BlockConfigView, DeviceConfig, DeviceConfigView, VsockConfig, ANY_GUEST_CID};
use crate::error::{Error, ErrorView};
use crate::text::same_text;
use vstd::prelude::*;
use vstd::string::*;

verus! {

/// Name under which Cloud Hypervisor is selected.
pub const CLH_HYP: &'static str = "clh";

/// Name under which Qemu is selected.
pub const QEMU_HYP: &'static str = "qemu";

/// Section of the configuration that holds Cloud Hypervisor's settings.
pub const HYPERVISOR_NAME_CH: &'static str = "cloud-hypervisor";

/// Name of the test VM under Cloud Hypervisor.
pub const CLH_VM_NAME: &'static str = "clh-test-vm";

/// Name of the test VM under Qemu.
pub const QEMU_VM_NAME: &'static str = "qemu-test-vm";

/// Configuration file read for Cloud Hypervisor.
pub const CLH_CONFIG_PATH: &'static str = "/tmp/configuration-clh-test.toml";

/// Configuration file read for Qemu.
pub const QEMU_CONFIG_PATH: &'static str = "/tmp/configuration-qemu-test.toml";

/// What is appended to a plain vsock address: the port on which the agent
/// listens.
pub const AGENT_PORT_SUFFIX: &'static str = ":1024";

/// A hypervisor backend.
#[derive(Clone, Copy, Debug, PartialEq, Eq, Structural)]
pub enum BackendKind {
    CloudHypervisor,
    Qemu,
}

impl BackendKind {
    /// The backend that goes by `name`, if there is one.
    pub open spec fn spec_from_name(name: Seq<char>) -> Option<BackendKind> {
        if name == CLH_HYP@ {
            Some(BackendKind::CloudHypervisor)
        } else if name == QEMU_HYP@ {
            Some(BackendKind::Qemu)
        } else {
            None
        }
    }

    /// The name under which the backend is selected.
    pub open spec fn spec_name(self) -> Seq<char> {
        match self {
            BackendKind::CloudHypervisor => CLH_HYP@,
            BackendKind::Qemu => QEMU_HYP@,
        }
    }

    /// The name that the backend gives its test VM.
    pub open spec fn spec_vm_name(self) -> Seq<char> {
        match self {
            BackendKind::CloudHypervisor => CLH_VM_NAME@,
            BackendKind::Qemu => QEMU_VM_NAME@,
        }
    }

    /// The configuration file that is read for the backend.
    pub open spec fn spec_config_path(self) -> Seq<char> {
        match self {
            BackendKind::CloudHypervisor => CLH_CONFIG_PATH@,
            BackendKind::Qemu => QEMU_CONFIG_PATH@,
        }
    }

    /// The section of the configuration that holds the backend's settings.
    pub open spec fn spec_config_section(self) -> Seq<char> {
        match self {
            BackendKind::CloudHypervisor => HYPERVISOR_NAME_CH@,
            BackendKind::Qemu => QEMU_HYP@,
        }
    }

    /// Whether the agent is reached through a socket on the host rather than
    /// through a guest context id.
    pub open spec fn spec_is_hybrid_vsock(self) -> bool {
        self == BackendKind::CloudHypervisor
    }

    /// The address at which the agent is reached, given the address that the
    /// backend reports: a backend with plain vsock reports the guest context
    /// id alone, and the agent's port is appended to it.
    pub open spec fn spec_agent_address(self, reported: Seq<char>) -> Seq<char> {
        match self {
            BackendKind::CloudHypervisor => reported,
            BackendKind::Qemu => reported + AGENT_PORT_SUFFIX@,
        }
    }

    /// The devices that must be attached before the VM starts. Cloud
    /// Hypervisor needs none: its hybrid vsock is always there. Qemu needs a
    /// vsock device that accepts any guest and, where the guest boots from an
    /// image, that image as a read-only block device.
    pub open spec fn spec_mandatory_devices(
        self,
        image: Seq<char>,
        vm_rootfs_driver: Seq<char>,
    ) -> Seq<DeviceConfigView> {
        match self {
            BackendKind::CloudHypervisor => Seq::empty(),
            BackendKind::Qemu => {
                let vsock = DeviceConfigView::VsockCfg(VsockConfig { guest_cid: ANY_GUEST_CID });
                if image.len() == 0 {
                    seq![vsock]
                } else {
                    seq![
                        vsock,
                        DeviceConfigView::BlockCfg(
                            BlockConfigView::read_only_image(image, vm_rootfs_driver),
                        ),
                    ]
                }
            },
        }
    }

    /// Looks a backend up by its name.
    pub fn from_name(name: &str) -> (res: Result<BackendKind, Error>)
        ensures
            match Self::spec_from_name(name@) {
                Some(backend) => res == Ok::<BackendKind, Error>(backend),
                None => res matches Err(error) && error@ == (ErrorView::UnsupportedHypervisor {
                    name: name@,
                }),
            },
    {
        if same_text(name, CLH_HYP) {
            Ok(BackendKind::CloudHypervisor)
        } else if same_text(name, QEMU_HYP) {
            Ok(BackendKind::Qemu)
        } else {
            Err(Error::UnsupportedHypervisor { name: name.to_owned() })
        }
    }

    /// The name under which the backend is selected.
    pub fn name(self) -> (name: &'static str)
        ensures
            name@ == self.spec_name(),
    {
        match self {
            BackendKind::CloudHypervisor => CLH_HYP,
            BackendKind::Qemu => QEMU_HYP,
        }
    }

    /// The name that the backend gives its test VM.
    pub fn vm_name(self) -> (name: &'static str)
        ensures
            name@ == self.spec_vm_name(),
    {
        match self {
            BackendKind::CloudHypervisor => CLH_VM_NAME,
            BackendKind::Qemu => QEMU_VM_NAME,
        }
    }

    /// The configuration file that is read for the backend.
    pub fn config_path(self) -> (path: &'static str)
        ensures
            path@ == self.spec_config_path(),
    {
        match self {
            BackendKind::CloudHypervisor => CLH_CONFIG_PATH,
            BackendKind::Qemu => QEMU_CONFIG_PATH,
        }
    }

    /// The section of the configuration that holds the backend's settings.
    pub fn config_section(self) -> (section: &'static str)
        ensures
            section@ == self.spec_config_section(),
    {
        match self {
            BackendKind::CloudHypervisor => HYPERVISOR_NAME_CH,
            BackendKind::Qemu => QEMU_HYP,
        }
    }

    /// Whether the agent is reached through a socket on the host.
    pub fn is_hybrid_vsock(self) -> (hybrid: bool)
        ensures
            hybrid == self.spec_is_hybrid_vsock(),
    {
        match self {
            BackendKind::CloudHypervisor => true,
            BackendKind::Qemu => false,
        }
    }

    /// The address at which the agent is reached, given the address that the
    /// backend reports.
    pub fn agent_address(self, reported: String) -> (address: String)
        ensures
            address@ == self.spec_agent_address(reported@),
    {
        match self {
            BackendKind::CloudHypervisor => reported,
            BackendKind::Qemu => {
                let mut address = reported;
                address.append(AGENT_PORT_SUFFIX);
                address
            },
        }
    }

    /// The devices that must be attached before the VM starts, in the order
    /// in which they are attached.
    pub fn mandatory_devices(self, image: String, vm_rootfs_driver: String) -> (devices: Vec<
        DeviceConfig,
    >)
        ensures
            devices.deep_view() == self.spec_mandatory_devices(image@, vm_rootfs_driver@),
    {
        let mut devices: Vec<DeviceConfig> = Vec::new();
        match self {
            BackendKind::CloudHypervisor => {},
            BackendKind::Qemu => {
                devices.push(DeviceConfig::VsockCfg(VsockConfig::any_guest()));
                if !image.as_str().is_empty() {
                    devices.push(
                        DeviceConfig::BlockCfg(BlockConfig::read_only_image(image, vm_rootfs_driver)),
                    );
                }
            },
        }
        assert(devices.deep_view() =~= self.spec_mandatory_devices(image@, vm_rootfs_driver@));
        devices
    }
}

} // verus!
