//! What the device manager is asked to attach, what it reports back, and what
//! the host tells about the file behind a volume.

use vstd::prelude::*;
use vstd::string::*;

verus! {

/// The file type bits of a mode (`S_IFMT`).
pub const FILE_TYPE_MASK: u32 = 0xF000;

/// The file type of a block special file (`S_IFBLK`).
pub const BLOCK_SPECIAL: u32 = 0x6000;

/// The file type of a directory (`S_IFDIR`).
pub const DIRECTORY: u32 = 0x4000;

/// The guest context id that stands for any guest (`VMADDR_CID_ANY`).
pub const ANY_GUEST_CID: u32 = 0xFFFF_FFFF;

/// The major number held in a device number, as Linux lays it out.
pub open spec fn major_of(rdev: u64) -> u64 {
    ((rdev >> 32) & 0xffff_f000) | ((rdev >> 8) & 0x0000_0fff)
}

/// The minor number held in a device number, as Linux lays it out.
pub open spec fn minor_of(rdev: u64) -> u64 {
    ((rdev >> 12) & 0xffff_ff00) | (rdev & 0x0000_00ff)
}

/// Calls `nix::sys::stat::SFlag::from_bits_truncate` and hands back the bits
/// of the flags it made: those of `mode` that lie in the file type mask, the
/// union of all flags that `SFlag` defines.
#[verifier::external_body]
fn file_type_bits(mode: u32) -> (bits: u32)
    ensures
        bits == mode & FILE_TYPE_MASK,
{
    nix::sys::stat::SFlag::from_bits_truncate(mode).bits()
}

/// The bits of `nix::sys::stat::SFlag::S_IFBLK`, which is libc's `S_IFBLK`.
#[verifier::external_body]
fn block_special_bits() -> (bits: u32)
    ensures
        bits == BLOCK_SPECIAL,
{
    nix::sys::stat::SFlag::S_IFBLK.bits()
}

/// The bits of `nix::sys::stat::SFlag::S_IFDIR`, which is libc's `S_IFDIR`.
#[verifier::external_body]
fn directory_bits() -> (bits: u32)
    ensures
        bits == DIRECTORY,
{
    nix::sys::stat::SFlag::S_IFDIR.bits()
}

/// Calls `nix::sys::stat::major`, which picks the major number out of a
/// device number by shifts and masks.
#[verifier::external_body]
fn device_major(rdev: u64) -> (major: u64)
    ensures
        major == major_of(rdev),
{
    nix::sys::stat::major(rdev)
}

/// Calls `nix::sys::stat::minor`, which picks the minor number out of a
/// device number by shifts and masks.
#[verifier::external_body]
fn device_minor(rdev: u64) -> (minor: u64)
    ensures
        minor == minor_of(rdev),
{
    nix::sys::stat::minor(rdev)
}

/// Reads libc's `VMADDR_CID_ANY`.
#[verifier::external_body]
fn any_guest_cid() -> (cid: u32)
    ensures
        cid == ANY_GUEST_CID,
{
    libc::VMADDR_CID_ANY
}

/// What the host reports of a file: its mode and, for a device, its number.
#[derive(Clone, Copy, Debug, PartialEq, Eq, Structural)]
pub struct FileStat {
    pub mode: u32,
    pub rdev: u64,
}

impl FileStat {
    /// Whether the file is a block special file.
    pub open spec fn spec_is_block_special(self) -> bool {
        self.mode & FILE_TYPE_MASK == BLOCK_SPECIAL
    }

    /// Whether the file is a directory.
    pub open spec fn spec_is_directory(self) -> bool {
        self.mode & FILE_TYPE_MASK == DIRECTORY
    }

    /// The major number of the device, as a signed number.
    pub open spec fn spec_major(self) -> i64 {
        major_of(self.rdev) as i64
    }

    /// The minor number of the device, as a signed number.
    pub open spec fn spec_minor(self) -> i64 {
        minor_of(self.rdev) as i64
    }

    /// Whether the file is a block special file.
    pub fn is_block_special(&self) -> (yes: bool)
        ensures
            yes == self.spec_is_block_special(),
    {
        file_type_bits(self.mode) == block_special_bits()
    }

    /// Whether the file is a directory.
    pub fn is_directory(&self) -> (yes: bool)
        ensures
            yes == self.spec_is_directory(),
    {
        file_type_bits(self.mode) == directory_bits()
    }

    /// The major number of the device.
    pub fn major(&self) -> (major: i64)
        ensures
            major == self.spec_major(),
            0 <= major <= 0xffff_ffff,
    {
        let major: u64 = device_major(self.rdev);
        let rdev: u64 = self.rdev;
        assert(((rdev >> 32) & 0xffff_f000) | ((rdev >> 8) & 0x0000_0fff) <= 0xffff_ffff)
            by (bit_vector);
        major as i64
    }

    /// The minor number of the device.
    pub fn minor(&self) -> (minor: i64)
        ensures
            minor == self.spec_minor(),
            0 <= minor <= 0xffff_ffff,
    {
        let minor: u64 = device_minor(self.rdev);
        let rdev: u64 = self.rdev;
        assert(((rdev >> 12) & 0xffff_ff00) | (rdev & 0x0000_00ff) <= 0xffff_ffff)
            by (bit_vector);
        minor as i64
    }
}

/// A vsock device for the guest.
#[derive(Clone, Copy, Debug, PartialEq, Eq, Structural)]
pub struct VsockConfig {
    pub guest_cid: u32,
}

impl VsockConfig {
    /// A vsock device that accepts any guest context id.
    pub fn any_guest() -> (config: VsockConfig)
        ensures
            config.guest_cid == ANY_GUEST_CID,
    {
        VsockConfig { guest_cid: any_guest_cid() }
    }
}

/// A block device, named by its device numbers or by a path on the host.
#[derive(Debug, PartialEq, Eq)]
pub struct BlockConfig {
    pub path_on_host: String,
    pub is_readonly: bool,
    pub driver_option: String,
    pub major: i64,
    pub minor: i64,
}

/// The mathematical value of a [`BlockConfig`].
pub struct BlockConfigView {
    pub path_on_host: Seq<char>,
    pub is_readonly: bool,
    pub driver_option: Seq<char>,
    pub major: i64,
    pub minor: i64,
}

impl View for BlockConfig {
    type V = BlockConfigView;

    open spec fn view(&self) -> BlockConfigView {
        BlockConfigView {
            path_on_host: self.path_on_host@,
            is_readonly: self.is_readonly,
            driver_option: self.driver_option@,
            major: self.major,
            minor: self.minor,
        }
    }
}

impl Clone for BlockConfig {
    fn clone(&self) -> (copy: Self)
        ensures
            copy@ == self@,
    {
        BlockConfig {
            path_on_host: self.path_on_host.clone(),
            is_readonly: self.is_readonly,
            driver_option: self.driver_option.clone(),
            major: self.major,
            minor: self.minor,
        }
    }
}

impl BlockConfigView {
    /// The writable block device with the numbers that `stat` holds.
    pub open spec fn by_numbers(stat: FileStat, driver_option: Seq<char>) -> BlockConfigView {
        BlockConfigView {
            path_on_host: Seq::empty(),
            is_readonly: false,
            driver_option,
            major: stat.spec_major(),
            minor: stat.spec_minor(),
        }
    }

    /// The read-only block device behind an image file on the host.
    pub open spec fn read_only_image(path: Seq<char>, driver_option: Seq<char>) -> BlockConfigView {
        BlockConfigView {
            path_on_host: path,
            is_readonly: true,
            driver_option,
            major: 0,
            minor: 0,
        }
    }
}

impl BlockConfig {
    /// The writable block device with the numbers that `stat` holds.
    pub fn by_numbers(stat: &FileStat, driver_option: String) -> (config: BlockConfig)
        ensures
            config@ == BlockConfigView::by_numbers(*stat, driver_option@),
    {
        BlockConfig {
            path_on_host: String::new(),
            is_readonly: false,
            driver_option,
            major: stat.major(),
            minor: stat.minor(),
        }
    }

    /// The read-only block device behind an image file on the host.
    pub fn read_only_image(path: String, driver_option: String) -> (config: BlockConfig)
        ensures
            config@ == BlockConfigView::read_only_image(path@, driver_option@),
    {
        BlockConfig { path_on_host: path, is_readonly: true, driver_option, major: 0, minor: 0 }
    }
}

/// A device that the device manager is asked to attach.
#[derive(Debug, PartialEq, Eq)]
pub enum DeviceConfig {
    VsockCfg(VsockConfig),
    BlockCfg(BlockConfig),
}

/// The mathematical value of a [`DeviceConfig`].
pub enum DeviceConfigView {
    VsockCfg(VsockConfig),
    BlockCfg(BlockConfigView),
}

impl View for DeviceConfig {
    type V = DeviceConfigView;

    open spec fn view(&self) -> DeviceConfigView {
        match self {
            DeviceConfig::VsockCfg(config) => DeviceConfigView::VsockCfg(*config),
            DeviceConfig::BlockCfg(config) => DeviceConfigView::BlockCfg(config@),
        }
    }
}

impl DeepView for DeviceConfig {
    type V = DeviceConfigView;

    open spec fn deep_view(&self) -> DeviceConfigView {
        self@
    }
}

impl Clone for DeviceConfig {
    fn clone(&self) -> (copy: Self)
        ensures
            copy@ == self@,
    {
        match self {
            DeviceConfig::VsockCfg(config) => DeviceConfig::VsockCfg(*config),
            DeviceConfig::BlockCfg(config) => DeviceConfig::BlockCfg(config.clone()),
        }
    }
}

/// What the device manager reports of a device that it attached.
#[derive(Debug, PartialEq, Eq)]
pub enum AttachedDevice {
    /// A block device, with the path by which the guest addresses it, if any.
    Block { device_id: String, pci_path: Option<String> },
    /// A device of another kind.
    Other,
}

/// The mathematical value of an [`AttachedDevice`].
pub enum AttachedDeviceView {
    Block { device_id: Seq<char>, pci_path: Option<Seq<char>> },
    Other,
}

impl View for AttachedDevice {
    type V = AttachedDeviceView;

    open spec fn view(&self) -> AttachedDeviceView {
        match self {
            AttachedDevice::Block { device_id, pci_path } => AttachedDeviceView::Block {
                device_id: device_id@,
                pci_path: match pci_path {
                    Some(path) => Some(path@),
                    None => None,
                },
            },
            AttachedDevice::Other => AttachedDeviceView::Other,
        }
    }
}

} // verus!
