use agent_ctl::device::{BlockConfig, FileStat, VsockConfig, ANY_GUEST_CID};

#[test]
fn block_special_file_is_recognised() {
    let stat = FileStat { mode: 0o060660, rdev: 0x707 };
    assert!(stat.is_block_special());
    assert!(!stat.is_directory());
}

#[test]
fn directory_is_recognised() {
    let stat = FileStat { mode: 0o040755, rdev: 0 };
    assert!(stat.is_directory());
    assert!(!stat.is_block_special());
}

#[test]
fn other_file_types_are_neither() {
    for mode in [0o100644u32, 0o020620, 0o010644, 0o120777, 0o140755, 0o000644] {
        let stat = FileStat { mode, rdev: 0 };
        assert!(!stat.is_block_special(), "mode {:o}", mode);
        assert!(!stat.is_directory(), "mode {:o}", mode);
    }
}

#[test]
fn file_type_ignores_permission_bits() {
    assert!(FileStat { mode: 0o060000, rdev: 0 }.is_block_special());
    assert!(FileStat { mode: 0o067777, rdev: 0 }.is_block_special());
    assert!(FileStat { mode: 0o047777, rdev: 0 }.is_directory());
}

#[test]
fn device_numbers_are_picked_out_of_rdev() {
    let stat = FileStat { mode: 0o060660, rdev: nix::sys::stat::makedev(7, 5) };
    assert_eq!(stat.major(), 7);
    assert_eq!(stat.minor(), 5);
    let stat = FileStat { mode: 0o060660, rdev: 0x0803 };
    assert_eq!(stat.major(), 8);
    assert_eq!(stat.minor(), 3);
}

#[test]
fn large_device_numbers_are_picked_out_of_rdev() {
    let stat = FileStat { mode: 0o060660, rdev: nix::sys::stat::makedev(0x12345, 0x6789a) };
    assert_eq!(stat.major(), 0x12345);
    assert_eq!(stat.minor(), 0x6789a);
    let all = FileStat { mode: 0o060660, rdev: u64::MAX };
    assert_eq!(all.major(), 0xffff_ffff);
    assert_eq!(all.minor(), 0xffff_ffff);
}

#[test]
fn block_config_by_numbers_is_writable_and_pathless() {
    let stat = FileStat { mode: 0o060660, rdev: nix::sys::stat::makedev(7, 7) };
    assert_eq!(
        BlockConfig::by_numbers(&stat, "virtio-blk-pci".to_string()),
        BlockConfig {
            path_on_host: String::new(),
            is_readonly: false,
            driver_option: "virtio-blk-pci".to_string(),
            major: 7,
            minor: 7,
        }
    );
}

#[test]
fn block_config_for_image_is_read_only() {
    assert_eq!(
        BlockConfig::read_only_image("/img/kata.img".to_string(), "virtio-pmem".to_string()),
        BlockConfig {
            path_on_host: "/img/kata.img".to_string(),
            is_readonly: true,
            driver_option: "virtio-pmem".to_string(),
            major: 0,
            minor: 0,
        }
    );
}

#[test]
fn vsock_for_any_guest_uses_the_wildcard_cid() {
    assert_eq!(VsockConfig::any_guest().guest_cid, 0xFFFF_FFFF);
    assert_eq!(VsockConfig::any_guest().guest_cid, libc::VMADDR_CID_ANY);
    assert_eq!(ANY_GUEST_CID, libc::VMADDR_CID_ANY);
}
