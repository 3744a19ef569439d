use agent_ctl::backend::BackendKind;
use agent_ctl::device::{BlockConfig, DeviceConfig, VsockConfig};
use agent_ctl::error::{Error, Failure, Operation};
use agent_ctl::lifecycle::{
    boot_test_vm, stop_test_vm, Boot, BootAction, BootEvent, SharedFs, ShutdownAction, TestVm,
    VmState, VM_START_TIMEOUT,
};

fn begin(name: &str) -> (Boot, BootAction) {
    match boot_test_vm(name.to_string()) {
        Ok(started) => started,
        Err(error) => panic!("boot did not start: {:?}", error),
    }
}

fn loaded(image: &str, driver: &str) -> BootEvent {
    BootEvent::ConfigLoaded { image: image.to_string(), vm_rootfs_driver: driver.to_string() }
}

fn failed(detail: &str) -> BootEvent {
    BootEvent::Failed { detail: detail.to_string() }
}

fn outside(operation: Operation, subject: &str, detail: &str) -> Error {
    Error::Outside(Failure {
        operation,
        subject: subject.to_string(),
        detail: detail.to_string(),
    })
}

fn running_vm(backend: BackendKind, pid: u32) -> TestVm {
    TestVm {
        backend,
        socket_addr: "vsock://3:1024".to_string(),
        is_hybrid_vsock: false,
        shared_fs_info: SharedFs { pid, mount_tag: "kataShared".to_string() },
    }
}

#[test]
fn backend_names_are_looked_up() {
    assert_eq!(BackendKind::from_name("clh"), Ok(BackendKind::CloudHypervisor));
    assert_eq!(BackendKind::from_name("qemu"), Ok(BackendKind::Qemu));
    assert_eq!(
        BackendKind::from_name("firecracker"),
        Err(Error::UnsupportedHypervisor { name: "firecracker".to_string() })
    );
    assert_eq!(
        BackendKind::from_name(""),
        Err(Error::UnsupportedHypervisor { name: String::new() })
    );
}

#[test]
fn backends_differ_in_names_and_transport() {
    let clh = BackendKind::CloudHypervisor;
    let qemu = BackendKind::Qemu;
    assert_eq!(clh.name(), "clh");
    assert_eq!(qemu.name(), "qemu");
    assert_eq!(clh.vm_name(), "clh-test-vm");
    assert_eq!(qemu.vm_name(), "qemu-test-vm");
    assert_eq!(clh.config_path(), "/tmp/configuration-clh-test.toml");
    assert_eq!(qemu.config_path(), "/tmp/configuration-qemu-test.toml");
    assert_eq!(clh.config_section(), "cloud-hypervisor");
    assert_eq!(qemu.config_section(), "qemu");
    assert!(clh.is_hybrid_vsock());
    assert!(!qemu.is_hybrid_vsock());
}

#[test]
fn agent_port_is_appended_for_plain_vsock_only() {
    assert_eq!(
        BackendKind::Qemu.agent_address("vsock://3".to_string()),
        "vsock://3:1024"
    );
    assert_eq!(
        BackendKind::CloudHypervisor.agent_address("hvsock:///run/vm/kata.hvsock".to_string()),
        "hvsock:///run/vm/kata.hvsock"
    );
}

#[test]
fn mandatory_devices_depend_on_backend_and_image() {
    assert_eq!(
        BackendKind::CloudHypervisor.mandatory_devices("/img".to_string(), "drv".to_string()),
        Vec::new()
    );
    assert_eq!(
        BackendKind::Qemu.mandatory_devices(String::new(), "drv".to_string()),
        vec![DeviceConfig::VsockCfg(VsockConfig { guest_cid: 0xFFFF_FFFF })]
    );
    assert_eq!(
        BackendKind::Qemu.mandatory_devices("/img/kata.img".to_string(), "virtio-pmem".to_string()),
        vec![
            DeviceConfig::VsockCfg(VsockConfig { guest_cid: 0xFFFF_FFFF }),
            DeviceConfig::BlockCfg(BlockConfig {
                path_on_host: "/img/kata.img".to_string(),
                is_readonly: true,
                driver_option: "virtio-pmem".to_string(),
                major: 0,
                minor: 0,
            }),
        ]
    );
}

#[test]
fn unknown_backend_starts_nothing() {
    match boot_test_vm("xen".to_string()) {
        Err(error) => {
            assert_eq!(error, Error::UnsupportedHypervisor { name: "xen".to_string() });
            assert_eq!(error.message(), "Unsupported hypervisor name: xen");
        }
        Ok(started) => panic!("boot started: {:?}", started),
    }
}

#[test]
fn cloud_hypervisor_boots_with_shared_fs() {
    let (boot, action) = begin("clh");
    assert_eq!(
        action,
        BootAction::LoadConfig {
            path: "/tmp/configuration-clh-test.toml".to_string(),
            section: "cloud-hypervisor".to_string(),
        }
    );
    assert_eq!(boot.vm_state(), VmState::Unconfigured);
    let (boot, action) = boot.step(loaded("/img/kata.img", "virtio-pmem"));
    assert_eq!(action, BootAction::Prepare { vm_name: "clh-test-vm".to_string() });
    assert_eq!(boot.vm_state(), VmState::Unconfigured);
    let (boot, action) = boot.step(BootEvent::Completed);
    assert_eq!(action, BootAction::CreateDeviceManager);
    assert_eq!(boot.vm_state(), VmState::Configured);
    let (boot, action) = boot.step(BootEvent::Completed);
    assert_eq!(action, BootAction::QueryCapabilities);
    let (boot, action) = boot.step(BootEvent::Capabilities { fs_sharing: true });
    assert_eq!(action, BootAction::SetupSharedFs { vm_name: "clh-test-vm".to_string() });
    assert_eq!(boot.vm_state(), VmState::Configured);
    let record = SharedFs { pid: 4242, mount_tag: "kataShared".to_string() };
    let (boot, action) = boot.step(BootEvent::SharedFsReady(record.clone()));
    assert_eq!(action, BootAction::StartVm { timeout_ms: 10_000 });
    assert_eq!(VM_START_TIMEOUT, 10_000);
    assert_eq!(boot.vm_state(), VmState::DevicesAttached);
    let (boot, action) = boot.step(BootEvent::Completed);
    assert_eq!(action, BootAction::ReadAgentSocket);
    assert_eq!(boot.vm_state(), VmState::Running);
    assert!(!boot.is_finished());
    let (boot, action) =
        boot.step(BootEvent::AgentSocket("hvsock:///run/vm/kata.hvsock".to_string()));
    assert_eq!(
        action,
        BootAction::Done(Ok(TestVm {
            backend: BackendKind::CloudHypervisor,
            socket_addr: "hvsock:///run/vm/kata.hvsock".to_string(),
            is_hybrid_vsock: true,
            shared_fs_info: record,
        }))
    );
    assert!(boot.is_finished());
    assert_eq!(boot.vm_state(), VmState::Running);
}

#[test]
fn qemu_attaches_vsock_and_root_image_before_start() {
    let (boot, action) = begin("qemu");
    assert_eq!(
        action,
        BootAction::LoadConfig {
            path: "/tmp/configuration-qemu-test.toml".to_string(),
            section: "qemu".to_string(),
        }
    );
    let (boot, action) = boot.step(loaded("/img/kata.img", "virtio-blk-pci"));
    assert_eq!(action, BootAction::Prepare { vm_name: "qemu-test-vm".to_string() });
    let (boot, action) = boot.step(BootEvent::Completed);
    assert_eq!(action, BootAction::CreateDeviceManager);
    let (boot, action) = boot.step(BootEvent::Completed);
    assert_eq!(
        action,
        BootAction::Attach(DeviceConfig::VsockCfg(VsockConfig { guest_cid: 0xFFFF_FFFF }))
    );
    let (boot, action) = boot.step(BootEvent::Completed);
    assert_eq!(
        action,
        BootAction::Attach(DeviceConfig::BlockCfg(BlockConfig {
            path_on_host: "/img/kata.img".to_string(),
            is_readonly: true,
            driver_option: "virtio-blk-pci".to_string(),
            major: 0,
            minor: 0,
        }))
    );
    assert_eq!(boot.vm_state(), VmState::Configured);
    let (boot, action) = boot.step(BootEvent::Completed);
    assert_eq!(action, BootAction::QueryCapabilities);
    let (boot, action) = boot.step(BootEvent::Capabilities { fs_sharing: false });
    assert_eq!(action, BootAction::StartVm { timeout_ms: 10_000 });
    let (boot, action) = boot.step(BootEvent::Completed);
    assert_eq!(action, BootAction::ReadAgentSocket);
    let (boot, action) = boot.step(BootEvent::AgentSocket("vsock://3".to_string()));
    assert_eq!(
        action,
        BootAction::Done(Ok(TestVm {
            backend: BackendKind::Qemu,
            socket_addr: "vsock://3:1024".to_string(),
            is_hybrid_vsock: false,
            shared_fs_info: SharedFs { pid: 0, mount_tag: String::new() },
        }))
    );
    assert!(boot.is_finished());
}

#[test]
fn qemu_without_image_attaches_vsock_only() {
    let (boot, _) = begin("qemu");
    let (boot, _) = boot.step(loaded("", "virtio-blk-pci"));
    let (boot, _) = boot.step(BootEvent::Completed);
    let (boot, action) = boot.step(BootEvent::Completed);
    assert_eq!(
        action,
        BootAction::Attach(DeviceConfig::VsockCfg(VsockConfig { guest_cid: 0xFFFF_FFFF }))
    );
    let (_, action) = boot.step(BootEvent::Completed);
    assert_eq!(action, BootAction::QueryCapabilities);
}

#[test]
fn failed_config_load_ends_the_boot_unconfigured() {
    let (boot, _) = begin("clh");
    let (boot, action) = boot.step(failed("no such file"));
    let expected =
        outside(Operation::LoadConfig, "/tmp/configuration-clh-test.toml", "no such file");
    assert_eq!(
        expected.message(),
        "load configuration: /tmp/configuration-clh-test.toml: no such file"
    );
    assert_eq!(action, BootAction::Done(Err(expected)));
    assert!(boot.is_finished());
    assert_eq!(boot.vm_state(), VmState::Unconfigured);
}

#[test]
fn failed_prepare_is_fatal_and_not_retried() {
    let (boot, _) = begin("qemu");
    let (boot, _) = boot.step(loaded("", ""));
    let (boot, action) = boot.step(failed("kvm missing"));
    assert_eq!(
        action,
        BootAction::Done(Err(outside(Operation::Prepare, "qemu-test-vm", "kvm missing")))
    );
    assert!(boot.is_finished());
    assert_eq!(boot.vm_state(), VmState::Unconfigured);
    let (boot, action) = boot.step(BootEvent::Completed);
    assert_eq!(action, BootAction::Done(Err(Error::UnexpectedEvent)));
    assert!(boot.is_finished());
}

#[test]
fn failed_attach_ends_the_boot_before_start() {
    let (boot, _) = begin("qemu");
    let (boot, _) = boot.step(loaded("/img", "drv"));
    let (boot, _) = boot.step(BootEvent::Completed);
    let (boot, _) = boot.step(BootEvent::Completed);
    let (boot, _) = boot.step(BootEvent::Completed);
    let (boot, action) = boot.step(failed("no slot"));
    assert_eq!(
        action,
        BootAction::Done(Err(outside(Operation::AttachDevice, "qemu-test-vm", "no slot")))
    );
    assert_eq!(boot.vm_state(), VmState::Configured);
}

#[test]
fn failed_shared_fs_setup_ends_the_boot_before_start() {
    let (boot, _) = begin("clh");
    let (boot, _) = boot.step(loaded("", ""));
    let (boot, _) = boot.step(BootEvent::Completed);
    let (boot, _) = boot.step(BootEvent::Completed);
    let (boot, _) = boot.step(BootEvent::Capabilities { fs_sharing: true });
    let (boot, action) = boot.step(failed("virtiofsd not found"));
    assert_eq!(
        action,
        BootAction::Done(Err(outside(
            Operation::SetupSharedFs,
            "clh-test-vm",
            "virtiofsd not found"
        )))
    );
    assert_eq!(boot.vm_state(), VmState::Configured);
}

#[test]
fn failed_start_is_fatal() {
    let (boot, _) = begin("clh");
    let (boot, _) = boot.step(loaded("", ""));
    let (boot, _) = boot.step(BootEvent::Completed);
    let (boot, _) = boot.step(BootEvent::Completed);
    let (boot, _) = boot.step(BootEvent::Capabilities { fs_sharing: false });
    let (boot, action) = boot.step(failed("timeout"));
    assert_eq!(
        action,
        BootAction::Done(Err(outside(Operation::StartVm, "clh-test-vm", "timeout")))
    );
    assert_eq!(boot.vm_state(), VmState::DevicesAttached);
    assert!(boot.is_finished());
}

#[test]
fn boot_rejects_event_that_answers_nothing() {
    let (boot, _) = begin("clh");
    let (boot, action) = boot.step(BootEvent::Completed);
    assert_eq!(action, BootAction::Done(Err(Error::UnexpectedEvent)));
    assert!(boot.is_finished());
}

#[test]
fn shutdown_stops_helper_then_vm() {
    let (shutdown, action) = stop_test_vm(running_vm(BackendKind::CloudHypervisor, 4242));
    assert_eq!(
        action,
        ShutdownAction::StopSharedFs(SharedFs { pid: 4242, mount_tag: "kataShared".to_string() })
    );
    assert_eq!(shutdown.vm_state(), VmState::Running);
    let (shutdown, action) = shutdown.step(Ok(()));
    assert_eq!(action, ShutdownAction::StopVm);
    assert!(!shutdown.is_finished());
    let (shutdown, action) = shutdown.step(Ok(()));
    assert_eq!(action, ShutdownAction::Done(Ok(())));
    assert_eq!(shutdown.vm_state(), VmState::Stopped);
    assert!(shutdown.is_finished());
}

#[test]
fn shutdown_without_helper_stops_vm_only() {
    let (shutdown, action) = stop_test_vm(running_vm(BackendKind::Qemu, 0));
    assert_eq!(action, ShutdownAction::StopVm);
    let (shutdown, action) = shutdown.step(Ok(()));
    assert_eq!(action, ShutdownAction::Done(Ok(())));
    assert_eq!(shutdown.vm_state(), VmState::Stopped);
}

#[test]
fn shutdown_stops_vm_even_if_helper_does_not_stop() {
    let (shutdown, _) = stop_test_vm(running_vm(BackendKind::Qemu, 7));
    let (shutdown, action) = shutdown.step(Err("no such process".to_string()));
    assert_eq!(action, ShutdownAction::StopVm);
    let (shutdown, action) = shutdown.step(Ok(()));
    assert_eq!(
        action,
        ShutdownAction::Done(Err(outside(
            Operation::StopSharedFs,
            "qemu-test-vm",
            "no such process"
        )))
    );
    assert_eq!(shutdown.vm_state(), VmState::Stopped);
}

#[test]
fn shutdown_reports_the_first_of_two_failures() {
    let (shutdown, _) = stop_test_vm(running_vm(BackendKind::CloudHypervisor, 7));
    let (shutdown, _) = shutdown.step(Err("helper stuck".to_string()));
    let (shutdown, action) = shutdown.step(Err("api down".to_string()));
    assert_eq!(
        action,
        ShutdownAction::Done(Err(outside(Operation::StopSharedFs, "clh-test-vm", "helper stuck")))
    );
    assert_eq!(shutdown.vm_state(), VmState::Running);
    assert!(shutdown.is_finished());
}

#[test]
fn shutdown_reports_a_failed_vm_stop() {
    let (shutdown, _) = stop_test_vm(running_vm(BackendKind::CloudHypervisor, 0));
    let (shutdown, action) = shutdown.step(Err("api down".to_string()));
    assert_eq!(
        action,
        ShutdownAction::Done(Err(outside(Operation::StopVm, "clh-test-vm", "api down")))
    );
    assert_eq!(shutdown.vm_state(), VmState::Running);
    let (_, action) = shutdown.step(Ok(()));
    assert_eq!(action, ShutdownAction::Done(Err(Error::UnexpectedEvent)));
}

#[test]
fn boot_followed_by_shutdown_succeeds_on_every_backend() {
    for name in ["clh", "qemu"] {
        let (mut boot, mut action) = begin(name);
        let mut attached = 0;
        let vm = loop {
            let event = match action {
                BootAction::LoadConfig { .. } => loaded("/img/kata.img", "virtio-blk-pci"),
                BootAction::Prepare { .. } => BootEvent::Completed,
                BootAction::CreateDeviceManager => BootEvent::Completed,
                BootAction::Attach(_) => {
                    attached += 1;
                    BootEvent::Completed
                }
                BootAction::QueryCapabilities => BootEvent::Capabilities { fs_sharing: true },
                BootAction::SetupSharedFs { .. } => BootEvent::SharedFsReady(SharedFs {
                    pid: 99,
                    mount_tag: "kataShared".to_string(),
                }),
                BootAction::StartVm { .. } => BootEvent::Completed,
                BootAction::ReadAgentSocket => BootEvent::AgentSocket("sock://x".to_string()),
                BootAction::Done(result) => break result.unwrap(),
            };
            let next = boot.step(event);
            boot = next.0;
            action = next.1;
        };
        assert_eq!(boot.vm_state(), VmState::Running);
        assert_eq!(attached, if name == "qemu" { 2 } else { 0 });
        assert_eq!(vm.backend.name(), name);
        let (shutdown, action) = stop_test_vm(vm);
        assert!(matches!(action, ShutdownAction::StopSharedFs(_)));
        let (shutdown, action) = shutdown.step(Ok(()));
        assert_eq!(action, ShutdownAction::StopVm);
        let (shutdown, action) = shutdown.step(Ok(()));
        assert_eq!(action, ShutdownAction::Done(Ok(())));
        assert_eq!(shutdown.vm_state(), VmState::Stopped);
    }
}
