use agent_ctl::backend::BackendKind;
use agent_ctl::error::{Error, Failure, Operation};
use agent_ctl::lifecycle::{SharedFs, TestVm};
use agent_ctl::rpc::{rewrite_hybrid_vsock_address, run, Config, RunAction, RunEvent};

fn config(hypervisor_name: &str) -> Config {
    Config {
        server_address: "vsock://3:1024".to_string(),
        hybrid_vsock: false,
        hypervisor_name: hypervisor_name.to_string(),
    }
}

fn vm(backend: BackendKind, socket_addr: &str) -> TestVm {
    TestVm {
        backend,
        socket_addr: socket_addr.to_string(),
        is_hybrid_vsock: backend.is_hybrid_vsock(),
        shared_fs_info: SharedFs { pid: 0, mount_tag: String::new() },
    }
}

#[test]
fn hybrid_vsock_address_gets_the_unix_scheme() {
    assert_eq!(
        rewrite_hybrid_vsock_address("hvsock:///run/vm/kata.hvsock"),
        Some("unix:///run/vm/kata.hvsock".to_string())
    );
}

#[test]
fn address_without_separator_has_no_target() {
    assert_eq!(rewrite_hybrid_vsock_address("/run/vm/kata.hvsock"), None);
    assert_eq!(rewrite_hybrid_vsock_address(""), None);
    assert_eq!(rewrite_hybrid_vsock_address(":/"), None);
    assert_eq!(rewrite_hybrid_vsock_address("a:/b"), None);
}

#[test]
fn only_the_second_field_is_taken() {
    assert_eq!(rewrite_hybrid_vsock_address("a://b://c"), Some("unix://b".to_string()));
    assert_eq!(rewrite_hybrid_vsock_address("a://"), Some("unix://".to_string()));
    assert_eq!(rewrite_hybrid_vsock_address("://x"), Some("unix://x".to_string()));
    assert_eq!(rewrite_hybrid_vsock_address("://://"), Some("unix://".to_string()));
    assert_eq!(rewrite_hybrid_vsock_address(":/://"), Some("unix://".to_string()));
    assert_eq!(rewrite_hybrid_vsock_address("a:///"), Some("unix:///".to_string()));
}

#[test]
fn second_field_matches_what_split_gives() {
    for address in ["hvsock:///a/b", "x://y://z", "é://ü/ß://q", "a://b:/c", "::////"] {
        let fields: Vec<&str> = address.split("://").collect();
        assert_eq!(
            rewrite_hybrid_vsock_address(address),
            Some(format!("unix://{}", fields[1])),
            "address {}",
            address
        );
    }
}

#[test]
fn run_without_hypervisor_only_runs_the_client() {
    let (state, action) = run(config(""));
    assert_eq!(action, RunAction::Client(config("")));
    assert!(!state.is_finished());
    let (state, action) = state.step(RunEvent::ClientReturned(Ok(())));
    assert_eq!(action, RunAction::Done(Ok(())));
    assert!(state.is_finished());
}

#[test]
fn run_without_hypervisor_returns_the_clients_error() {
    let (state, _) = run(config(""));
    let (_, action) = state.step(RunEvent::ClientReturned(Err("refused".to_string())));
    assert_eq!(
        action,
        RunAction::Done(Err(Error::Outside(Failure {
            operation: Operation::RunCommands,
            subject: "vsock://3:1024".to_string(),
            detail: "refused".to_string(),
        })))
    );
}

#[test]
fn run_boots_rewrites_the_address_and_stops_the_vm() {
    let (state, action) = run(config("clh"));
    assert_eq!(action, RunAction::Boot { hypervisor_name: "clh".to_string() });
    let booted = vm(BackendKind::CloudHypervisor, "hvsock:///run/vm/kata.hvsock");
    let (state, action) = state.step(RunEvent::Booted(Ok(booted.clone())));
    assert_eq!(
        action,
        RunAction::Client(Config {
            server_address: "unix:///run/vm/kata.hvsock".to_string(),
            hybrid_vsock: true,
            hypervisor_name: "clh".to_string(),
        })
    );
    let (state, action) = state.step(RunEvent::ClientReturned(Ok(())));
    assert_eq!(action, RunAction::Stop(booted));
    let (state, action) = state.step(RunEvent::Stopped(Ok(())));
    assert_eq!(action, RunAction::Done(Ok(())));
    assert!(state.is_finished());
}

#[test]
fn run_keeps_the_configured_address_for_plain_vsock() {
    let (state, _) = run(config("qemu"));
    let booted = vm(BackendKind::Qemu, "vsock://3:1024");
    let (_, action) = state.step(RunEvent::Booted(Ok(booted)));
    assert_eq!(action, RunAction::Client(config("qemu")));
}

#[test]
fn run_stops_the_vm_even_if_the_client_fails() {
    let (state, _) = run(config("qemu"));
    let booted = vm(BackendKind::Qemu, "vsock://3:1024");
    let (state, _) = state.step(RunEvent::Booted(Ok(booted.clone())));
    let (state, action) = state.step(RunEvent::ClientReturned(Err("command failed".to_string())));
    assert_eq!(action, RunAction::Stop(booted));
    let (_, action) = state.step(RunEvent::Stopped(Ok(())));
    assert_eq!(action, RunAction::Done(Ok(())));
}

#[test]
fn run_returns_what_the_shutdown_came_to() {
    let (state, _) = run(config("qemu"));
    let (state, _) = state.step(RunEvent::Booted(Ok(vm(BackendKind::Qemu, "vsock://3:1024"))));
    let (state, _) = state.step(RunEvent::ClientReturned(Ok(())));
    let failure = Error::Outside(Failure {
        operation: Operation::StopVm,
        subject: "qemu-test-vm".to_string(),
        detail: "api down".to_string(),
    });
    let (_, action) = state.step(RunEvent::Stopped(Err(failure)));
    assert_eq!(
        action,
        RunAction::Done(Err(Error::Outside(Failure {
            operation: Operation::StopVm,
            subject: "qemu-test-vm".to_string(),
            detail: "api down".to_string(),
        })))
    );
}

#[test]
fn run_without_socket_address_stops_the_vm_at_once() {
    let (state, _) = run(config("clh"));
    let booted = vm(BackendKind::CloudHypervisor, "");
    let (state, action) = state.step(RunEvent::Booted(Ok(booted.clone())));
    assert_eq!(action, RunAction::Stop(booted));
    let (state, action) = state.step(RunEvent::Stopped(Ok(())));
    assert_eq!(action, RunAction::Done(Ok(())));
    assert!(state.is_finished());
}

#[test]
fn run_with_malformed_hybrid_address_stops_the_vm_and_fails() {
    let (state, _) = run(config("clh"));
    let booted = vm(BackendKind::CloudHypervisor, "/run/vm/kata.hvsock");
    let (state, action) = state.step(RunEvent::Booted(Ok(booted.clone())));
    assert_eq!(action, RunAction::Stop(booted));
    let (_, action) = state.step(RunEvent::Stopped(Ok(())));
    match action {
        RunAction::Done(Err(error)) => {
            assert_eq!(
                error,
                Error::MalformedSocketAddress { address: "/run/vm/kata.hvsock".to_string() }
            );
            assert_eq!(error.message(), "Malformed socket address: /run/vm/kata.hvsock");
        }
        other => panic!("unexpected action {:?}", other),
    }
}

#[test]
fn run_returns_the_error_of_a_failed_boot() {
    let (state, _) = run(config("xen"));
    let error = Error::UnsupportedHypervisor { name: "xen".to_string() };
    let (state, action) = state.step(RunEvent::Booted(Err(error)));
    assert_eq!(
        action,
        RunAction::Done(Err(Error::UnsupportedHypervisor { name: "xen".to_string() }))
    );
    assert!(state.is_finished());
}

#[test]
fn run_rejects_event_that_answers_nothing() {
    let (state, _) = run(config("clh"));
    let (state, action) = state.step(RunEvent::Stopped(Ok(())));
    assert_eq!(action, RunAction::Done(Err(Error::UnexpectedEvent)));
    assert!(state.is_finished());
    let (_, action) = state.step(RunEvent::ClientReturned(Ok(())));
    assert_eq!(action, RunAction::Done(Err(Error::UnexpectedEvent)));
}
