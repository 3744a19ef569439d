//! Orchestration of a disposable test VM for an agent in the guest.
//!
//! The library decides; the caller acts. Booting a VM, injecting storage
//! volumes, tearing the host shares down and shutting the VM down are each a
//! sequence of steps on the hypervisor, the device manager and the host.
//! For each of them the library hands out one action at a time and takes the
//! caller's report on it, until it hands out the result.

pub mod backend;
pub mod device;
pub mod error;
pub mod inject;
pub mod kernel_params;
pub mod lifecycle;
pub mod paths;
pub mod rpc;
pub mod storage;
pub mod teardown;
pub mod text;
