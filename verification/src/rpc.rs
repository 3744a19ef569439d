//! The entry point of a test run: boots a VM if one is asked for, points the
//! client at the agent in the guest, and stops the VM when the client is
//! done.

use crate::error::{outcome_view, Error, ErrorView, Failure, FailureView, Operation};
use crate::lifecycle::{TestVm, TestVmView};
use vstd::prelude::*;
use vstd::string::*;

verus! {

/// The scheme under which the client reaches a socket on the host.
pub const UNIX_SCHEME_PREFIX: &'static str = "unix://";

/// Whether the separator `://` starts at position `at` of `text`.
pub open spec fn separator_at(text: Seq<char>, at: int) -> bool {
    0 <= at && at + 3 <= text.len() && text[at] == ':' && text[at + 1] == '/' && text[at + 2]
        == '/'
}

/// The first position at or behind `from` at which the separator `://`
/// starts, or the length of `text` if there is none.
pub open spec fn find_separator(text: Seq<char>, from: int) -> int
    decreases text.len() - from,
{
    if from < 0 || from + 3 > text.len() {
        text.len() as int
    } else if separator_at(text, from) {
        from
    } else {
        find_separator(text, from + 1)
    }
}

/// The second of the fields into which the separator `://` splits `text`:
/// what stands between its first occurrence and the next one, or the end.
/// There is none if the separator does not occur.
pub open spec fn second_field(text: Seq<char>) -> Option<Seq<char>> {
    let first = find_separator(text, 0);
    if first >= text.len() {
        None
    } else {
        Some(text.subrange(first + 3, find_separator(text, first + 3)))
    }
}

/// The address under which the client reaches the agent through a hybrid
/// vsock: the path that the hypervisor reports, under the scheme of a socket
/// on the host.
pub open spec fn hybrid_vsock_target(socket_addr: Seq<char>) -> Option<Seq<char>> {
    match second_field(socket_addr) {
        Some(path) => Some(UNIX_SCHEME_PREFIX@ + path),
        None => None,
    }
}

/// `find_separator` gives the first occurrence: a position in range at which
/// the separator starts, with no occurrence between `from` and it; or the
/// length of the text, with no occurrence behind `from` at all.
pub proof fn find_separator_is_first(text: Seq<char>, from: int)
    requires
        0 <= from <= text.len(),
    ensures
        from <= find_separator(text, from) <= text.len(),
        find_separator(text, from) < text.len() ==> separator_at(text, find_separator(text, from)),
        forall|at: int| from <= at < find_separator(text, from) ==> !separator_at(text, at),
    decreases text.len() - from,
{
    if from + 3 <= text.len() && !separator_at(text, from) {
        find_separator_is_first(text, from + 1);
    }
}

fn find_separator_from(text: &str, from: usize) -> (at: usize)
    requires
        from <= text@.len(),
    ensures
        at == find_separator(text@, from as int),
        from <= at <= text@.len(),
{
    let len = text.unicode_len();
    let mut at = from;
    while len >= 3 && at <= len - 3
        invariant
            len == text@.len(),
            from <= at <= len,
            find_separator(text@, from as int) == find_separator(text@, at as int),
        decreases len - at,
    {
        if text.get_char(at) == ':' && text.get_char(at + 1) == '/' && text.get_char(at + 2)
            == '/' {
            return at;
        }
        at += 1;
    }
    len
}

/// Rewrites the address of a hybrid vsock for the client: `unix://` and the
/// second of the fields into which `://` splits the address. An address
/// without `://` has no such field.
pub fn rewrite_hybrid_vsock_address(socket_addr: &str) -> (target: Option<String>)
    ensures
        target.deep_view() == hybrid_vsock_target(socket_addr@),
{
    let len = socket_addr.unicode_len();
    let first = find_separator_from(socket_addr, 0);
    if first >= len {
        return None;
    }
    proof {
        find_separator_is_first(socket_addr@, 0);
    }
    let start = first + 3;
    let end = find_separator_from(socket_addr, start);
    let mut target = UNIX_SCHEME_PREFIX.to_owned();
    target.append(socket_addr.substring_char(start, end));
    Some(target)
}

/// What a run reads and sets of the client's configuration.
#[derive(Debug, PartialEq, Eq)]
pub struct Config {
    /// The address at which the client looks for the agent.
    pub server_address: String,
    /// Whether that address names a hybrid vsock.
    pub hybrid_vsock: bool,
    /// The backend on which to boot a test VM; empty if the agent already
    /// runs somewhere.
    pub hypervisor_name: String,
}

/// The mathematical value of a [`Config`].
pub struct ConfigView {
    pub server_address: Seq<char>,
    pub hybrid_vsock: bool,
    pub hypervisor_name: Seq<char>,
}

impl View for Config {
    type V = ConfigView;

    open spec fn view(&self) -> ConfigView {
        ConfigView {
            server_address: self.server_address@,
            hybrid_vsock: self.hybrid_vsock,
            hypervisor_name: self.hypervisor_name@,
        }
    }
}

impl Clone for Config {
    fn clone(&self) -> (copy: Self)
        ensures
            copy@ == self@,
    {
        Config {
            server_address: self.server_address.clone(),
            hybrid_vsock: self.hybrid_vsock,
            hypervisor_name: self.hypervisor_name.clone(),
        }
    }
}

/// What a run waits for.
#[derive(Clone, Copy, Debug, PartialEq, Eq, Structural)]
pub enum RunPhase {
    /// The client, which talks to an agent that was there before the run.
    AwaitDirectClient,
    /// The booted VM.
    AwaitBoot,
    /// The client, which talks to the agent in the booted VM.
    AwaitClient,
    /// The stopped VM.
    AwaitStop,
    /// Nothing: the run has ended.
    Finished,
}

/// What the caller reports back to a run.
#[derive(Debug, PartialEq, Eq)]
pub enum RunEvent {
    /// The VM that was booted, or why none was.
    Booted(Result<TestVm, Error>),
    /// The client is done; the error is what it reported.
    ClientReturned(Result<(), String>),
    /// The VM was shut down, or why it was not.
    Stopped(Result<(), Error>),
}

/// The mathematical value of a [`RunEvent`].
pub enum RunEventView {
    Booted(Result<TestVmView, ErrorView>),
    ClientReturned(Result<(), Seq<char>>),
    Stopped(Result<(), ErrorView>),
}

impl View for RunEvent {
    type V = RunEventView;

    open spec fn view(&self) -> RunEventView {
        match self {
            RunEvent::Booted(Ok(vm)) => RunEventView::Booted(Ok(vm@)),
            RunEvent::Booted(Err(error)) => RunEventView::Booted(Err(error@)),
            RunEvent::ClientReturned(outcome) => RunEventView::ClientReturned(
                outcome_view(*outcome),
            ),
            RunEvent::Stopped(Ok(_)) => RunEventView::Stopped(Ok(())),
            RunEvent::Stopped(Err(error)) => RunEventView::Stopped(Err(error@)),
        }
    }
}

/// What a run asks the caller to do next.
#[derive(Debug, PartialEq, Eq)]
pub enum RunAction {
    /// Boot a test VM on the backend of this name.
    Boot { hypervisor_name: String },
    /// Run the client with this configuration.
    Client(Config),
    /// Shut the VM down.
    Stop(TestVm),
    /// Stop: this is what the run came to.
    Done(Result<(), Error>),
}

/// The mathematical value of a [`RunAction`].
pub enum RunActionView {
    Boot { hypervisor_name: Seq<char> },
    Client(ConfigView),
    Stop(TestVmView),
    Done(Result<(), ErrorView>),
}

impl View for RunAction {
    type V = RunActionView;

    open spec fn view(&self) -> RunActionView {
        match self {
            RunAction::Boot { hypervisor_name } => RunActionView::Boot {
                hypervisor_name: hypervisor_name@,
            },
            RunAction::Client(cfg) => RunActionView::Client(cfg@),
            RunAction::Stop(vm) => RunActionView::Stop(vm@),
            RunAction::Done(Ok(_)) => RunActionView::Done(Ok(())),
            RunAction::Done(Err(error)) => RunActionView::Done(Err(error@)),
        }
    }
}

/// One test run.
#[derive(Debug, PartialEq, Eq)]
pub struct Run {
    cfg: Config,
    phase: RunPhase,
    vm: Option<TestVm>,
    pending: Option<Error>,
}

/// The mathematical value of a [`Run`].
pub struct RunView {
    /// The client's configuration, as the run has set it so far.
    pub cfg: ConfigView,
    pub phase: RunPhase,
    /// The VM that the run booted, while it is up.
    pub vm: Option<TestVmView>,
    /// The error to report once the VM is shut down.
    pub pending: Option<ErrorView>,
}

impl View for Run {
    type V = RunView;

    closed spec fn view(&self) -> RunView {
        RunView {
            cfg: self.cfg@,
            phase: self.phase,
            vm: match self.vm {
                Some(vm) => Some(vm@),
                None => None,
            },
            pending: match self.pending {
                Some(error) => Some(error@),
                None => None,
            },
        }
    }
}

impl RunView {
    /// The first state of a run and its first action: to boot a VM if the
    /// configuration names a backend, else to run the client as configured.
    pub open spec fn start(cfg: ConfigView) -> (RunView, RunActionView) {
        if cfg.hypervisor_name.len() == 0 {
            (
                RunView { cfg, phase: RunPhase::AwaitDirectClient, vm: None, pending: None },
                RunActionView::Client(cfg),
            )
        } else {
            (
                RunView { cfg, phase: RunPhase::AwaitBoot, vm: None, pending: None },
                RunActionView::Boot { hypervisor_name: cfg.hypervisor_name },
            )
        }
    }

    /// Ends the run with `verdict`.
    pub open spec fn finish(self, verdict: Result<(), ErrorView>) -> (RunView, RunActionView) {
        (RunView { phase: RunPhase::Finished, ..self }, RunActionView::Done(verdict))
    }

    /// Asks for the shutdown of `vm`; `pending` is reported once it is down.
    pub open spec fn stop(self, vm: TestVmView, pending: Option<ErrorView>) -> (
        RunView,
        RunActionView,
    ) {
        (
            RunView { phase: RunPhase::AwaitStop, vm: Some(vm), pending, ..self },
            RunActionView::Stop(vm),
        )
    }

    /// Asks for the client, pointed at `server_address`.
    pub open spec fn connect(self, vm: TestVmView, server_address: Seq<char>) -> (
        RunView,
        RunActionView,
    ) {
        let cfg = ConfigView { server_address, hybrid_vsock: vm.is_hybrid_vsock, ..self.cfg };
        (
            RunView { cfg, phase: RunPhase::AwaitClient, vm: Some(vm), ..self },
            RunActionView::Client(cfg),
        )
    }

    /// The answer to a VM that was booted. Without an address for the agent
    /// the VM is shut down at once. With a hybrid vsock the client is pointed
    /// at the socket on the host; an address that names none is an error,
    /// reported once the VM is shut down. With a plain vsock the client keeps
    /// the address it was configured with.
    pub open spec fn after_boot(self, vm: TestVmView) -> (RunView, RunActionView) {
        if vm.socket_addr.len() == 0 {
            self.stop(vm, None)
        } else if vm.is_hybrid_vsock {
            match hybrid_vsock_target(vm.socket_addr) {
                Some(target) => self.connect(vm, target),
                None => self.stop(
                    vm,
                    Some(ErrorView::MalformedSocketAddress { address: vm.socket_addr }),
                ),
            }
        } else {
            self.connect(vm, self.cfg.server_address)
        }
    }

    /// The answer of a run to an event: the state it moves to and what it
    /// asks for next.
    ///
    /// What the client reports against a booted VM does not fail the run:
    /// the VM is shut down, and the run comes to what the shutdown came to.
    pub open spec fn step(self, event: RunEventView) -> (RunView, RunActionView) {
        match (self.phase, event) {
            (RunPhase::AwaitDirectClient, RunEventView::ClientReturned(outcome)) => self.finish(
                match outcome {
                    Ok(_) => Ok(()),
                    Err(detail) => Err(
                        ErrorView::Outside(
                            FailureView {
                                operation: Operation::RunCommands,
                                subject: self.cfg.server_address,
                                detail,
                            },
                        ),
                    ),
                },
            ),
            (RunPhase::AwaitBoot, RunEventView::Booted(Ok(vm))) => self.after_boot(vm),
            (RunPhase::AwaitBoot, RunEventView::Booted(Err(error))) => self.finish(Err(error)),
            (RunPhase::AwaitClient, RunEventView::ClientReturned(_)) => match self.vm {
                Some(vm) => self.stop(vm, None),
                None => self.finish(Err(ErrorView::UnexpectedEvent)),
            },
            (RunPhase::AwaitStop, RunEventView::Stopped(outcome)) => RunView {
                vm: None,
                pending: None,
                ..self
            }.finish(
                match self.pending {
                    Some(error) => Err(error),
                    None => outcome,
                },
            ),
            _ => self.finish(Err(ErrorView::UnexpectedEvent)),
        }
    }
}

/// A run that boots a VM shuts it down again before it ends, whatever the
/// client reports: the shutdown is asked for right behind the boot if the
/// agent cannot be reached, and right behind the client otherwise; and the
/// run ends only when the shutdown is reported.
pub proof fn run_stops_the_vm_it_booted(
    cfg: ConfigView,
    vm: TestVmView,
    client: Result<(), Seq<char>>,
    stopped: Result<(), ErrorView>,
)
    requires
        cfg.hypervisor_name.len() > 0,
    ensures
        ({
            let begun = RunView::start(cfg);
            let booted = begun.0.step(RunEventView::Booted(Ok(vm)));
            let served = booted.0.step(RunEventView::ClientReturned(client));
            let reachable = vm.socket_addr.len() > 0 && (vm.is_hybrid_vsock ==> second_field(
                vm.socket_addr,
            ) is Some);
            &&& begun.1 == RunActionView::Boot { hypervisor_name: cfg.hypervisor_name }
            &&& if reachable {
                &&& booted.1 is Client
                &&& served.1 == RunActionView::Stop(vm)
                &&& served.0.step(RunEventView::Stopped(stopped)).1 == RunActionView::Done(stopped)
            } else {
                &&& booted.1 == RunActionView::Stop(vm)
                &&& booted.0.step(RunEventView::Stopped(stopped)).1 is Done
            }
        }),
{
}

/// Starts a test run and tells what to do first.
pub fn run(cfg: Config) -> (res: (Run, RunAction))
    ensures
        (res.0@, res.1@) == RunView::start(cfg@),
{
    if cfg.hypervisor_name.as_str().is_empty() {
        let action = RunAction::Client(cfg.clone());
        (Run { cfg, phase: RunPhase::AwaitDirectClient, vm: None, pending: None }, action)
    } else {
        let action = RunAction::Boot { hypervisor_name: cfg.hypervisor_name.clone() };
        (Run { cfg, phase: RunPhase::AwaitBoot, vm: None, pending: None }, action)
    }
}

impl Run {
    /// Whether the run has ended.
    pub fn is_finished(&self) -> (finished: bool)
        ensures
            finished == (self@.phase == RunPhase::Finished),
    {
        match self.phase {
            RunPhase::Finished => true,
            _ => false,
        }
    }

    fn finish(self, verdict: Result<(), Error>) -> (res: (Run, RunAction))
        ensures
            res.0@ == self@.finish(Ok(())).0,
            res.1@ == RunActionView::Done(
                match verdict {
                    Ok(_) => Ok(()),
                    Err(error) => Err(error@),
                },
            ),
    {
        let mut run = self;
        run.phase = RunPhase::Finished;
        (run, RunAction::Done(verdict))
    }

    fn stop(self, vm: TestVm, pending: Option<Error>) -> (res: (Run, RunAction))
        ensures
            (res.0@, res.1@) == self@.stop(
                vm@,
                match pending {
                    Some(error) => Some(error@),
                    None => None,
                },
            ),
    {
        let mut run = self;
        run.phase = RunPhase::AwaitStop;
        run.vm = Some(vm.clone());
        run.pending = pending;
        (run, RunAction::Stop(vm))
    }

    fn connect(self, vm: TestVm, server_address: String) -> (res: (Run, RunAction))
        ensures
            (res.0@, res.1@) == self@.connect(vm@, server_address@),
    {
        let mut run = self;
        run.cfg.server_address = server_address;
        run.cfg.hybrid_vsock = vm.is_hybrid_vsock;
        run.phase = RunPhase::AwaitClient;
        run.vm = Some(vm);
        let cfg = run.cfg.clone();
        (run, RunAction::Client(cfg))
    }

    fn after_boot(self, vm: TestVm) -> (res: (Run, RunAction))
        ensures
            (res.0@, res.1@) == self@.after_boot(vm@),
    {
        if vm.socket_addr.as_str().is_empty() {
            self.stop(vm, None)
        } else if vm.is_hybrid_vsock {
            match rewrite_hybrid_vsock_address(vm.socket_addr.as_str()) {
                Some(target) => self.connect(vm, target),
                None => {
                    let address = vm.socket_addr.clone();
                    self.stop(vm, Some(Error::MalformedSocketAddress { address }))
                },
            }
        } else {
            let server_address = self.cfg.server_address.clone();
            self.connect(vm, server_address)
        }
    }

    /// Takes the caller's report on the last action and tells what to do
    /// next.
    pub fn step(self, event: RunEvent) -> (res: (Run, RunAction))
        ensures
            (res.0@, res.1@) == self@.step(event@),
    {
        match event {
            RunEvent::ClientReturned(outcome) => match self.phase {
                RunPhase::AwaitDirectClient => {
                    let verdict = match outcome {
                        Ok(_) => Ok(()),
                        Err(detail) => Err(
                            Error::Outside(
                                Failure {
                                    operation: Operation::RunCommands,
                                    subject: self.cfg.server_address.clone(),
                                    detail,
                                },
                            ),
                        ),
                    };
                    self.finish(verdict)
                },
                RunPhase::AwaitClient => {
                    let Run { cfg, phase, vm, pending } = self;
                    let run = Run { cfg, phase, vm: None, pending };
                    match vm {
                        Some(vm) => run.stop(vm, None),
                        None => run.finish(Err(Error::UnexpectedEvent)),
                    }
                },
                _ => self.finish(Err(Error::UnexpectedEvent)),
            },
            RunEvent::Booted(booted) => match self.phase {
                RunPhase::AwaitBoot => match booted {
                    Ok(vm) => self.after_boot(vm),
                    Err(error) => self.finish(Err(error)),
                },
                _ => self.finish(Err(Error::UnexpectedEvent)),
            },
            RunEvent::Stopped(outcome) => match self.phase {
                RunPhase::AwaitStop => {
                    let Run { cfg, phase, vm, pending } = self;
                    let run = Run { cfg, phase, vm: None, pending: None };
                    match pending {
                        Some(error) => run.finish(Err(error)),
                        None => run.finish(outcome),
                    }
                },
                _ => self.finish(Err(Error::UnexpectedEvent)),
            },
        }
    }
}

} // verus!
