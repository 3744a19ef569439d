//! The failures that the harness reports.

use vstd::prelude::*;
use vstd::string::*;

verus! {

/// A step that is carried out outside this library, on the host or through
/// the hypervisor, and that may fail there.
#[derive(Clone, Copy, Debug, PartialEq, Eq, Structural)]
pub enum Operation {
    LoadConfig,
    Prepare,
    CreateDeviceManager,
    AttachDevice,
    QueryCapabilities,
    SetupSharedFs,
    StartVm,
    ReadAgentSocket,
    StopSharedFs,
    StopVm,
    BindMount,
    Unmount,
    RemoveDir,
    RunCommands,
}

impl Operation {
    /// The name under which the operation appears in messages.
    pub open spec fn spec_name(self) -> Seq<char> {
        match self {
            Operation::LoadConfig => "load configuration"@,
            Operation::Prepare => "prepare vm"@,
            Operation::CreateDeviceManager => "create device manager"@,
            Operation::AttachDevice => "attach device"@,
            Operation::QueryCapabilities => "query capabilities"@,
            Operation::SetupSharedFs => "set up shared file system"@,
            Operation::StartVm => "start vm"@,
            Operation::ReadAgentSocket => "get agent socket"@,
            Operation::StopSharedFs => "stop shared file system"@,
            Operation::StopVm => "stop vm"@,
            Operation::BindMount => "bind mount"@,
            Operation::Unmount => "unmount"@,
            Operation::RemoveDir => "remove directory"@,
            Operation::RunCommands => "run commands"@,
        }
    }

    /// The name under which the operation appears in messages.
    pub fn name(self) -> (name: &'static str)
        ensures
            name@ == self.spec_name(),
    {
        match self {
            Operation::LoadConfig => "load configuration",
            Operation::Prepare => "prepare vm",
            Operation::CreateDeviceManager => "create device manager",
            Operation::AttachDevice => "attach device",
            Operation::QueryCapabilities => "query capabilities",
            Operation::SetupSharedFs => "set up shared file system",
            Operation::StartVm => "start vm",
            Operation::ReadAgentSocket => "get agent socket",
            Operation::StopSharedFs => "stop shared file system",
            Operation::StopVm => "stop vm",
            Operation::BindMount => "bind mount",
            Operation::Unmount => "unmount",
            Operation::RemoveDir => "remove directory",
            Operation::RunCommands => "run commands",
        }
    }
}

/// One outside step that failed: which step, on what, and what was reported.
#[derive(Debug, PartialEq, Eq)]
pub struct Failure {
    pub operation: Operation,
    /// The path or identifier that the step was applied to.
    pub subject: String,
    /// What the outside component reported.
    pub detail: String,
}

/// The mathematical value of a [`Failure`].
pub struct FailureView {
    pub operation: Operation,
    pub subject: Seq<char>,
    pub detail: Seq<char>,
}

impl FailureView {
    /// `operation: subject: detail`
    pub open spec fn text(self) -> Seq<char> {
        self.operation.spec_name() + ": "@ + self.subject + ": "@ + self.detail
    }
}

impl View for Failure {
    type V = FailureView;

    open spec fn view(&self) -> FailureView {
        FailureView { operation: self.operation, subject: self.subject@, detail: self.detail@ }
    }
}

impl DeepView for Failure {
    type V = FailureView;

    open spec fn deep_view(&self) -> FailureView {
        self@
    }
}

impl Clone for Failure {
    fn clone(&self) -> (copy: Self)
        ensures
            copy@ == self@,
    {
        Failure {
            operation: self.operation,
            subject: self.subject.clone(),
            detail: self.detail.clone(),
        }
    }
}

impl Failure {
    /// `operation: subject: detail`
    pub fn message(&self) -> (text: String)
        ensures
            text@ == self@.text(),
    {
        let mut text = self.operation.name().to_owned();
        text.append(": ");
        text.append(self.subject.as_str());
        text.append(": ");
        text.append(self.detail.as_str());
        text
    }
}

/// The texts of `failures`, each preceded by `"; "`.
pub open spec fn failure_list_text(failures: Seq<FailureView>) -> Seq<char>
    decreases failures.len(),
{
    if failures.len() == 0 {
        Seq::empty()
    } else {
        failure_list_text(failures.drop_last()) + "; "@ + failures.last().text()
    }
}

/// Why an operation of the harness did not complete.
#[derive(Debug, PartialEq, Eq)]
pub enum Error {
    /// A kernel parameter was given neither a key nor a value.
    EmptyKeyAndValue,
    /// A kernel parameter was given a value without a key.
    EmptyKey,
    /// No hypervisor backend goes by this name.
    UnsupportedHypervisor { name: String },
    /// The source of a block volume is not a block special file.
    NotBlockSpecial { source: String },
    /// The source of a shared volume is not a directory.
    NotDirectory { source: String },
    /// The source of a shared volume has no final path component.
    NoBaseName { source: String },
    /// The attached device has no path by which the guest can address it.
    MissingPciPath,
    /// The storage descriptor names a driver that the pipeline does not handle.
    UnsupportedStorageType { driver: String },
    /// The address of the agent's socket does not name a scheme and a path.
    MalformedSocketAddress { address: String },
    /// A step carried out outside the library failed.
    Outside(Failure),
    /// Some host shares could not be unmounted or removed.
    Teardown { failures: Vec<Failure> },
    /// A step function was handed an event that does not answer its last action.
    UnexpectedEvent,
}

/// The mathematical value of an [`Error`].
pub enum ErrorView {
    EmptyKeyAndValue,
    EmptyKey,
    UnsupportedHypervisor { name: Seq<char> },
    NotBlockSpecial { source: Seq<char> },
    NotDirectory { source: Seq<char> },
    NoBaseName { source: Seq<char> },
    MissingPciPath,
    UnsupportedStorageType { driver: Seq<char> },
    MalformedSocketAddress { address: Seq<char> },
    Outside(FailureView),
    Teardown { failures: Seq<FailureView> },
    UnexpectedEvent,
}

impl ErrorView {
    /// The message that describes the error.
    pub open spec fn text(self) -> Seq<char> {
        match self {
            ErrorView::EmptyKeyAndValue => "Empty key and value"@,
            ErrorView::EmptyKey => "Empty key"@,
            ErrorView::UnsupportedHypervisor { name } => "Unsupported hypervisor name: "@ + name,
            ErrorView::NotBlockSpecial { source } => "Not a block special file: "@ + source,
            ErrorView::NotDirectory { source } => "Shared volume is not a valid directory: "@
                + source,
            ErrorView::NoBaseName { source } => "Shared volume has no base name: "@ + source,
            ErrorView::MissingPciPath => "block driver is blk but no pci path exists"@,
            ErrorView::UnsupportedStorageType { driver } => driver
                + " storage type is not supported"@,
            ErrorView::MalformedSocketAddress { address } => "Malformed socket address: "@
                + address,
            ErrorView::Outside(failure) => failure.text(),
            ErrorView::Teardown { failures } => "failed to unmount shared mounts on host"@
                + failure_list_text(failures),
            ErrorView::UnexpectedEvent => "unexpected event"@,
        }
    }
}

impl View for Error {
    type V = ErrorView;

    open spec fn view(&self) -> ErrorView {
        match self {
            Error::EmptyKeyAndValue => ErrorView::EmptyKeyAndValue,
            Error::EmptyKey => ErrorView::EmptyKey,
            Error::UnsupportedHypervisor { name } => ErrorView::UnsupportedHypervisor { name: name@ },
            Error::NotBlockSpecial { source } => ErrorView::NotBlockSpecial { source: source@ },
            Error::NotDirectory { source } => ErrorView::NotDirectory { source: source@ },
            Error::NoBaseName { source } => ErrorView::NoBaseName { source: source@ },
            Error::MissingPciPath => ErrorView::MissingPciPath,
            Error::UnsupportedStorageType { driver } => ErrorView::UnsupportedStorageType {
                driver: driver@,
            },
            Error::MalformedSocketAddress { address } => ErrorView::MalformedSocketAddress {
                address: address@,
            },
            Error::Outside(failure) => ErrorView::Outside(failure@),
            Error::Teardown { failures } => ErrorView::Teardown { failures: failures.deep_view() },
            Error::UnexpectedEvent => ErrorView::UnexpectedEvent,
        }
    }
}

impl DeepView for Error {
    type V = ErrorView;

    open spec fn deep_view(&self) -> ErrorView {
        self@
    }
}

/// The mathematical value of what an outside step came to.
pub open spec fn outcome_view(outcome: Result<(), String>) -> Result<(), Seq<char>> {
    match outcome {
        Ok(_) => Ok(()),
        Err(detail) => Err(detail@),
    }
}

/// The mathematical value of a text or an error.
pub open spec fn text_result(res: Result<String, Error>) -> Result<Seq<char>, ErrorView> {
    match res {
        Ok(text) => Ok(text@),
        Err(error) => Err(error@),
    }
}

fn prefixed(prefix: &str, rest: &str) -> (text: String)
    ensures
        text@ == prefix@ + rest@,
{
    let mut text = prefix.to_owned();
    text.append(rest);
    text
}

fn failure_list_message(failures: &Vec<Failure>) -> (text: String)
    ensures
        text@ == failure_list_text(failures.deep_view()),
{
    let mut text = String::new();
    let mut i: usize = 0;
    while i < failures.len()
        invariant
            i <= failures.len(),
            text@ == failure_list_text(failures.deep_view().take(i as int)),
        decreases failures.len() - i,
    {
        let one = failures[i].message();
        text.append("; ");
        text.append(one.as_str());
        proof {
            let all = failures.deep_view();
            assert(all.take(i + 1).drop_last() =~= all.take(i as int));
            assert(all.take(i + 1).last() == failures[i as int]@);
        }
        i += 1;
    }
    assert(failures.deep_view().take(i as int) =~= failures.deep_view());
    text
}

impl Error {
    /// The message that describes the error.
    pub fn message(&self) -> (text: String)
        ensures
            text@ == self@.text(),
    {
        match self {
            Error::EmptyKeyAndValue => "Empty key and value".to_owned(),
            Error::EmptyKey => "Empty key".to_owned(),
            Error::UnsupportedHypervisor { name } => prefixed(
                "Unsupported hypervisor name: ",
                name.as_str(),
            ),
            Error::NotBlockSpecial { source } => prefixed(
                "Not a block special file: ",
                source.as_str(),
            ),
            Error::NotDirectory { source } => prefixed(
                "Shared volume is not a valid directory: ",
                source.as_str(),
            ),
            Error::NoBaseName { source } => prefixed(
                "Shared volume has no base name: ",
                source.as_str(),
            ),
            Error::MissingPciPath => "block driver is blk but no pci path exists".to_owned(),
            Error::UnsupportedStorageType { driver } => prefixed(
                driver.as_str(),
                " storage type is not supported",
            ),
            Error::MalformedSocketAddress { address } => prefixed(
                "Malformed socket address: ",
                address.as_str(),
            ),
            Error::Outside(failure) => failure.message(),
            Error::Teardown { failures } => {
                let list = failure_list_message(failures);
                prefixed("failed to unmount shared mounts on host", list.as_str())
            },
            Error::UnexpectedEvent => "unexpected event".to_owned(),
        }
    }
}

} // verus!
