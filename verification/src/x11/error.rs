//! What can go wrong while X11 forwarding is prepared.

use vstd::prelude::*;

use crate::text::joined;

verus! {

/// An error of X11 forwarding.
#[derive(Clone, Debug, PartialEq, Eq)]
pub enum X11ForwardingError {
    /// An Xauthority record is malformed or cannot be written.
    InvalidXauthRecord(&'static str),
    /// The managed server cannot be offered at all.
    ManagedRuntimeUnavailable(String),
    /// The managed server could not be brought up.
    ManagedRuntimeFailed(String),
    /// A private directory for generated cookies could not be made.
    AuthorityFileUnavailable(String),
    /// `xauth` failed or printed something unreadable.
    XauthFailed(String),
}

pub type X11Result<T> = Result<T, X11ForwardingError>;

/// An error as a mathematical value: its kind and its text.
pub enum X11ErrorView {
    InvalidXauthRecord(Seq<char>),
    ManagedRuntimeUnavailable(Seq<char>),
    ManagedRuntimeFailed(Seq<char>),
    AuthorityFileUnavailable(Seq<char>),
    XauthFailed(Seq<char>),
}

impl View for X11ForwardingError {
    type V = X11ErrorView;

    open spec fn view(&self) -> X11ErrorView {
        match self {
            X11ForwardingError::InvalidXauthRecord(text) => {
                X11ErrorView::InvalidXauthRecord(text@)
            },
            X11ForwardingError::ManagedRuntimeUnavailable(text) => {
                X11ErrorView::ManagedRuntimeUnavailable(text@)
            },
            X11ForwardingError::ManagedRuntimeFailed(text) => {
                X11ErrorView::ManagedRuntimeFailed(text@)
            },
            X11ForwardingError::AuthorityFileUnavailable(text) => {
                X11ErrorView::AuthorityFileUnavailable(text@)
            },
            X11ForwardingError::XauthFailed(text) => X11ErrorView::XauthFailed(text@),
        }
    }
}

/// A step of bringing the managed server up that the system refused, and that
/// is reported together with the system's own words.
#[derive(Clone, Copy, Debug, PartialEq, Eq, Structural)]
pub enum RuntimeFault {
    PrivateDirectory,
    AuthorityWrite,
    ServerSpawn,
    ProcessStatus,
    EarlyExit,
    JobCreation,
    JobLimits,
    ProcessOpening,
    ProcessAssignment,
}

/// The words that stand before the system's own in the report of a fault.
pub open spec fn fault_prefix(fault: RuntimeFault) -> Seq<char> {
    match fault {
        RuntimeFault::PrivateDirectory => "private runtime directory could not be created: "@,
        RuntimeFault::AuthorityWrite => "private Xauthority could not be written: "@,
        RuntimeFault::ServerSpawn => "bundled VcXsrv could not be started: "@,
        RuntimeFault::ProcessStatus => "VcXsrv process status could not be read: "@,
        RuntimeFault::EarlyExit => "VcXsrv exited during startup with "@,
        RuntimeFault::JobCreation => "X11 job object could not be created: "@,
        RuntimeFault::JobLimits => "X11 job object limits could not be set: "@,
        RuntimeFault::ProcessOpening => {
            "VcXsrv process could not be opened for lifecycle ownership: "@
        },
        RuntimeFault::ProcessAssignment => {
            "VcXsrv process could not be assigned to its job object: "@
        },
    }
}

/// The report of a fault whose details the system put into `detail`.
pub open spec fn fault_report(fault: RuntimeFault, detail: Seq<char>) -> X11ErrorView {
    X11ErrorView::ManagedRuntimeFailed(fault_prefix(fault) + detail)
}

/// Reports a fault of the managed server in the system's own words.
pub fn runtime_failure(fault: RuntimeFault, detail: &str) -> (error: X11ForwardingError)
    ensures
        error@ == fault_report(fault, detail@),
        error matches X11ForwardingError::ManagedRuntimeFailed(text) && text@ == (match fault {
            RuntimeFault::PrivateDirectory => "private runtime directory could not be created: "@,
            RuntimeFault::AuthorityWrite => "private Xauthority could not be written: "@,
            RuntimeFault::ServerSpawn => "bundled VcXsrv could not be started: "@,
            RuntimeFault::ProcessStatus => "VcXsrv process status could not be read: "@,
            RuntimeFault::EarlyExit => "VcXsrv exited during startup with "@,
            RuntimeFault::JobCreation => "X11 job object could not be created: "@,
            RuntimeFault::JobLimits => "X11 job object limits could not be set: "@,
            RuntimeFault::ProcessOpening => {
                "VcXsrv process could not be opened for lifecycle ownership: "@
            },
            RuntimeFault::ProcessAssignment => {
                "VcXsrv process could not be assigned to its job object: "@
            },
        }) + detail@,
{
    let prefix = match fault {
        RuntimeFault::PrivateDirectory => "private runtime directory could not be created: ",
        RuntimeFault::AuthorityWrite => "private Xauthority could not be written: ",
        RuntimeFault::ServerSpawn => "bundled VcXsrv could not be started: ",
        RuntimeFault::ProcessStatus => "VcXsrv process status could not be read: ",
        RuntimeFault::EarlyExit => "VcXsrv exited during startup with ",
        RuntimeFault::JobCreation => "X11 job object could not be created: ",
        RuntimeFault::JobLimits => "X11 job object limits could not be set: ",
        RuntimeFault::ProcessOpening => {
            "VcXsrv process could not be opened for lifecycle ownership: "
        },
        RuntimeFault::ProcessAssignment => {
            "VcXsrv process could not be assigned to its job object: "
        },
    };
    X11ForwardingError::ManagedRuntimeFailed(joined(prefix, detail))
}

/// An error shows its kind and its text.
pub proof fn lemma_error_shows_kind_and_text(error: X11ForwardingError)
    ensures
        match error {
            X11ForwardingError::InvalidXauthRecord(text) => error@
                == X11ErrorView::InvalidXauthRecord(text@),
            X11ForwardingError::ManagedRuntimeUnavailable(text) => error@
                == X11ErrorView::ManagedRuntimeUnavailable(text@),
            X11ForwardingError::ManagedRuntimeFailed(text) => error@
                == X11ErrorView::ManagedRuntimeFailed(text@),
            X11ForwardingError::AuthorityFileUnavailable(text) => error@
                == X11ErrorView::AuthorityFileUnavailable(text@),
            X11ForwardingError::XauthFailed(text) => error@ == X11ErrorView::XauthFailed(text@),
        },
{
}

/// A report of a fault tells which step failed and why: it begins with the words
/// for the step and ends with the words of the system.
pub proof fn lemma_fault_report_ends_with_detail(fault: RuntimeFault, detail: Seq<char>)
    ensures
        fault_report(fault, detail) is ManagedRuntimeFailed,
        ({
            let report = fault_report(fault, detail)->ManagedRuntimeFailed_0;
            let start = report.len() - detail.len();
            &&& start > 0
            &&& report.skip(start) == detail
            &&& report.take(start) == (match fault {
                RuntimeFault::PrivateDirectory => {
                    "private runtime directory could not be created: "@
                },
                RuntimeFault::AuthorityWrite => "private Xauthority could not be written: "@,
                RuntimeFault::ServerSpawn => "bundled VcXsrv could not be started: "@,
                RuntimeFault::ProcessStatus => "VcXsrv process status could not be read: "@,
                RuntimeFault::EarlyExit => "VcXsrv exited during startup with "@,
                RuntimeFault::JobCreation => "X11 job object could not be created: "@,
                RuntimeFault::JobLimits => "X11 job object limits could not be set: "@,
                RuntimeFault::ProcessOpening => {
                    "VcXsrv process could not be opened for lifecycle ownership: "@
                },
                RuntimeFault::ProcessAssignment => {
                    "VcXsrv process could not be assigned to its job object: "@
                },
            })
        }),
{
    reveal_strlit("private runtime directory could not be created: ");
    reveal_strlit("private Xauthority could not be written: ");
    reveal_strlit("bundled VcXsrv could not be started: ");
    reveal_strlit("VcXsrv process status could not be read: ");
    reveal_strlit("VcXsrv exited during startup with ");
    reveal_strlit("X11 job object could not be created: ");
    reveal_strlit("X11 job object limits could not be set: ");
    reveal_strlit("VcXsrv process could not be opened for lifecycle ownership: ");
    reveal_strlit("VcXsrv process could not be assigned to its job object: ");
    let report = fault_report(fault, detail)->ManagedRuntimeFailed_0;
    let start = report.len() - detail.len();
    assert(report.skip(start) =~= detail);
    assert(report.take(start) =~= fault_prefix(fault));
}

} // verus!
