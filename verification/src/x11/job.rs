//! The job object that ties the server's process to this one: how it is made, and
//! how a process is put into it. Whoever drives the steps performs what each asks
//! for and hands back what came of it.

use vstd::prelude::*;

use crate::x11::error;
use crate::x11::error::{
    runtime_failure, RuntimeFault, X11ErrorView, X11ForwardingError, X11Result,
};

verus! {

/// What the making of a job object does next.
#[derive(Debug, PartialEq, Eq)]
pub enum JobStep {
    /// Create the object, which gives a handle.
    CreateObject,
    /// Set the limit by which the processes of the job end with its handle.
    SetKillOnClose,
    /// The job is ready, and its handle stays open.
    Ready,
    /// There is no job. A handle that was created is closed.
    Failed { close_handle: bool, error: X11ForwardingError },
}

/// What the making of a job object does next, as a mathematical value.
pub enum JobStepView {
    CreateObject,
    SetKillOnClose,
    Ready,
    Failed { close_handle: bool, error: X11ErrorView },
}

impl View for JobStep {
    type V = JobStepView;

    open spec fn view(&self) -> JobStepView {
        match self {
            JobStep::CreateObject => JobStepView::CreateObject,
            JobStep::SetKillOnClose => JobStepView::SetKillOnClose,
            JobStep::Ready => JobStepView::Ready,
            JobStep::Failed { close_handle, error } => JobStepView::Failed {
                close_handle: *close_handle,
                error: error@,
            },
        }
    }
}

/// The words of the system for what went wrong, if anything did.
pub open spec fn failure_of(outcome: Result<(), String>) -> Option<Seq<char>> {
    match outcome {
        Ok(_) => None,
        Err(detail) => Some(detail@),
    }
}

/// What follows the attempt to create the object.
pub open spec fn after_creation(failure: Option<Seq<char>>) -> JobStepView {
    match failure {
        None => JobStepView::SetKillOnClose,
        Some(detail) => JobStepView::Failed {
            close_handle: false,
            error: error::fault_report(RuntimeFault::JobCreation, detail),
        },
    }
}

/// What follows the attempt to set the limit.
pub open spec fn after_limit(failure: Option<Seq<char>>) -> JobStepView {
    match failure {
        None => JobStepView::Ready,
        Some(detail) => JobStepView::Failed {
            close_handle: true,
            error: error::fault_report(RuntimeFault::JobLimits, detail),
        },
    }
}

impl JobStep {
    /// Starts to make a job object.
    pub fn begin() -> (step: Self)
        ensures
            step@ == JobStepView::CreateObject,
            step is CreateObject,
    {
        JobStep::CreateObject
    }

    /// Continues after the attempt to create the object.
    pub fn object_created(outcome: Result<(), String>) -> (step: Self)
        ensures
            step@ == after_creation(failure_of(outcome)),
            outcome is Ok ==> step is SetKillOnClose,
            outcome matches Err(detail) ==> {
                &&& step matches JobStep::Failed { close_handle, error }
                &&& !close_handle
                &&& error matches X11ForwardingError::ManagedRuntimeFailed(text)
                &&& text@ == "X11 job object could not be created: "@ + detail@
            },
    {
        match outcome {
            Ok(_) => JobStep::SetKillOnClose,
            Err(detail) => JobStep::Failed {
                close_handle: false,
                error: runtime_failure(RuntimeFault::JobCreation, detail.as_str()),
            },
        }
    }

    /// Continues after the attempt to set the limit.
    pub fn limit_set(outcome: Result<(), String>) -> (step: Self)
        ensures
            step@ == after_limit(failure_of(outcome)),
            outcome is Ok ==> step is Ready,
            outcome matches Err(detail) ==> {
                &&& step matches JobStep::Failed { close_handle, error }
                &&& close_handle
                &&& error matches X11ForwardingError::ManagedRuntimeFailed(text)
                &&& text@ == "X11 job object limits could not be set: "@ + detail@
            },
    {
        match outcome {
            Ok(_) => JobStep::Ready,
            Err(detail) => JobStep::Failed {
                close_handle: true,
                error: runtime_failure(RuntimeFault::JobLimits, detail.as_str()),
            },
        }
    }
}

/// How the making of a job object ends, if its steps fail as said.
pub open spec fn job_end(creation: Option<Seq<char>>, limit: Option<Seq<char>>) -> JobStepView {
    match after_creation(creation) {
        JobStepView::SetKillOnClose => after_limit(limit),
        end => end,
    }
}

/// A job is handed out if and only if it was created and ends its processes with
/// its handle. Otherwise the first failure is reported, and a handle is closed
/// if and only if there is one.
pub proof fn lemma_job_handle_is_owned_or_closed(
    creation: Option<Seq<char>>,
    limit: Option<Seq<char>>,
)
    ensures
        job_end(creation, limit) is Ready <==> creation is None && limit is None,
        creation matches Some(detail) ==> job_end(creation, limit) == (JobStepView::Failed {
            close_handle: false,
            error: error::fault_report(RuntimeFault::JobCreation, detail),
        }),
        creation is None ==> (limit matches Some(detail) ==> job_end(creation, limit) == (
        JobStepView::Failed {
            close_handle: true,
            error: error::fault_report(RuntimeFault::JobLimits, detail),
        })),
{
}

/// What putting a process into a job does next.
#[derive(Debug, PartialEq, Eq)]
pub enum AssignStep {
    /// Open the process with the rights to set its quota and to terminate it.
    OpenProcess,
    /// Assign the opened process to the job.
    Assign,
    /// Close the opened process, then report the result.
    CloseProcess { result: X11Result<()> },
    /// The process could not be opened.
    Failed(X11ForwardingError),
}

/// What putting a process into a job does next, as a mathematical value.
pub enum AssignStepView {
    OpenProcess,
    Assign,
    CloseProcess { failure: Option<X11ErrorView> },
    Failed(X11ErrorView),
}

impl View for AssignStep {
    type V = AssignStepView;

    open spec fn view(&self) -> AssignStepView {
        match self {
            AssignStep::OpenProcess => AssignStepView::OpenProcess,
            AssignStep::Assign => AssignStepView::Assign,
            AssignStep::CloseProcess { result } => AssignStepView::CloseProcess {
                failure: match result {
                    Ok(_) => None,
                    Err(error) => Some(error@),
                },
            },
            AssignStep::Failed(error) => AssignStepView::Failed(error@),
        }
    }
}

/// What follows the attempt to open the process.
pub open spec fn after_opening(failure: Option<Seq<char>>) -> AssignStepView {
    match failure {
        None => AssignStepView::Assign,
        Some(detail) => AssignStepView::Failed(
            error::fault_report(RuntimeFault::ProcessOpening, detail),
        ),
    }
}

/// What follows the attempt to assign the process: it is closed either way.
pub open spec fn after_assignment(failure: Option<Seq<char>>) -> AssignStepView {
    AssignStepView::CloseProcess {
        failure: match failure {
            None => None,
            Some(detail) => Some(error::fault_report(RuntimeFault::ProcessAssignment, detail)),
        },
    }
}

impl AssignStep {
    /// Starts to put a process into a job.
    pub fn begin() -> (step: Self)
        ensures
            step@ == AssignStepView::OpenProcess,
            step is OpenProcess,
    {
        AssignStep::OpenProcess
    }

    /// Continues after the attempt to open the process.
    pub fn process_opened(outcome: Result<(), String>) -> (step: Self)
        ensures
            step@ == after_opening(failure_of(outcome)),
            outcome is Ok ==> step is Assign,
            outcome matches Err(detail) ==> {
                &&& step matches AssignStep::Failed(error)
                &&& error matches X11ForwardingError::ManagedRuntimeFailed(text)
                &&& text@ == "VcXsrv process could not be opened for lifecycle ownership: "@
                    + detail@
            },
    {
        match outcome {
            Ok(_) => AssignStep::Assign,
            Err(detail) => AssignStep::Failed(
                runtime_failure(RuntimeFault::ProcessOpening, detail.as_str()),
            ),
        }
    }

    /// Continues after the attempt to assign the process.
    pub fn process_assigned(outcome: Result<(), String>) -> (step: Self)
        ensures
            step@ == after_assignment(failure_of(outcome)),
            step matches AssignStep::CloseProcess { result } && (result is Ok <==> outcome is Ok),
            outcome matches Err(detail) ==> {
                &&& step matches AssignStep::CloseProcess { result }
                &&& result matches Err(error)
                &&& error matches X11ForwardingError::ManagedRuntimeFailed(text)
                &&& text@ == "VcXsrv process could not be assigned to its job object: "@ + detail@
            },
    {
        AssignStep::CloseProcess {
            result: match outcome {
                Ok(_) => Ok(()),
                Err(detail) => Err(
                    runtime_failure(RuntimeFault::ProcessAssignment, detail.as_str()),
                ),
            },
        }
    }
}

/// How putting a process into a job ends, if its steps fail as said.
pub open spec fn assign_end(
    opening: Option<Seq<char>>,
    assignment: Option<Seq<char>>,
) -> AssignStepView {
    match after_opening(opening) {
        AssignStepView::Assign => after_assignment(assignment),
        end => end,
    }
}

/// A process that was opened is closed again, whether or not it could be
/// assigned, and success is reported if and only if both worked.
pub proof fn lemma_opened_process_is_closed(
    opening: Option<Seq<char>>,
    assignment: Option<Seq<char>>,
)
    ensures
        opening is None <==> assign_end(opening, assignment) is CloseProcess,
        opening is Some <==> assign_end(opening, assignment) is Failed,
        assign_end(opening, assignment) == (AssignStepView::CloseProcess { failure: None })
            <==> opening is None && assignment is None,
{
}

} // verus!
