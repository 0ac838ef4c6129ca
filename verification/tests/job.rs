use oxideterm::x11::error::X11ForwardingError;
use oxideterm::x11::job::{AssignStep, JobStep};
use oxideterm::x11::launch::{shutdown_cleanup, LaunchCleanup};

fn failure(text: &str) -> X11ForwardingError {
    X11ForwardingError::ManagedRuntimeFailed(String::from(text))
}

#[test]
fn a_job_is_created_and_limited() {
    assert_eq!(JobStep::begin(), JobStep::CreateObject);
    assert_eq!(JobStep::object_created(Ok(())), JobStep::SetKillOnClose);
    assert_eq!(JobStep::limit_set(Ok(())), JobStep::Ready);
}

#[test]
fn a_job_that_fails_closes_the_handle_it_has() {
    assert_eq!(
        JobStep::object_created(Err(String::from("denied"))),
        JobStep::Failed {
            close_handle: false,
            error: failure("X11 job object could not be created: denied"),
        }
    );
    assert_eq!(
        JobStep::limit_set(Err(String::from("denied"))),
        JobStep::Failed {
            close_handle: true,
            error: failure("X11 job object limits could not be set: denied"),
        }
    );
}

#[test]
fn a_process_is_closed_whether_or_not_it_is_assigned() {
    assert_eq!(AssignStep::begin(), AssignStep::OpenProcess);
    assert_eq!(AssignStep::process_opened(Ok(())), AssignStep::Assign);
    assert_eq!(
        AssignStep::process_assigned(Ok(())),
        AssignStep::CloseProcess { result: Ok(()) }
    );
    assert_eq!(
        AssignStep::process_assigned(Err(String::from("full"))),
        AssignStep::CloseProcess {
            result: Err(failure("VcXsrv process could not be assigned to its job object: full")),
        }
    );
}

#[test]
fn a_process_that_cannot_be_opened_is_not_assigned() {
    assert_eq!(
        AssignStep::process_opened(Err(String::from("gone"))),
        AssignStep::Failed(failure(
            "VcXsrv process could not be opened for lifecycle ownership: gone"
        ))
    );
}

#[test]
fn a_server_is_given_up_with_its_job_first() {
    assert_eq!(
        shutdown_cleanup(),
        vec![LaunchCleanup::TerminateJob, LaunchCleanup::TerminateChild]
    );
}
