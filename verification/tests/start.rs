use oxideterm::x11::authority::X11AuthCookie;
use oxideterm::x11::display_search::SearchStep;
use oxideterm::x11::error::X11ForwardingError;
use oxideterm::x11::setup::PrivateFiles;
use oxideterm::x11::start::StartStep;

#[test]
fn a_start_locates_and_prepares_before_it_searches() {
    assert!(matches!(StartStep::<u8>::begin(), StartStep::LocateRuntime));
    let StartStep::CreateDirectory(creation) = StartStep::runtime_located(Ok("bin")) else {
        panic!("the files were found");
    };
    assert_eq!(creation.runtime_dir, "bin");
    let private = PrivateFiles { authority_path: "a", log_path: "l" };
    let StartStep::DrawCookie(draw) = creation.created(Ok(private)) else {
        panic!("the directory was made");
    };
    assert_eq!(draw.files.runtime_dir, "bin");
    assert_eq!(draw.files.authority_path, "a");
    assert_eq!(draw.files.log_path, "l");
    match draw.drawn(X11AuthCookie::from_bytes(&[1, 2])) {
        StartStep::Search(SearchStep::ProbePort(probe)) => {
            assert_eq!(probe.port(), 6000);
            match probe.probed(true) {
                SearchStep::WriteAuthority(write) => {
                    assert_eq!(*write.path(), "a");
                    assert!(write.contents().ends_with(&[1, 2]));
                }
                _ => panic!("the port is free"),
            }
        }
        _ => panic!("the search begins with a port"),
    }
}

#[test]
fn a_runtime_that_is_not_found_ends_the_start() {
    let error = X11ForwardingError::ManagedRuntimeUnavailable(String::from("nowhere"));
    match StartStep::<u8>::runtime_located(Err(error.clone())) {
        StartStep::Failed(reported) => assert_eq!(reported, error),
        _ => panic!("there is no runtime"),
    }
}

#[test]
fn a_private_directory_that_cannot_be_made_ends_the_start() {
    let StartStep::CreateDirectory(creation) = StartStep::runtime_located(Ok("bin")) else {
        panic!("the files were found");
    };
    match creation.created(Err(String::from("disk full"))) {
        StartStep::Failed(reported) => assert_eq!(
            reported,
            X11ForwardingError::ManagedRuntimeFailed(String::from(
                "private runtime directory could not be created: disk full"
            ))
        ),
        _ => panic!("there is no directory"),
    }
}
