use oxideterm::x11::authority::{parse_xauthority_file, X11AuthCookie};
use oxideterm::x11::display_search::{begin_search, managed_display_name, SearchStep};
use oxideterm::x11::error::X11ForwardingError;
use oxideterm::x11::launch::{LaunchArg, LaunchStep};
use oxideterm::x11::setup::{ServerFiles, ServerSetup};

enum Outcome {
    Taken,
    WriteFails(&'static str),
    LaunchFails(&'static str),
    Launches,
}

fn failure(text: &str) -> X11ForwardingError {
    X11ForwardingError::ManagedRuntimeFailed(String::from(text))
}

fn files() -> ServerFiles<String> {
    ServerFiles {
        runtime_dir: String::from("bin"),
        authority_path: String::from("a"),
        log_path: String::from("l"),
    }
}

/// Runs a search, and lists the ports that it probed. Every authority file, and
/// the server in the end, has the cookie; every launch is for the display that was
/// probed and the authority file that was written.
fn search<F: Fn(u16) -> Outcome>(
    cookie: &X11AuthCookie,
    outcome: F,
) -> (Result<u16, X11ForwardingError>, Vec<u16>) {
    let mut ports = Vec::new();
    let mut step = begin_search(ServerSetup {
        cookie: X11AuthCookie::from_bytes(cookie.as_bytes()),
        files: files(),
    });
    loop {
        step = match step {
            SearchStep::ProbePort(probe) => {
                let port = probe.port();
                ports.push(port);
                let free = !matches!(outcome(port - 6000), Outcome::Taken);
                probe.probed(free)
            }
            SearchStep::WriteAuthority(write) => {
                let display = ports[ports.len() - 1] - 6000;
                let entries = parse_xauthority_file(write.contents()).unwrap();
                assert_eq!(entries.len(), 1);
                assert_eq!(entries[0].display_number, display.to_string());
                assert_eq!(&entries[0].cookie, cookie);
                assert_eq!(write.path(), "a");
                match outcome(display) {
                    Outcome::WriteFails(text) => write.written(Err(String::from(text))),
                    _ => write.written(Ok(())),
                }
            }
            SearchStep::Launch(launch) => {
                let port = ports[ports.len() - 1];
                assert_eq!(launch.display(), port - 6000);
                match launch.begin() {
                    LaunchStep::Perform(staged) => {
                        assert_eq!(staged.port(), port);
                        assert_eq!(*staged.runtime_dir(), "bin");
                        assert_eq!(
                            staged.args()[13],
                            LaunchArg::Path(&&String::from("a"))
                        );
                    }
                    _ => panic!("a launch begins with a stage"),
                }
                match outcome(launch.display()) {
                    Outcome::LaunchFails(text) => launch.launched(Err(failure(text))),
                    _ => launch.launched(Ok(())),
                }
            }
            SearchStep::Running { display, setup } => {
                assert_eq!(&setup.cookie, cookie);
                assert_eq!(setup.files, files());
                return (Ok(display), ports);
            }
            SearchStep::Failed(error) => return (Err(error), ports),
        };
    }
}

fn cookie() -> X11AuthCookie {
    X11AuthCookie::from_hex("00112233445566778899aabbccddeeff").unwrap()
}

#[test]
fn the_first_display_is_taken_if_it_works() {
    assert_eq!(search(&cookie(), |_| Outcome::Launches), (Ok(0), vec![6000]));
}

#[test]
fn taken_ports_and_failed_launches_are_passed_over() {
    let result = search(&cookie(), |display| match display {
        0 => Outcome::Taken,
        1 => Outcome::LaunchFails("one"),
        _ => Outcome::Launches,
    });
    assert_eq!(result, (Ok(2), vec![6000, 6001, 6002]));
}

#[test]
fn a_search_ends_behind_the_last_display() {
    let (result, ports) = search(&cookie(), |_| Outcome::Taken);
    assert_eq!(result, Err(failure("no local X11 display port was available")));
    assert_eq!(ports, (6000..=6063).collect::<Vec<u16>>());
    let (result, _) = search(&cookie(), |display| {
        if display == 63 {
            Outcome::Launches
        } else {
            Outcome::Taken
        }
    });
    assert_eq!(result, Ok(63));
}

#[test]
fn the_last_failed_launch_is_reported() {
    let (result, ports) = search(&cookie(), |display| match display {
        3 => Outcome::LaunchFails("three"),
        5 => Outcome::LaunchFails("five"),
        _ => Outcome::Taken,
    });
    assert_eq!(result, Err(failure("five")));
    assert_eq!(ports.len(), 64);
}

#[test]
fn an_authority_file_that_cannot_be_written_ends_the_search() {
    let (result, ports) = search(&cookie(), |display| match display {
        0 => Outcome::LaunchFails("zero"),
        _ => Outcome::WriteFails("disk full"),
    });
    assert_eq!(result, Err(failure("private Xauthority could not be written: disk full")));
    assert_eq!(ports, vec![6000, 6001]);
}

#[test]
fn a_cookie_that_does_not_fit_ends_the_search() {
    let large = X11AuthCookie::from_bytes(&vec![0u8; 65536]);
    let (result, ports) = search(&large, |display| match display {
        0 => Outcome::Taken,
        _ => Outcome::Launches,
    });
    assert_eq!(
        result,
        Err(X11ForwardingError::InvalidXauthRecord("managed xauthority field is too large"))
    );
    assert_eq!(ports, vec![6000, 6001]);
}

#[test]
fn displays_are_reached_over_the_loopback_address() {
    assert_eq!(managed_display_name(0), "127.0.0.1:0");
    assert_eq!(managed_display_name(63), "127.0.0.1:63");
}
