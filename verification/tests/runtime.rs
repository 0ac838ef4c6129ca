use oxideterm::x11::error::X11ForwardingError;
use oxideterm::x11::forwarding::{
    cookie_source, prepared_forwarding, CookieGeneration, CookieListing, CookieSource,
    UntrustedStep, X11ForwardPolicy, X11ForwardTrust, X11LocalEndpoint,
};
use oxideterm::x11::runtime::{installed_runtime, ManagedWindowsX11Runtime, ServerDecision};
use oxideterm::x11::runtime_dir::{
    find_runtime_dir, runtime_dir_candidates, runtime_dir_is_complete, validate_runtime_dir,
    CandidateBase, ProbedDir, RuntimeDirProbe,
};

const COMPLETE: RuntimeDirProbe =
    RuntimeDirProbe { server_is_file: true, xauth_is_file: true, keyboard_is_dir: true };

fn dir(path: &str, complete: bool) -> ProbedDir<String> {
    ProbedDir {
        path: String::from(path),
        probe: RuntimeDirProbe { xauth_is_file: complete, ..COMPLETE },
    }
}

fn unavailable(text: &str) -> X11ForwardingError {
    X11ForwardingError::ManagedRuntimeUnavailable(String::from(text))
}

#[test]
fn a_runtime_needs_all_its_parts() {
    assert!(runtime_dir_is_complete(COMPLETE));
    assert!(!runtime_dir_is_complete(RuntimeDirProbe { server_is_file: false, ..COMPLETE }));
    assert!(!runtime_dir_is_complete(RuntimeDirProbe { xauth_is_file: false, ..COMPLETE }));
    assert!(!runtime_dir_is_complete(RuntimeDirProbe { keyboard_is_dir: false, ..COMPLETE }));
}

#[test]
fn a_named_directory_is_used_or_refused() {
    let refused = unavailable(
        "OXIDETERM_X11_RUNTIME_DIR does not contain a complete VcXsrv runtime",
    );
    assert_eq!(validate_runtime_dir(dir("named", true)), Ok(String::from("named")));
    assert_eq!(validate_runtime_dir(dir("named", false)), Err(refused.clone()));
    assert_eq!(
        find_runtime_dir(Some(dir("named", true)), vec![dir("other", true)]),
        Ok(String::from("named"))
    );
    assert_eq!(
        find_runtime_dir(Some(dir("named", false)), vec![dir("other", true)]),
        Err(refused)
    );
}

#[test]
fn the_first_complete_candidate_is_used() {
    assert_eq!(
        find_runtime_dir(None, vec![dir("a", false), dir("b", true), dir("c", true)]),
        Ok(String::from("b"))
    );
    let missing = unavailable("the bundled VcXsrv files were not found");
    assert_eq!(find_runtime_dir(None, vec![dir("a", false)]), Err(missing.clone()));
    assert_eq!(find_runtime_dir::<String>(None, vec![]), Err(missing));
}

#[test]
fn bundled_directories_come_before_installed_ones() {
    let list = |executable: bool, programs: bool| {
        runtime_dir_candidates(executable, programs)
            .into_iter()
            .map(|candidate| (candidate.base, candidate.subdirectory))
            .collect::<Vec<_>>()
    };
    let bundled = (CandidateBase::ExecutableDir, String::from("resources/x11/vcxsrv"));
    let beside = (CandidateBase::ExecutableDir, String::from("x11/vcxsrv"));
    let installed = (CandidateBase::ProgramFiles, String::from("VcXsrv"));
    assert_eq!(list(true, true), vec![bundled.clone(), beside.clone(), installed.clone()]);
    assert_eq!(list(true, false), vec![bundled, beside]);
    assert_eq!(list(false, true), vec![installed]);
    assert_eq!(list(false, false), vec![]);
}

#[test]
fn a_server_is_used_again_while_it_answers() {
    let mut runtime: ManagedWindowsX11Runtime<u32> = ManagedWindowsX11Runtime::new();
    assert_eq!(runtime.server(), None);
    assert_eq!(runtime.decide(true), ServerDecision::Start);
    assert_eq!(runtime.started(Ok(1)), Ok(()));
    assert_eq!(runtime.decide(true), ServerDecision::Reuse);
    assert_eq!(runtime.server(), Some(&1));
    assert_eq!(runtime.decide(false), ServerDecision::Start);
    assert_eq!(runtime.server(), None);
    let error = unavailable("no");
    assert_eq!(runtime.started(Err(error.clone())), Err(error));
    assert_eq!(runtime.server(), None);
    assert_eq!(runtime.started(Ok(2)), Ok(()));
    assert_eq!(runtime.server(), Some(&2));
}

#[test]
fn a_runtime_without_an_owner_is_unavailable() {
    assert_eq!(installed_runtime(Some(5)), Ok(5));
    assert_eq!(
        installed_runtime::<u8>(None),
        Err(unavailable("the application runtime owner is not installed"))
    );
}

#[test]
fn only_trusted_clients_get_the_servers_cookie() {
    let policy = X11ForwardPolicy { trust: X11ForwardTrust::Trusted, timeout_millis: None };
    assert_eq!(cookie_source(policy), CookieSource::Server);
    let policy = X11ForwardPolicy { trust: X11ForwardTrust::Untrusted, timeout_millis: None };
    assert_eq!(cookie_source(policy), CookieSource::Generated);
}

#[test]
fn a_forwarding_keeps_its_parts() {
    let endpoint = X11LocalEndpoint::Tcp { host: String::from("127.0.0.1"), port: 6003 };
    let policy =
        X11ForwardPolicy { trust: X11ForwardTrust::Trusted, timeout_millis: Some(1500) };
    let prepared = prepared_forwarding(&endpoint, policy, "request", "auth");
    assert_eq!(prepared.endpoint, endpoint);
    assert_eq!(prepared.request, "request");
    assert_eq!(prepared.auth, "auth");
    assert_eq!(prepared.acceptance_timeout_millis, Some(1500));
}

#[test]
fn only_tcp_endpoints_can_be_reached() {
    let endpoint = X11LocalEndpoint::Tcp { host: String::from("127.0.0.1"), port: 6003 };
    assert_eq!(endpoint.reachability_target(), Some(("127.0.0.1", 6003)));
    let endpoint = X11LocalEndpoint::UnixSocket { path: String::from("/tmp/.X11-unix/X0") };
    assert_eq!(endpoint.reachability_target(), None);
    assert_eq!(endpoint.duplicate(), endpoint);
}

fn generation() -> CookieGeneration<&'static str> {
    CookieGeneration { authority_path: "generated" }
}

fn listing() -> CookieListing<&'static str> {
    CookieListing { authority_path: "generated" }
}

#[test]
fn a_cookie_for_untrusted_clients_is_generated_and_listed() {
    assert_eq!(UntrustedStep::<u8>::begin(), UntrustedStep::CreateDirectory);
    assert_eq!(
        UntrustedStep::directory_created(Ok("generated")),
        UntrustedStep::GenerateCookie(generation())
    );
    assert_eq!(generation().generated(Ok(())), UntrustedStep::ListCookies(listing()));
    assert_eq!(
        listing().listed(Ok("host:7  ä".as_bytes())),
        UntrustedStep::ReadListing(String::from("host:7  ä"))
    );
}

#[test]
fn a_cookie_for_untrusted_clients_may_fail() {
    assert_eq!(
        UntrustedStep::<u8>::directory_created(Err(String::from("denied"))),
        UntrustedStep::Failed(X11ForwardingError::AuthorityFileUnavailable(String::from("denied")))
    );
    let error = X11ForwardingError::XauthFailed(String::from("no"));
    assert_eq!(
        generation().generated(Err(error.clone())),
        UntrustedStep::Failed(error.clone())
    );
    assert_eq!(listing().listed(Err(error.clone())), UntrustedStep::Failed(error.clone()));
    assert_eq!(
        listing().listed(Ok(&[97, 0xff, 98])),
        UntrustedStep::Failed(X11ForwardingError::XauthFailed(String::from(
            "invalid utf-8 sequence of 1 bytes from index 1"
        )))
    );
    assert_eq!(
        UntrustedStep::<u8>::listing_decoded(Err(String::from("bad"))),
        UntrustedStep::Failed(X11ForwardingError::XauthFailed(String::from("bad")))
    );
    assert_eq!(
        UntrustedStep::<u8>::listing_decoded(Ok(String::from("l"))),
        UntrustedStep::ReadListing(String::from("l"))
    );
}
