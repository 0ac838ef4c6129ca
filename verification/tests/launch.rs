use oxideterm::x11::error::{runtime_failure, RuntimeFault, X11ForwardingError};
use oxideterm::x11::launch::{
    begin_launch, display_port, managed_launch_args, needs_kill, ChildStatus, LaunchArg,
    LaunchCleanup, LaunchStage, LaunchStep, StagedLaunch, WaitStep,
};
use oxideterm::x11::setup::ServerFiles;

fn texts(args: Vec<LaunchArg<String>>) -> Vec<String> {
    args.into_iter()
        .map(|argument| match argument {
            LaunchArg::Text(text) => text,
            LaunchArg::Path(path) => path,
        })
        .collect()
}

#[test]
fn managed_server_keeps_access_control_and_uses_private_authority() {
    let args = managed_launch_args(
        7,
        String::from(r"C:\Temp\OxideTerm\authority"),
        String::from(r"C:\Temp\OxideTerm\vcxsrv.log"),
    );
    let args = texts(args);

    assert_eq!(args.first().map(String::as_str), Some(":7"));
    assert!(args
        .windows(2)
        .any(|pair| pair == ["-auth", r"C:\Temp\OxideTerm\authority"]));
    assert!(args.windows(2).any(|pair| pair == ["-listen", "tcp"]));
    assert!(args.windows(2).any(|pair| pair == ["-nolisten", "hyperv"]));
    assert!(args.iter().any(|argument| argument == "-multiwindow"));
    assert!(args.iter().any(|argument| argument == "-clipboard"));
    assert!(args.iter().any(|argument| argument == "-notrayicon"));
    assert!(!args.iter().any(|argument| argument == "-ac"));
}

#[test]
fn the_whole_command_line_is_fixed() {
    let args = texts(managed_launch_args(10, String::from("a"), String::from("l")));
    assert_eq!(
        args,
        vec![
            ":10",
            "-multiwindow",
            "-clipboard",
            "-primary",
            "-wgl",
            "-notrayicon",
            "-silent-dup-error",
            "-noreset",
            "-listen",
            "tcp",
            "-nolisten",
            "hyperv",
            "-auth",
            "a",
            "-logfile",
            "l",
            "-logverbose",
            "1",
        ]
    );
}

#[test]
fn paths_stay_paths() {
    let args = managed_launch_args(0, 1u8, 2u8);
    assert_eq!(args[13], LaunchArg::Path(1));
    assert_eq!(args[15], LaunchArg::Path(2));
}

#[test]
fn displays_have_ports() {
    assert_eq!(display_port(0), 6000);
    assert_eq!(display_port(63), 6063);
    assert_eq!(display_port(59535), 65535);
}

fn files() -> ServerFiles<&'static str> {
    ServerFiles { runtime_dir: "bin", authority_path: "a", log_path: "l" }
}

/// The launch on display 7 that waits for a stage.
fn staged(stage: LaunchStage) -> StagedLaunch<&'static str> {
    let mut step = begin_launch(7, files());
    loop {
        match step {
            LaunchStep::Perform(launch) if launch.stage() == stage => return launch,
            LaunchStep::Perform(launch) => step = launch.performed(Ok(())),
            _ => panic!("the launch ends before the stage"),
        }
    }
}

#[test]
fn a_launch_goes_through_its_stages() {
    let mut stages = Vec::new();
    let mut step = begin_launch(7, files());
    while let LaunchStep::Perform(launch) = step {
        stages.push(launch.stage());
        step = launch.performed(Ok(()));
    }
    assert_eq!(step, LaunchStep::Launched);
    assert_eq!(
        stages,
        vec![
            LaunchStage::SpawnServer,
            LaunchStage::CreateJob,
            LaunchStage::AssignProcess,
            LaunchStage::AwaitServer,
        ]
    );
}

#[test]
fn a_launch_keeps_its_display_and_its_files() {
    for stage in [
        LaunchStage::SpawnServer,
        LaunchStage::CreateJob,
        LaunchStage::AssignProcess,
        LaunchStage::AwaitServer,
    ] {
        let launch = staged(stage);
        assert_eq!(launch.port(), 6007);
        assert_eq!(*launch.runtime_dir(), "bin");
        let args = launch.args();
        assert_eq!(args.len(), 18);
        assert_eq!(args[0], LaunchArg::Text(String::from(":7")));
        assert_eq!(args[13], LaunchArg::Path(&"a"));
        assert_eq!(args[15], LaunchArg::Path(&"l"));
    }
}

#[test]
fn a_failed_launch_leaves_no_process() {
    let error = X11ForwardingError::ManagedRuntimeFailed(String::from("no"));
    let cases = vec![
        (LaunchStage::SpawnServer, vec![]),
        (LaunchStage::CreateJob, vec![LaunchCleanup::TerminateChild]),
        (LaunchStage::AssignProcess, vec![LaunchCleanup::TerminateChild]),
        (
            LaunchStage::AwaitServer,
            vec![LaunchCleanup::TerminateJob, LaunchCleanup::TerminateChild],
        ),
    ];
    for (stage, cleanup) in cases {
        assert_eq!(
            staged(stage).performed(Err(error.clone())),
            LaunchStep::Abort { cleanup, error: error.clone() }
        );
    }
}

#[test]
fn a_wait_connects_before_it_doubts() {
    assert_eq!(WaitStep::begin(), WaitStep::Connect);
    assert_eq!(WaitStep::connect_tried(true), WaitStep::Ready);
    assert_eq!(WaitStep::connect_tried(false), WaitStep::CheckProcess);
    assert_eq!(WaitStep::process_checked(Ok(None)), WaitStep::CheckClock);
    assert_eq!(WaitStep::clock_read(0), WaitStep::Sleep { millis: 50 });
    assert_eq!(WaitStep::clock_read(9_999), WaitStep::Sleep { millis: 50 });
}

#[test]
fn a_wait_fails_for_three_reasons() {
    let failed = |text: &str| {
        WaitStep::Failed(X11ForwardingError::ManagedRuntimeFailed(String::from(text)))
    };
    assert_eq!(
        WaitStep::process_checked(Err(String::from("denied"))),
        failed("VcXsrv process status could not be read: denied")
    );
    assert_eq!(
        WaitStep::process_checked(Ok(Some(String::from("exit code: 1")))),
        failed("VcXsrv exited during startup with exit code: 1")
    );
    assert_eq!(
        WaitStep::clock_read(10_000),
        failed("VcXsrv did not accept X11 connections before the startup deadline")
    );
}

#[test]
fn only_an_exited_child_is_not_killed() {
    assert!(needs_kill(ChildStatus::Running));
    assert!(needs_kill(ChildStatus::Unknown));
    assert!(!needs_kill(ChildStatus::Exited));
}

#[test]
fn faults_are_reported_in_the_systems_words() {
    let cases = vec![
        (RuntimeFault::PrivateDirectory, "private runtime directory could not be created: x"),
        (RuntimeFault::AuthorityWrite, "private Xauthority could not be written: x"),
        (RuntimeFault::ServerSpawn, "bundled VcXsrv could not be started: x"),
        (RuntimeFault::ProcessStatus, "VcXsrv process status could not be read: x"),
        (RuntimeFault::EarlyExit, "VcXsrv exited during startup with x"),
        (RuntimeFault::JobCreation, "X11 job object could not be created: x"),
        (RuntimeFault::JobLimits, "X11 job object limits could not be set: x"),
        (
            RuntimeFault::ProcessOpening,
            "VcXsrv process could not be opened for lifecycle ownership: x",
        ),
        (
            RuntimeFault::ProcessAssignment,
            "VcXsrv process could not be assigned to its job object: x",
        ),
    ];
    for (fault, text) in cases {
        assert_eq!(
            runtime_failure(fault, "x"),
            X11ForwardingError::ManagedRuntimeFailed(String::from(text))
        );
    }
}
