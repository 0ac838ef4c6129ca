//! Launching the managed server on one display: its command line, the order in
//! which it is brought under control, and the wait until it answers.

use vstd::prelude::*;

use crate::text;
use crate::text::{decimal_text, joined};
use crate::x11::error;
use crate::x11::error::{
    runtime_failure, RuntimeFault, X11ErrorView, X11ForwardingError, X11Result,
};
use crate::x11::setup::ServerFiles;

verus! {

/// The TCP port of display zero.
pub const FIRST_X11_PORT: u16 = 6000;

/// How long a server may take until it accepts connections.
pub const SERVER_START_TIMEOUT_MILLIS: u64 = 10_000;

/// How long to wait before a server is tried again.
pub const SERVER_POLL_INTERVAL_MILLIS: u64 = 50;

/// An argument of the server's command line. A path stays what the system made
/// of it, so that no path is lost to a conversion.
#[derive(Debug, PartialEq, Eq)]
pub enum LaunchArg<P> {
    Text(String),
    Path(P),
}

/// An argument as a mathematical value.
pub enum LaunchArgView<P> {
    Text(Seq<char>),
    Path(P),
}

impl<P> View for LaunchArg<P> {
    type V = LaunchArgView<P>;

    open spec fn view(&self) -> LaunchArgView<P> {
        match self {
            LaunchArg::Text(text) => LaunchArgView::Text(text@),
            LaunchArg::Path(path) => LaunchArgView::Path(*path),
        }
    }
}

/// The arguments as mathematical values.
pub open spec fn arg_views<P>(args: Seq<LaunchArg<P>>) -> Seq<LaunchArgView<P>> {
    args.map_values(|arg: LaunchArg<P>| arg@)
}

/// The command line of the server on a display.
pub open spec fn launch_line<P>(display: u16, authority_path: P, log_path: P) -> Seq<
    LaunchArgView<P>,
> {
    seq![
        LaunchArgView::Text(":"@ + text::decimal(display as nat)),
        LaunchArgView::Text("-multiwindow"@),
        LaunchArgView::Text("-clipboard"@),
        LaunchArgView::Text("-primary"@),
        LaunchArgView::Text("-wgl"@),
        LaunchArgView::Text("-notrayicon"@),
        LaunchArgView::Text("-silent-dup-error"@),
        LaunchArgView::Text("-noreset"@),
        LaunchArgView::Text("-listen"@),
        LaunchArgView::Text("tcp"@),
        LaunchArgView::Text("-nolisten"@),
        LaunchArgView::Text("hyperv"@),
        LaunchArgView::Text("-auth"@),
        LaunchArgView::Path(authority_path),
        LaunchArgView::Text("-logfile"@),
        LaunchArgView::Path(log_path),
        LaunchArgView::Text("-logverbose"@),
        LaunchArgView::Text("1"@),
    ]
}

/// An argument that is the same on every display.
fn flag<P>(text: &str) -> (arg: LaunchArg<P>)
    ensures
        arg@ == LaunchArgView::<P>::Text(text@),
{
    LaunchArg::Text(text.to_owned())
}

/// The command line of the server: it serves the display over TCP, one window
/// for each client, and lets in only clients that know the cookie in the
/// authority file.
pub fn managed_launch_args<P>(display: u16, authority_path: P, log_path: P) -> (args: Vec<
    LaunchArg<P>,
>)
    ensures
        arg_views(args@) == launch_line(display, authority_path, log_path),
        args@.len() == 18,
        args@[0] matches LaunchArg::Text(text) && text@ == ":"@ + text::decimal(display as nat),
        args@[1] matches LaunchArg::Text(text) && text@ == "-multiwindow"@,
        args@[2] matches LaunchArg::Text(text) && text@ == "-clipboard"@,
        args@[3] matches LaunchArg::Text(text) && text@ == "-primary"@,
        args@[4] matches LaunchArg::Text(text) && text@ == "-wgl"@,
        args@[5] matches LaunchArg::Text(text) && text@ == "-notrayicon"@,
        args@[6] matches LaunchArg::Text(text) && text@ == "-silent-dup-error"@,
        args@[7] matches LaunchArg::Text(text) && text@ == "-noreset"@,
        args@[8] matches LaunchArg::Text(text) && text@ == "-listen"@,
        args@[9] matches LaunchArg::Text(text) && text@ == "tcp"@,
        args@[10] matches LaunchArg::Text(text) && text@ == "-nolisten"@,
        args@[11] matches LaunchArg::Text(text) && text@ == "hyperv"@,
        args@[12] matches LaunchArg::Text(text) && text@ == "-auth"@,
        args@[14] matches LaunchArg::Text(text) && text@ == "-logfile"@,
        args@[16] matches LaunchArg::Text(text) && text@ == "-logverbose"@,
        args@[17] matches LaunchArg::Text(text) && text@ == "1"@,
        args@[13] == LaunchArg::Path(authority_path),
        args@[15] == LaunchArg::Path(log_path),
{
    let number = decimal_text(display);
    let mut args: Vec<LaunchArg<P>> = Vec::new();
    args.push(LaunchArg::Text(joined(":", number.as_str())));
    args.push(flag("-multiwindow"));
    args.push(flag("-clipboard"));
    args.push(flag("-primary"));
    args.push(flag("-wgl"));
    args.push(flag("-notrayicon"));
    args.push(flag("-silent-dup-error"));
    args.push(flag("-noreset"));
    args.push(flag("-listen"));
    args.push(flag("tcp"));
    args.push(flag("-nolisten"));
    args.push(flag("hyperv"));
    args.push(flag("-auth"));
    args.push(LaunchArg::Path(authority_path));
    args.push(flag("-logfile"));
    args.push(LaunchArg::Path(log_path));
    args.push(flag("-logverbose"));
    args.push(flag("1"));
    assert(arg_views(args@) =~= launch_line(display, authority_path, log_path));
    args
}

/// The command line names the display first; behind `-auth` stands the authority
/// file and behind `-logfile` the log file, and these are its only paths.
pub proof fn lemma_launch_line_names_display_and_files<P>(
    display: u16,
    authority_path: P,
    log_path: P,
)
    ensures
        ({
            let line = launch_line(display, authority_path, log_path);
            &&& line.len() == 18
            &&& line[0] == LaunchArgView::<P>::Text(":"@ + text::decimal(display as nat))
            &&& line[1] == LaunchArgView::<P>::Text("-multiwindow"@)
            &&& line[2] == LaunchArgView::<P>::Text("-clipboard"@)
            &&& line[3] == LaunchArgView::<P>::Text("-primary"@)
            &&& line[4] == LaunchArgView::<P>::Text("-wgl"@)
            &&& line[5] == LaunchArgView::<P>::Text("-notrayicon"@)
            &&& line[6] == LaunchArgView::<P>::Text("-silent-dup-error"@)
            &&& line[7] == LaunchArgView::<P>::Text("-noreset"@)
            &&& line[8] == LaunchArgView::<P>::Text("-listen"@)
            &&& line[9] == LaunchArgView::<P>::Text("tcp"@)
            &&& line[10] == LaunchArgView::<P>::Text("-nolisten"@)
            &&& line[11] == LaunchArgView::<P>::Text("hyperv"@)
            &&& line[12] == LaunchArgView::<P>::Text("-auth"@)
            &&& line[14] == LaunchArgView::<P>::Text("-logfile"@)
            &&& line[16] == LaunchArgView::<P>::Text("-logverbose"@)
            &&& line[17] == LaunchArgView::<P>::Text("1"@)
            &&& line[13] == LaunchArgView::Path(authority_path)
            &&& line[15] == LaunchArgView::Path(log_path)
        }),
{
}

/// Arguments show what they hold, in order.
pub proof fn lemma_args_show_what_they_hold<P>(args: Seq<LaunchArg<P>>)
    ensures
        arg_views(args).len() == args.len(),
        forall|i: int|
            0 <= i < args.len() ==> #[trigger] arg_views(args)[i] == (match args[i] {
                LaunchArg::Text(text) => LaunchArgView::Text(text@),
                LaunchArg::Path(path) => LaunchArgView::Path(path),
            }),
{
}

/// Whether one argument stands right before another.
pub open spec fn stand_together<P>(
    line: Seq<LaunchArgView<P>>,
    first: LaunchArgView<P>,
    second: LaunchArgView<P>,
) -> bool {
    exists|i: int| 0 <= i < line.len() - 1 && #[trigger] line[i] == first && line[i + 1] == second
}

/// On every display the server keeps access control on, reads its cookie from
/// the given authority file, listens on TCP, and does not listen on Hyper-V
/// sockets.
pub proof fn lemma_access_control_is_kept<P>(display: u16, authority_path: P, log_path: P)
    ensures
        ({
            let line = launch_line(display, authority_path, log_path);
            &&& !line.contains(LaunchArgView::Text("-ac"@))
            &&& stand_together(
                line,
                LaunchArgView::Text("-auth"@),
                LaunchArgView::Path(authority_path),
            )
            &&& stand_together(
                line,
                LaunchArgView::Text("-listen"@),
                LaunchArgView::Text("tcp"@),
            )
            &&& stand_together(
                line,
                LaunchArgView::Text("-nolisten"@),
                LaunchArgView::Text("hyperv"@),
            )
        }),
{
    let line = launch_line(display, authority_path, log_path);
    reveal_strlit(":");
    reveal_strlit("-ac");
    reveal_strlit("-multiwindow");
    reveal_strlit("-clipboard");
    reveal_strlit("-primary");
    reveal_strlit("-wgl");
    reveal_strlit("-notrayicon");
    reveal_strlit("-silent-dup-error");
    reveal_strlit("-noreset");
    reveal_strlit("-listen");
    reveal_strlit("tcp");
    reveal_strlit("-nolisten");
    reveal_strlit("hyperv");
    reveal_strlit("-auth");
    reveal_strlit("-logfile");
    reveal_strlit("-logverbose");
    reveal_strlit("1");
    let access_off = "-ac"@;
    assert(access_off.len() == 3 && access_off[0] == '-');
    assert((":"@ + text::decimal(display as nat))[0] == ':');
    assert("tcp"@[0] == 't');
    assert("-multiwindow"@.len() != 3);
    assert("-clipboard"@.len() != 3);
    assert("-primary"@.len() != 3);
    assert("-wgl"@.len() != 3);
    assert("-notrayicon"@.len() != 3);
    assert("-silent-dup-error"@.len() != 3);
    assert("-noreset"@.len() != 3);
    assert("-listen"@.len() != 3);
    assert("-nolisten"@.len() != 3);
    assert("hyperv"@.len() != 3);
    assert("-auth"@.len() != 3);
    assert("-logfile"@.len() != 3);
    assert("-logverbose"@.len() != 3);
    assert("1"@.len() != 3);
    assert(line[12] == LaunchArgView::<P>::Text("-auth"@));
    assert(line[8] == LaunchArgView::<P>::Text("-listen"@));
    assert(line[10] == LaunchArgView::<P>::Text("-nolisten"@));
}

/// The TCP port of a display.
pub fn display_port(display: u16) -> (port: u16)
    requires
        display <= u16::MAX - FIRST_X11_PORT,
    ensures
        port == 6000 + display,
{
    FIRST_X11_PORT + display
}

/// A stage of a launch. Each is performed only after the one before it has
/// succeeded.
#[derive(Clone, Copy, Debug, PartialEq, Eq, Structural)]
pub enum LaunchStage {
    /// Start the server's process.
    SpawnServer,
    /// Make the job object that ends the process together with this one.
    CreateJob,
    /// Put the process into the job.
    AssignProcess,
    /// Wait until the server accepts connections.
    AwaitServer,
}

/// Something that a failed launch leaves to be undone.
#[derive(Clone, Copy, Debug, PartialEq, Eq, Structural)]
pub enum LaunchCleanup {
    TerminateJob,
    TerminateChild,
}

/// A launch that waits for a stage to be performed.
#[derive(Debug, PartialEq, Eq)]
pub struct StagedLaunch<P> {
    stage: LaunchStage,
    display: u16,
    files: ServerFiles<P>,
}

/// What a launch does next.
#[derive(Debug, PartialEq, Eq)]
pub enum LaunchStep<P> {
    /// Perform a stage.
    Perform(StagedLaunch<P>),
    /// The server runs and is under control.
    Launched,
    /// Undo what was done, in order, and report the error.
    Abort { cleanup: Vec<LaunchCleanup>, error: X11ForwardingError },
}

/// What a launch does next, as a mathematical value.
#[verifier::ext_equal]
pub enum LaunchStepView<P> {
    Perform { stage: LaunchStage, display: u16, files: ServerFiles<P> },
    Launched,
    Abort { cleanup: Seq<LaunchCleanup>, error: X11ErrorView },
}

impl<P> View for StagedLaunch<P> {
    type V = LaunchStepView<P>;

    closed spec fn view(&self) -> LaunchStepView<P> {
        LaunchStepView::Perform { stage: self.stage, display: self.display, files: self.files }
    }
}

impl<P> View for LaunchStep<P> {
    type V = LaunchStepView<P>;

    open spec fn view(&self) -> LaunchStepView<P> {
        match self {
            LaunchStep::Perform(staged) => staged@,
            LaunchStep::Launched => LaunchStepView::Launched,
            LaunchStep::Abort { cleanup, error } => LaunchStepView::Abort {
                cleanup: cleanup@,
                error: error@,
            },
        }
    }
}

/// What a step is can be told from its mathematical value.
pub proof fn lemma_launch_step_is_its_view<P>(step: LaunchStep<P>)
    ensures
        step is Perform <==> step@ is Perform,
        step is Launched <==> step@ is Launched,
        step is Abort <==> step@ is Abort,
{
}

/// What has to be undone when a stage fails: nothing before there is a process,
/// then the process, and behind a failed wait the job and the process.
pub open spec fn stage_cleanup(stage: LaunchStage) -> Seq<LaunchCleanup> {
    match stage {
        LaunchStage::SpawnServer => seq![],
        LaunchStage::CreateJob => seq![LaunchCleanup::TerminateChild],
        LaunchStage::AssignProcess => seq![LaunchCleanup::TerminateChild],
        LaunchStage::AwaitServer => seq![
            LaunchCleanup::TerminateJob,
            LaunchCleanup::TerminateChild,
        ],
    }
}

/// The stage behind another, if there is one.
pub open spec fn next_stage(stage: LaunchStage) -> Option<LaunchStage> {
    match stage {
        LaunchStage::SpawnServer => Some(LaunchStage::CreateJob),
        LaunchStage::CreateJob => Some(LaunchStage::AssignProcess),
        LaunchStage::AssignProcess => Some(LaunchStage::AwaitServer),
        LaunchStage::AwaitServer => None,
    }
}

/// What follows a stage, given the error if it failed. The display and the files
/// stay the same.
pub open spec fn after_stage<P>(
    stage: LaunchStage,
    display: u16,
    files: ServerFiles<P>,
    failure: Option<X11ErrorView>,
) -> LaunchStepView<P> {
    match failure {
        Some(error) => LaunchStepView::Abort { cleanup: stage_cleanup(stage), error },
        None => match next_stage(stage) {
            Some(stage) => LaunchStepView::Perform { stage, display, files },
            None => LaunchStepView::Launched,
        },
    }
}

/// Starts a launch on a display, with the given files.
pub fn begin_launch<P>(display: u16, files: ServerFiles<P>) -> (step: LaunchStep<P>)
    requires
        display <= u16::MAX - FIRST_X11_PORT,
    ensures
        step@ == (LaunchStepView::Perform { stage: LaunchStage::SpawnServer, display, files }),
{
    LaunchStep::Perform(StagedLaunch { stage: LaunchStage::SpawnServer, display, files })
}

impl<P> StagedLaunch<P> {
    #[verifier::type_invariant]
    spec fn in_range(self) -> bool {
        self.display <= u16::MAX - FIRST_X11_PORT
    }

    /// The stage to perform.
    pub fn stage(&self) -> (current: LaunchStage)
        ensures
            self@ matches LaunchStepView::Perform { stage, .. } && current == stage,
    {
        self.stage
    }

    /// The directory of the server's executable.
    pub fn runtime_dir(&self) -> (path: &P)
        ensures
            self@ matches LaunchStepView::Perform { files, .. } && *path == files.runtime_dir,
    {
        &self.files.runtime_dir
    }

    /// The command line that the server is spawned with.
    pub fn args(&self) -> (args: Vec<LaunchArg<&P>>)
        ensures
            self@ matches LaunchStepView::Perform { display, files, .. } && arg_views(args@)
                == launch_line(display, &files.authority_path, &files.log_path),
            args@.len() == 18,
            self@ matches LaunchStepView::Perform { display, files, .. } && {
                &&& args@[0] matches LaunchArg::Text(text)
                &&& text@ == ":"@ + text::decimal(display as nat)
                &&& args@[12] matches LaunchArg::Text(auth)
                &&& auth@ == "-auth"@
                &&& args@[13] == LaunchArg::Path(&files.authority_path)
                &&& args@[14] matches LaunchArg::Text(logfile)
                &&& logfile@ == "-logfile"@
                &&& args@[15] == LaunchArg::Path(&files.log_path)
            },
    {
        managed_launch_args(self.display, &self.files.authority_path, &self.files.log_path)
    }

    /// The port on which the server is awaited: that of the display in its
    /// command line.
    pub fn port(&self) -> (port: u16)
        ensures
            self@ matches LaunchStepView::Perform { display, .. } && port == 6000 + display,
    {
        proof {
            use_type_invariant(self);
        }
        display_port(self.display)
    }

    /// Continues the launch after the stage was performed.
    pub fn performed(self, outcome: X11Result<()>) -> (step: LaunchStep<P>)
        ensures
            self@ matches LaunchStepView::Perform { stage, display, files } && step@
                == after_stage(
                stage,
                display,
                files,
                match outcome {
                    Ok(_) => None,
                    Err(error) => Some(error@),
                },
            ),
            outcome matches Err(failure) ==> {
                &&& step matches LaunchStep::Abort { cleanup, error }
                &&& error == failure
                &&& self@ matches LaunchStepView::Perform { stage, .. }
                &&& cleanup@ == (match stage {
                    LaunchStage::SpawnServer => seq![],
                    LaunchStage::CreateJob => seq![LaunchCleanup::TerminateChild],
                    LaunchStage::AssignProcess => seq![LaunchCleanup::TerminateChild],
                    LaunchStage::AwaitServer => seq![
                        LaunchCleanup::TerminateJob,
                        LaunchCleanup::TerminateChild,
                    ],
                })
            },
            outcome is Ok ==> (self@ matches LaunchStepView::Perform { stage, display, files }
                && step@ == (match stage {
                LaunchStage::SpawnServer => LaunchStepView::Perform {
                    stage: LaunchStage::CreateJob,
                    display,
                    files,
                },
                LaunchStage::CreateJob => LaunchStepView::Perform {
                    stage: LaunchStage::AssignProcess,
                    display,
                    files,
                },
                LaunchStage::AssignProcess => LaunchStepView::Perform {
                    stage: LaunchStage::AwaitServer,
                    display,
                    files,
                },
                LaunchStage::AwaitServer => LaunchStepView::Launched,
            })),
            step is Launched <==> step@ is Launched,
    {
        proof {
            use_type_invariant(&self);
        }
        let StagedLaunch { stage, display, files } = self;
        match outcome {
            Ok(_) => {
                let next = match stage {
                    LaunchStage::SpawnServer => LaunchStage::CreateJob,
                    LaunchStage::CreateJob => LaunchStage::AssignProcess,
                    LaunchStage::AssignProcess => LaunchStage::AwaitServer,
                    LaunchStage::AwaitServer => {
                        return LaunchStep::Launched;
                    },
                };
                LaunchStep::Perform(StagedLaunch { stage: next, display, files })
            },
            Err(error) => {
                let mut cleanup: Vec<LaunchCleanup> = Vec::new();
                match stage {
                    LaunchStage::SpawnServer => {},
                    LaunchStage::CreateJob | LaunchStage::AssignProcess => {
                        cleanup.push(LaunchCleanup::TerminateChild);
                    },
                    LaunchStage::AwaitServer => {
                        cleanup.push(LaunchCleanup::TerminateJob);
                        cleanup.push(LaunchCleanup::TerminateChild);
                    },
                }
                assert(cleanup@ =~= stage_cleanup(stage));
                LaunchStep::Abort { cleanup, error }
            },
        }
    }
}

/// How many stages are left, this one included.
pub open spec fn stages_left(stage: LaunchStage) -> nat {
    match stage {
        LaunchStage::SpawnServer => 4,
        LaunchStage::CreateJob => 3,
        LaunchStage::AssignProcess => 2,
        LaunchStage::AwaitServer => 1,
    }
}

/// The steps of a launch from a stage on, if the stages fail as `failures` says.
pub open spec fn launch_course<P>(
    stage: LaunchStage,
    display: u16,
    files: ServerFiles<P>,
    failures: spec_fn(LaunchStage) -> Option<X11ErrorView>,
) -> Seq<LaunchStepView<P>>
    decreases stages_left(stage),
{
    let current = LaunchStepView::Perform { stage, display, files };
    match after_stage(stage, display, files, failures(stage)) {
        LaunchStepView::Perform { stage: next, display: kept, files: same } => if stages_left(next)
            < stages_left(stage) {
            seq![current] + launch_course(next, kept, same, failures)
        } else {
            seq![current]
        },
        end => seq![current, end],
    }
}

/// The steps of a launch, if its stages fail as `failures` says.
pub open spec fn launch_steps<P>(
    display: u16,
    files: ServerFiles<P>,
    failures: spec_fn(LaunchStage) -> Option<X11ErrorView>,
) -> Seq<LaunchStepView<P>> {
    launch_course(LaunchStage::SpawnServer, display, files, failures)
}

/// A launch succeeds if and only if every stage does, and then nothing is
/// undone. Otherwise it reports the first failure, and no process outlives it: a
/// process that was started is terminated, and the job before it if the wait
/// was what failed.
pub proof fn lemma_launch_leaves_nothing_behind<P>(
    display: u16,
    files: ServerFiles<P>,
    failures: spec_fn(LaunchStage) -> Option<X11ErrorView>,
)
    ensures
        ({
            let end = launch_steps(display, files, failures).last();
            let spawn = failures(LaunchStage::SpawnServer);
            let job = failures(LaunchStage::CreateJob);
            let assign = failures(LaunchStage::AssignProcess);
            let wait = failures(LaunchStage::AwaitServer);
            &&& end is Launched <==> (spawn is None && job is None && assign is None
                && wait is None)
            &&& end !is Launched ==> {
                &&& end is Abort
                &&& Some(end->error) == (if spawn is Some {
                    spawn
                } else if job is Some {
                    job
                } else if assign is Some {
                    assign
                } else {
                    wait
                })
                &&& end->cleanup.contains(LaunchCleanup::TerminateChild) <==> spawn is None
                &&& end->cleanup.contains(LaunchCleanup::TerminateJob) <==> (spawn is None
                    && job is None && assign is None)
                &&& end->cleanup == (if spawn is Some {
                    seq![]
                } else if job is Some || assign is Some {
                    seq![LaunchCleanup::TerminateChild]
                } else {
                    seq![LaunchCleanup::TerminateJob, LaunchCleanup::TerminateChild]
                })
            }
        }),
{
    reveal_with_fuel(launch_course, 4);
    let end = launch_steps(display, files, failures).last();
    if failures(LaunchStage::SpawnServer) is Some {
        assert(end->cleanup =~= seq![]);
    } else if failures(LaunchStage::CreateJob) is Some {
        assert(end->cleanup[0] == LaunchCleanup::TerminateChild);
    } else if failures(LaunchStage::AssignProcess) is Some {
        assert(end->cleanup[0] == LaunchCleanup::TerminateChild);
    } else if failures(LaunchStage::AwaitServer) is Some {
        assert(end->cleanup[0] == LaunchCleanup::TerminateJob);
        assert(end->cleanup[1] == LaunchCleanup::TerminateChild);
    }
}

/// Every stage of a launch is for the same display and the same files. So the
/// port that is awaited is that of the display in the command line, and the
/// authority file in the command line is the one that the launch was given.
pub proof fn lemma_launch_keeps_display_and_files<P>(
    display: u16,
    files: ServerFiles<P>,
    failures: spec_fn(LaunchStage) -> Option<X11ErrorView>,
    index: int,
)
    requires
        0 <= index < launch_steps(display, files, failures).len(),
    ensures
        launch_steps(display, files, failures)[index] matches LaunchStepView::Perform {
            display: kept,
            files: same,
            ..
        } ==> kept == display && same == files,
{
    reveal_with_fuel(launch_course, 4);
}

/// What is undone, in order, when a server that runs is given up: its job, then its
/// process.
pub fn shutdown_cleanup() -> (cleanup: Vec<LaunchCleanup>)
    ensures
        cleanup@ == stage_cleanup(LaunchStage::AwaitServer),
        cleanup@ == seq![LaunchCleanup::TerminateJob, LaunchCleanup::TerminateChild],
{
    let mut cleanup: Vec<LaunchCleanup> = Vec::new();
    cleanup.push(LaunchCleanup::TerminateJob);
    cleanup.push(LaunchCleanup::TerminateChild);
    cleanup
}

/// What the wait for a server does next.
#[derive(Debug, PartialEq, Eq)]
pub enum WaitStep {
    /// Try to connect to the server.
    Connect,
    /// Ask whether the process has ended.
    CheckProcess,
    /// Read how long the wait has lasted.
    CheckClock,
    /// Sleep, then connect again.
    Sleep { millis: u64 },
    /// The server accepts connections.
    Ready,
    /// The server will not come up.
    Failed(X11ForwardingError),
}

/// What the wait for a server does next, as a mathematical value.
pub enum WaitStepView {
    Connect,
    CheckProcess,
    CheckClock,
    Sleep { millis: u64 },
    Ready,
    Failed(X11ErrorView),
}

impl View for WaitStep {
    type V = WaitStepView;

    open spec fn view(&self) -> WaitStepView {
        match self {
            WaitStep::Connect => WaitStepView::Connect,
            WaitStep::CheckProcess => WaitStepView::CheckProcess,
            WaitStep::CheckClock => WaitStepView::CheckClock,
            WaitStep::Sleep { millis } => WaitStepView::Sleep { millis: *millis },
            WaitStep::Ready => WaitStepView::Ready,
            WaitStep::Failed(error) => WaitStepView::Failed(error@),
        }
    }
}

/// The error for a server that took too long.
pub open spec fn startup_deadline_passed() -> X11ErrorView {
    X11ErrorView::ManagedRuntimeFailed(
        "VcXsrv did not accept X11 connections before the startup deadline"@,
    )
}

/// What follows an attempt to connect.
pub open spec fn after_connect(connected: bool) -> WaitStepView {
    if connected {
        WaitStepView::Ready
    } else {
        WaitStepView::CheckProcess
    }
}

/// What follows the question whether the process has ended: an error of the
/// system, the exit status, or neither while the process runs.
pub open spec fn after_process_check(status: Result<Option<Seq<char>>, Seq<char>>) -> WaitStepView {
    match status {
        Err(detail) => WaitStepView::Failed(
            error::fault_report(RuntimeFault::ProcessStatus, detail),
        ),
        Ok(Some(exit)) => WaitStepView::Failed(error::fault_report(RuntimeFault::EarlyExit, exit)),
        Ok(None) => WaitStepView::CheckClock,
    }
}

/// What follows a look at the clock.
pub open spec fn after_clock(elapsed_millis: u64) -> WaitStepView {
    if elapsed_millis >= SERVER_START_TIMEOUT_MILLIS {
        WaitStepView::Failed(startup_deadline_passed())
    } else {
        WaitStepView::Sleep { millis: SERVER_POLL_INTERVAL_MILLIS }
    }
}

/// What std's `try_wait` reported, as a mathematical value.
pub open spec fn status_view(status: Result<Option<String>, String>) -> Result<
    Option<Seq<char>>,
    Seq<char>,
> {
    match status {
        Ok(Some(exit)) => Ok(Some(exit@)),
        Ok(None) => Ok(None),
        Err(detail) => Err(detail@),
    }
}

impl WaitStep {
    /// Starts a wait, and starts a round of it after a sleep.
    pub fn begin() -> (step: Self)
        ensures
            step@ == WaitStepView::Connect,
            step is Connect,
    {
        WaitStep::Connect
    }

    /// Continues after an attempt to connect.
    pub fn connect_tried(connected: bool) -> (step: Self)
        ensures
            step@ == after_connect(connected),
            connected ==> step is Ready,
            !connected ==> step is CheckProcess,
    {
        if connected {
            WaitStep::Ready
        } else {
            WaitStep::CheckProcess
        }
    }

    /// Continues after the process was asked for its exit status.
    pub fn process_checked(status: Result<Option<String>, String>) -> (step: Self)
        ensures
            step@ == after_process_check(status_view(status)),
            match status {
                Ok(None) => step is CheckClock,
                Ok(Some(exit)) => {
                    &&& step matches WaitStep::Failed(error)
                    &&& error matches X11ForwardingError::ManagedRuntimeFailed(text)
                    &&& text@ == "VcXsrv exited during startup with "@ + exit@
                },
                Err(detail) => {
                    &&& step matches WaitStep::Failed(error)
                    &&& error matches X11ForwardingError::ManagedRuntimeFailed(text)
                    &&& text@ == "VcXsrv process status could not be read: "@ + detail@
                },
            },
    {
        match status {
            Err(detail) => WaitStep::Failed(
                runtime_failure(RuntimeFault::ProcessStatus, detail.as_str()),
            ),
            Ok(Some(exit)) => WaitStep::Failed(
                runtime_failure(RuntimeFault::EarlyExit, exit.as_str()),
            ),
            Ok(None) => WaitStep::CheckClock,
        }
    }

    /// Continues after a look at the clock, which counts whole milliseconds
    /// since the wait began.
    pub fn clock_read(elapsed_millis: u64) -> (step: Self)
        ensures
            step@ == after_clock(elapsed_millis),
            elapsed_millis < 10_000 ==> step == (WaitStep::Sleep { millis: 50 }),
            elapsed_millis >= 10_000 ==> {
                &&& step matches WaitStep::Failed(error)
                &&& error matches X11ForwardingError::ManagedRuntimeFailed(text)
                &&& text@ == "VcXsrv did not accept X11 connections before the startup deadline"@
            },
    {
        if elapsed_millis >= SERVER_START_TIMEOUT_MILLIS {
            WaitStep::Failed(
                X11ForwardingError::ManagedRuntimeFailed(
                    "VcXsrv did not accept X11 connections before the startup deadline".to_owned(),
                ),
            )
        } else {
            WaitStep::Sleep { millis: SERVER_POLL_INTERVAL_MILLIS }
        }
    }
}

/// What one round of the wait would observe.
pub struct WaitRound {
    pub connected: bool,
    pub status: Result<Option<Seq<char>>, Seq<char>>,
    pub elapsed_millis: u64,
}

/// How a round ends: it goes no further than its observations carry it.
pub open spec fn round_end(round: WaitRound) -> WaitStepView {
    match after_connect(round.connected) {
        WaitStepView::CheckProcess => match after_process_check(round.status) {
            WaitStepView::CheckClock => after_clock(round.elapsed_millis),
            end => end,
        },
        end => end,
    }
}

/// How a wait ends, if its rounds observe what `rounds` says: the end of the
/// first round that does not sleep, or none while all of them do.
pub open spec fn wait_end(rounds: Seq<WaitRound>) -> Option<WaitStepView>
    decreases rounds.len(),
{
    if rounds.len() == 0 {
        None
    } else if round_end(rounds[0]) is Sleep {
        wait_end(rounds.drop_first())
    } else {
        Some(round_end(rounds[0]))
    }
}

/// A round is ready if and only if it connected, even past the deadline, and it
/// goes on if and only if the process still runs and there is time left.
pub proof fn lemma_wait_round(round: WaitRound)
    ensures
        round_end(round) is Ready <==> round.connected,
        round_end(round) is Sleep <==> (!round.connected && round.status == Ok::<
            Option<Seq<char>>,
            Seq<char>,
        >(None) && round.elapsed_millis < SERVER_START_TIMEOUT_MILLIS),
        round_end(round) is Ready || round_end(round) is Sleep || round_end(round) is Failed,
        round_end(round) is Sleep <==> (!round.connected && (round.status matches Ok(exit) && exit
            is None) && round.elapsed_millis < 10_000),
        round_end(round) matches WaitStepView::Sleep { millis } ==> millis == 50,
        round_end(round) matches WaitStepView::Failed(error) ==> error
            == X11ErrorView::ManagedRuntimeFailed(
            match round.status {
                Err(detail) => "VcXsrv process status could not be read: "@ + detail,
                Ok(Some(exit)) => "VcXsrv exited during startup with "@ + exit,
                Ok(None) => "VcXsrv did not accept X11 connections before the startup deadline"@,
            },
        ),
{
}

/// A wait never outlasts the first round that finds the deadline passed, and it
/// succeeds if and only if some round connects before any round fails.
pub proof fn lemma_wait_ends(rounds: Seq<WaitRound>)
    ensures
        (exists|i: int|
            0 <= i < rounds.len() && (#[trigger] rounds[i]).elapsed_millis
                >= SERVER_START_TIMEOUT_MILLIS) ==> wait_end(rounds) is Some,
        wait_end(rounds) == Some(WaitStepView::Ready) <==> exists|i: int|
            0 <= i < rounds.len() && (#[trigger] rounds[i]).connected && forall|j: int|
                0 <= j < i ==> round_end(#[trigger] rounds[j]) is Sleep,
    decreases rounds.len(),
{
    if rounds.len() > 0 {
        let rest = rounds.drop_first();
        lemma_wait_round(rounds[0]);
        lemma_wait_ends(rest);
        assert forall|i: int| 0 < i < rounds.len() implies rounds[i] == #[trigger] rest[i - 1] by {
        }
        if round_end(rounds[0]) is Sleep {
            if exists|i: int|
                0 <= i < rounds.len() && (#[trigger] rounds[i]).elapsed_millis
                    >= SERVER_START_TIMEOUT_MILLIS {
                let i = choose|i: int|
                    0 <= i < rounds.len() && (#[trigger] rounds[i]).elapsed_millis
                        >= SERVER_START_TIMEOUT_MILLIS;
                assert(rest[i - 1] == rounds[i]);
            }
            if wait_end(rounds) == Some(WaitStepView::Ready) {
                let k = choose|i: int|
                    0 <= i < rest.len() && (#[trigger] rest[i]).connected && forall|j: int|
                        0 <= j < i ==> round_end(#[trigger] rest[j]) is Sleep;
                assert(rounds[k + 1] == rest[k]);
                assert forall|j: int| 0 <= j < k + 1 implies round_end(
                    #[trigger] rounds[j],
                ) is Sleep by {
                    if j > 0 {
                        assert(rounds[j] == rest[j - 1]);
                    }
                }
            }
            if exists|i: int|
                0 <= i < rounds.len() && (#[trigger] rounds[i]).connected && forall|j: int|
                    0 <= j < i ==> round_end(#[trigger] rounds[j]) is Sleep {
                let i = choose|i: int|
                    0 <= i < rounds.len() && (#[trigger] rounds[i]).connected && forall|j: int|
                        0 <= j < i ==> round_end(#[trigger] rounds[j]) is Sleep;
                assert(i > 0);
                assert(rest[i - 1] == rounds[i]);
                assert forall|j: int| 0 <= j < i - 1 implies round_end(
                    #[trigger] rest[j],
                ) is Sleep by {
                    assert(rest[j] == rounds[j + 1]);
                }
            }
        } else {
            if rounds[0].connected {
                assert(exists|i: int|
                    0 <= i < rounds.len() && (#[trigger] rounds[i]).connected && forall|j: int|
                        0 <= j < i ==> round_end(#[trigger] rounds[j]) is Sleep);
            }
        }
    }
}

/// What is known of a child process before it is terminated.
#[derive(Clone, Copy, Debug, PartialEq, Eq, Structural)]
pub enum ChildStatus {
    Running,
    Exited,
    Unknown,
}

/// Whether a child has to be killed before it is waited for: unless it is known
/// to have exited.
pub fn needs_kill(status: ChildStatus) -> (kill: bool)
    ensures
        kill == (status != ChildStatus::Exited),
{
    match status {
        ChildStatus::Exited => false,
        _ => true,
    }
}

} // verus!
