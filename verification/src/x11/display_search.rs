//! The search for a display on which the managed server starts. The displays are
//! tried in ascending order, all with the same cookie and the same files; whoever
//! drives the search performs what each step asks for and hands back what came of
//! it.

use vstd::prelude::*;

use crate::secret::SecretBytes;
use crate::text;
use crate::text::{decimal_text, joined};
use crate::x11::authority;
use crate::x11::authority::managed_authority_bytes;
use crate::x11::error;
use crate::x11::error::{
    runtime_failure, RuntimeFault, X11ErrorView, X11ForwardingError, X11Result,
};
use crate::x11::launch;
use crate::x11::launch::{begin_launch, display_port, LaunchStage, LaunchStep, LaunchStepView};
use crate::x11::setup;
use crate::x11::setup::{ServerSetup, SetupView};

verus! {

/// The last display that is tried.
pub const MAX_MANAGED_DISPLAY: u16 = 63;

/// A search that waits to hear whether the port of its display is free.
pub struct PortProbe<P> {
    display: u16,
    last_error: Option<X11ForwardingError>,
    setup: ServerSetup<P>,
}

/// A search that waits for the authority file of its display to be written.
pub struct AuthorityWrite<P> {
    display: u16,
    last_error: Option<X11ForwardingError>,
    setup: ServerSetup<P>,
    authority: SecretBytes,
}

/// A search that waits for the server to be launched on its display.
pub struct DisplayLaunch<P> {
    display: u16,
    last_error: Option<X11ForwardingError>,
    setup: ServerSetup<P>,
}

/// What a search does next.
pub enum SearchStep<P> {
    /// Find out whether the port of a display is free.
    ProbePort(PortProbe<P>),
    /// Write the authority file.
    WriteAuthority(AuthorityWrite<P>),
    /// Launch the server.
    Launch(DisplayLaunch<P>),
    /// The server runs on this display, with this cookie and these files.
    Running { display: u16, setup: ServerSetup<P> },
    /// There is no server.
    Failed(X11ForwardingError),
}

/// The state of a search as a mathematical value. `last_error` is the error of
/// the last launch that failed.
#[verifier::ext_equal]
pub enum SearchState<P> {
    ProbePort { display: u16, last_error: Option<X11ErrorView>, setup: SetupView<P> },
    WriteAuthority {
        display: u16,
        last_error: Option<X11ErrorView>,
        setup: SetupView<P>,
        authority: Seq<u8>,
    },
    Launch { display: u16, last_error: Option<X11ErrorView>, setup: SetupView<P> },
    Running { display: u16, setup: SetupView<P> },
    Failed(X11ErrorView),
}

/// The view of an error that may be missing.
pub open spec fn error_view(error: Option<X11ForwardingError>) -> Option<X11ErrorView> {
    match error {
        Some(error) => Some(error@),
        None => None,
    }
}

impl<P> View for PortProbe<P> {
    type V = SearchState<P>;

    closed spec fn view(&self) -> SearchState<P> {
        SearchState::ProbePort {
            display: self.display,
            last_error: error_view(self.last_error),
            setup: self.setup@,
        }
    }
}

impl<P> View for AuthorityWrite<P> {
    type V = SearchState<P>;

    closed spec fn view(&self) -> SearchState<P> {
        SearchState::WriteAuthority {
            display: self.display,
            last_error: error_view(self.last_error),
            setup: self.setup@,
            authority: self.authority@,
        }
    }
}

impl<P> View for DisplayLaunch<P> {
    type V = SearchState<P>;

    closed spec fn view(&self) -> SearchState<P> {
        SearchState::Launch {
            display: self.display,
            last_error: error_view(self.last_error),
            setup: self.setup@,
        }
    }
}

impl<P> View for SearchStep<P> {
    type V = SearchState<P>;

    open spec fn view(&self) -> SearchState<P> {
        match self {
            SearchStep::ProbePort(probe) => probe@,
            SearchStep::WriteAuthority(write) => write@,
            SearchStep::Launch(launch) => launch@,
            SearchStep::Running { display, setup } => SearchState::Running {
                display: *display,
                setup: setup@,
            },
            SearchStep::Failed(error) => SearchState::Failed(error@),
        }
    }
}

/// What a step is can be told from its mathematical value.
pub proof fn lemma_step_is_its_state<P>(step: SearchStep<P>)
    ensures
        step is ProbePort <==> step@ is ProbePort,
        step is WriteAuthority <==> step@ is WriteAuthority,
        step is Launch <==> step@ is Launch,
        step is Running <==> step@ is Running,
        step is Failed <==> step@ is Failed,
{
}

/// The error for a search that found every port taken.
pub open spec fn no_free_port() -> X11ErrorView {
    X11ErrorView::ManagedRuntimeFailed("no local X11 display port was available"@)
}

/// How the search goes on behind a display: with the next one, or, behind the
/// last, with the error of the last launch that failed.
pub open spec fn next_display<P>(
    display: u16,
    last_error: Option<X11ErrorView>,
    setup: SetupView<P>,
) -> SearchState<P> {
    if display < MAX_MANAGED_DISPLAY {
        SearchState::ProbePort { display: (display + 1) as u16, last_error, setup }
    } else {
        SearchState::Failed(
            match last_error {
                Some(error) => error,
                None => no_free_port(),
            },
        )
    }
}

/// What follows the probe of a port. A display whose port is taken is passed
/// over; for a free one the authority file is made.
pub open spec fn after_probe<P>(
    display: u16,
    last_error: Option<X11ErrorView>,
    setup: SetupView<P>,
    free: bool,
) -> SearchState<P> {
    if !free {
        next_display(display, last_error, setup)
    } else if setup.cookie.len() > 0xffff {
        SearchState::Failed(authority::field_too_large())
    } else {
        SearchState::WriteAuthority {
            display,
            last_error,
            setup,
            authority: authority::entry_record(authority::managed_entry(display, setup.cookie)),
        }
    }
}

/// What follows the attempt to write the authority file: a file that cannot be
/// written ends the search.
pub open spec fn after_write<P>(
    display: u16,
    last_error: Option<X11ErrorView>,
    setup: SetupView<P>,
    failure: Option<Seq<char>>,
) -> SearchState<P> {
    match failure {
        None => SearchState::Launch { display, last_error, setup },
        Some(detail) => SearchState::Failed(
            error::fault_report(RuntimeFault::AuthorityWrite, detail),
        ),
    }
}

/// What follows a launch: its error is kept, and the search goes on.
pub open spec fn after_launch<P>(
    display: u16,
    setup: SetupView<P>,
    failure: Option<X11ErrorView>,
) -> SearchState<P> {
    match failure {
        None => SearchState::Running { display, setup },
        Some(error) => next_display(display, Some(error), setup),
    }
}

/// Goes on behind a display.
fn go_on<P>(
    display: u16,
    last_error: Option<X11ForwardingError>,
    setup: ServerSetup<P>,
) -> (step: SearchStep<P>)
    requires
        display <= MAX_MANAGED_DISPLAY,
    ensures
        step@ == next_display(display, error_view(last_error), setup@),
{
    if display < MAX_MANAGED_DISPLAY {
        SearchStep::ProbePort(PortProbe { display: display + 1, last_error, setup })
    } else {
        SearchStep::Failed(
            match last_error {
                Some(error) => error,
                None => X11ForwardingError::ManagedRuntimeFailed(
                    "no local X11 display port was available".to_owned(),
                ),
            },
        )
    }
}

/// Starts a search at display zero. Every attempt uses this cookie and these
/// files.
pub fn begin_search<P>(setup: ServerSetup<P>) -> (step: SearchStep<P>)
    ensures
        step@ == (SearchState::ProbePort { display: 0, last_error: None, setup: setup@ }),
        step is ProbePort,
{
    SearchStep::ProbePort(PortProbe { display: 0, last_error: None, setup })
}

impl<P> PortProbe<P> {
    #[verifier::type_invariant]
    spec fn in_range(self) -> bool {
        self.display <= MAX_MANAGED_DISPLAY
    }

    /// The port in question: that of the display.
    pub fn port(&self) -> (port: u16)
        ensures
            self@ matches SearchState::ProbePort { display, .. } && port == 6000 + display,
            6000 <= port <= 6063,
    {
        proof {
            use_type_invariant(self);
        }
        display_port(self.display)
    }

    /// Goes on, now that the port is known to be free or taken.
    pub fn probed(self, free: bool) -> (step: SearchStep<P>)
        ensures
            self@ matches SearchState::ProbePort { display, last_error, setup } && step@
                == after_probe(display, last_error, setup, free),
            self@ matches SearchState::ProbePort { display, last_error, setup } && step@ == (
            if free && setup.cookie.len() <= 0xffff {
                SearchState::WriteAuthority {
                    display,
                    last_error,
                    setup,
                    authority: authority::entry_record(
                        authority::managed_entry(display, setup.cookie),
                    ),
                }
            } else if free {
                SearchState::Failed(
                    X11ErrorView::InvalidXauthRecord("managed xauthority field is too large"@),
                )
            } else if display < 63 {
                SearchState::ProbePort { display: (display + 1) as u16, last_error, setup }
            } else {
                SearchState::Failed(
                    match last_error {
                        Some(error) => error,
                        None => X11ErrorView::ManagedRuntimeFailed(
                            "no local X11 display port was available"@,
                        ),
                    },
                )
            }),
    {
        proof {
            use_type_invariant(&self);
        }
        let PortProbe { display, last_error, setup } = self;
        if !free {
            return go_on(display, last_error, setup);
        }
        match managed_authority_bytes(display, &setup.cookie) {
            Ok(authority) => SearchStep::WriteAuthority(
                AuthorityWrite { display, last_error, setup, authority },
            ),
            Err(error) => SearchStep::Failed(error),
        }
    }
}

impl<P> AuthorityWrite<P> {
    #[verifier::type_invariant]
    spec fn in_range(self) -> bool {
        self.display <= MAX_MANAGED_DISPLAY
    }

    /// Where the authority file has to be written.
    pub fn path(&self) -> (path: &P)
        ensures
            self@ matches SearchState::WriteAuthority { setup, .. } && *path
                == setup.files.authority_path,
    {
        &self.setup.files.authority_path
    }

    /// What the authority file has to hold.
    pub fn contents(&self) -> (bytes: &[u8])
        ensures
            self@ matches SearchState::WriteAuthority { authority, .. } && bytes@ == authority,
    {
        self.authority.as_slice()
    }

    /// Goes on, now that the file was written or could not be.
    pub fn written(self, outcome: Result<(), String>) -> (step: SearchStep<P>)
        ensures
            self@ matches SearchState::WriteAuthority { display, last_error, setup, .. } && step@
                == after_write(
                display,
                last_error,
                setup,
                match outcome {
                    Ok(_) => None,
                    Err(detail) => Some(detail@),
                },
            ),
            self@ matches SearchState::WriteAuthority { display, last_error, setup, .. } && step@
                == (match outcome {
                Ok(_) => SearchState::Launch { display, last_error, setup },
                Err(detail) => SearchState::Failed(
                    X11ErrorView::ManagedRuntimeFailed(
                        "private Xauthority could not be written: "@ + detail@,
                    ),
                ),
            }),
    {
        proof {
            use_type_invariant(&self);
        }
        let AuthorityWrite { display, last_error, setup, authority: _ } = self;
        match outcome {
            Ok(_) => SearchStep::Launch(DisplayLaunch { display, last_error, setup }),
            Err(detail) => SearchStep::Failed(
                runtime_failure(RuntimeFault::AuthorityWrite, detail.as_str()),
            ),
        }
    }
}

impl<P> DisplayLaunch<P> {
    #[verifier::type_invariant]
    spec fn in_range(self) -> bool {
        self.display <= MAX_MANAGED_DISPLAY
    }

    /// The display to launch the server on.
    pub fn display(&self) -> (number: u16)
        ensures
            self@ matches SearchState::Launch { display, .. } && number == display,
            number <= MAX_MANAGED_DISPLAY,
    {
        proof {
            use_type_invariant(self);
        }
        self.display
    }

    /// Starts the launch, on this display and with the files of the search: the
    /// authority file is the one that was written.
    pub fn begin(&self) -> (step: LaunchStep<&P>)
        ensures
            self@ matches SearchState::Launch { display, setup, .. } && step@ == (
            LaunchStepView::Perform {
                stage: LaunchStage::SpawnServer,
                display,
                files: setup::borrowed_files(&setup.files),
            }),
            self@ matches SearchState::Launch { display, setup, .. } && {
                &&& step@ matches LaunchStepView::Perform { stage, display: launched, files }
                &&& stage == LaunchStage::SpawnServer
                &&& launched == display
                &&& *files.runtime_dir == setup.files.runtime_dir
                &&& *files.authority_path == setup.files.authority_path
                &&& *files.log_path == setup.files.log_path
            },
            step is Perform,
    {
        proof {
            use_type_invariant(self);
        }
        let step = begin_launch(self.display, self.setup.files.borrowed());
        proof {
            launch::lemma_launch_step_is_its_view(step);
        }
        step
    }

    /// Goes on, now that the launch succeeded or failed.
    pub fn launched(self, outcome: X11Result<()>) -> (step: SearchStep<P>)
        ensures
            self@ matches SearchState::Launch { display, setup, .. } && step@ == after_launch(
                display,
                setup,
                match outcome {
                    Ok(_) => None,
                    Err(error) => Some(error@),
                },
            ),
            self@ matches SearchState::Launch { display, setup, .. } && step@ == (match outcome {
                Ok(_) => SearchState::Running { display, setup },
                Err(error) => if display < 63 {
                    SearchState::ProbePort {
                        display: (display + 1) as u16,
                        last_error: Some(error@),
                        setup,
                    }
                } else {
                    SearchState::Failed(error@)
                },
            }),
    {
        proof {
            use_type_invariant(&self);
        }
        let DisplayLaunch { display, last_error: _, setup } = self;
        match outcome {
            Ok(_) => SearchStep::Running { display, setup },
            Err(error) => go_on(display, Some(error), setup),
        }
    }
}

/// The name by which clients on this machine reach a display of the server.
pub fn managed_display_name(display: u16) -> (name: String)
    ensures
        name@ == "127.0.0.1:"@ + text::decimal(display as nat),
{
    let number = decimal_text(display);
    joined("127.0.0.1:", number.as_str())
}

} // verus!
