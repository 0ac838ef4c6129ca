//! The start of the managed server: first its files are located, then a private
//! directory and a cookie are made, and only then a display is searched.

use vstd::prelude::*;

use crate::x11::authority::X11AuthCookie;
use crate::x11::display_search::{begin_search, SearchState, SearchStep};
use crate::x11::display_search_laws;
use crate::x11::display_search_laws::DisplayOutcome;
use crate::x11::error;
use crate::x11::error::{
    runtime_failure, RuntimeFault, X11ErrorView, X11ForwardingError, X11Result,
};
use crate::x11::setup::{PrivateFiles, ServerFiles, ServerSetup, SetupView};

verus! {

/// A start that waits for the private directory to be made.
pub struct DirectoryCreation<P> {
    pub runtime_dir: P,
}

/// A start that waits for a cookie.
pub struct CookieDraw<P> {
    pub files: ServerFiles<P>,
}

/// What a start does next.
pub enum StartStep<P> {
    /// Locate the files of the server.
    LocateRuntime,
    /// Make the private directory of the server.
    CreateDirectory(DirectoryCreation<P>),
    /// Draw a random cookie.
    DrawCookie(CookieDraw<P>),
    /// Search for a display.
    Search(SearchStep<P>),
    /// There is no server.
    Failed(X11ForwardingError),
}

/// What a start does next, as a mathematical value.
#[verifier::ext_equal]
pub enum StartState<P> {
    LocateRuntime,
    CreateDirectory { runtime_dir: P },
    DrawCookie { files: ServerFiles<P> },
    Search(SearchState<P>),
    Failed(X11ErrorView),
}

impl<P> View for StartStep<P> {
    type V = StartState<P>;

    open spec fn view(&self) -> StartState<P> {
        match self {
            StartStep::LocateRuntime => StartState::LocateRuntime,
            StartStep::CreateDirectory(creation) => StartState::CreateDirectory {
                runtime_dir: creation.runtime_dir,
            },
            StartStep::DrawCookie(draw) => StartState::DrawCookie { files: draw.files },
            StartStep::Search(step) => StartState::Search(step@),
            StartStep::Failed(error) => StartState::Failed(error@),
        }
    }
}

/// What follows the attempt to locate the files: its error ends the start
/// unchanged.
pub open spec fn after_location<P>(location: Result<P, X11ErrorView>) -> StartState<P> {
    match location {
        Ok(runtime_dir) => StartState::CreateDirectory { runtime_dir },
        Err(error) => StartState::Failed(error),
    }
}

/// What follows the attempt to make the directory.
pub open spec fn after_directory<P>(
    runtime_dir: P,
    directory: Result<PrivateFiles<P>, Seq<char>>,
) -> StartState<P> {
    match directory {
        Ok(private) => StartState::DrawCookie {
            files: ServerFiles {
                runtime_dir,
                authority_path: private.authority_path,
                log_path: private.log_path,
            },
        },
        Err(detail) => StartState::Failed(
            error::fault_report(RuntimeFault::PrivateDirectory, detail),
        ),
    }
}

/// What follows the drawing of a cookie: the search, from display zero on.
pub open spec fn after_cookie<P>(files: ServerFiles<P>, cookie: Seq<u8>) -> StartState<P> {
    StartState::Search(
        SearchState::ProbePort { display: 0, last_error: None, setup: SetupView { cookie, files } },
    )
}

impl<P> StartStep<P> {
    /// Begins a start.
    pub fn begin() -> (step: Self)
        ensures
            step@ == StartState::<P>::LocateRuntime,
            step is LocateRuntime,
    {
        StartStep::LocateRuntime
    }

    /// Continues after the attempt to locate the files, which gives the directory
    /// that holds them.
    pub fn runtime_located(outcome: X11Result<P>) -> (step: Self)
        ensures
            step@ == after_location(
                match outcome {
                    Ok(runtime_dir) => Ok(runtime_dir),
                    Err(error) => Err(error@),
                },
            ),
            match outcome {
                Ok(runtime_dir) => {
                    step matches StartStep::CreateDirectory(creation) && creation.runtime_dir
                        == runtime_dir
                },
                Err(failure) => (step matches StartStep::Failed(error) && error == failure),
            },
    {
        match outcome {
            Ok(runtime_dir) => StartStep::CreateDirectory(DirectoryCreation { runtime_dir }),
            Err(error) => StartStep::Failed(error),
        }
    }
}

impl<P> DirectoryCreation<P> {
    /// Continues after the attempt to make the directory, which gives the paths of
    /// the files in it.
    pub fn created(self, outcome: Result<PrivateFiles<P>, String>) -> (step: StartStep<P>)
        ensures
            step@ == after_directory(
                self.runtime_dir,
                match outcome {
                    Ok(private) => Ok(private),
                    Err(detail) => Err(detail@),
                },
            ),
            match outcome {
                Ok(private) => {
                    &&& step matches StartStep::DrawCookie(draw)
                    &&& draw.files.runtime_dir == self.runtime_dir
                    &&& draw.files.authority_path == private.authority_path
                    &&& draw.files.log_path == private.log_path
                },
                Err(detail) => {
                    &&& step matches StartStep::Failed(error)
                    &&& error matches X11ForwardingError::ManagedRuntimeFailed(text)
                    &&& text@ == "private runtime directory could not be created: "@ + detail@
                },
            },
    {
        match outcome {
            Ok(private) => StartStep::DrawCookie(
                CookieDraw {
                    files: ServerFiles {
                        runtime_dir: self.runtime_dir,
                        authority_path: private.authority_path,
                        log_path: private.log_path,
                    },
                },
            ),
            Err(detail) => StartStep::Failed(
                runtime_failure(RuntimeFault::PrivateDirectory, detail.as_str()),
            ),
        }
    }
}

impl<P> CookieDraw<P> {
    /// Continues with the cookie that was drawn.
    pub fn drawn(self, cookie: X11AuthCookie) -> (step: StartStep<P>)
        ensures
            step@ == after_cookie(self.files, cookie@),
            step matches StartStep::Search(search) && search@ == (SearchState::ProbePort {
                display: 0,
                last_error: None,
                setup: SetupView { cookie: cookie@, files: self.files },
            }),
    {
        StartStep::Search(begin_search(ServerSetup { cookie, files: self.files }))
    }
}

/// How a start ends, if locating the files and making the directory go as said,
/// this cookie is drawn, and the system makes of each display what `outcomes`
/// says.
pub open spec fn start_result<P>(
    location: Result<P, X11ErrorView>,
    directory: Result<PrivateFiles<P>, Seq<char>>,
    cookie: Seq<u8>,
    outcomes: Seq<DisplayOutcome>,
) -> StartState<P> {
    match after_location(location) {
        StartState::CreateDirectory { runtime_dir } => match after_directory(
            runtime_dir,
            directory,
        ) {
            StartState::DrawCookie { files } => match after_cookie(files, cookie) {
                StartState::Search(state) => StartState::Search(
                    display_search_laws::search_end(state, outcomes),
                ),
                end => end,
            },
            end => end,
        },
        end => end,
    }
}

/// Files that are not found end the start with their own error, and a private
/// directory that cannot be made ends it with a report of that, whatever the
/// displays would have been: no port is probed and nothing is launched. With both
/// at hand the start ends as the search with the located files, the files of the
/// directory and the cookie does.
pub proof fn lemma_start_needs_files_and_directory<P>(
    location: Result<P, X11ErrorView>,
    directory: Result<PrivateFiles<P>, Seq<char>>,
    cookie: Seq<u8>,
    outcomes: Seq<DisplayOutcome>,
)
    ensures
        start_result(location, directory, cookie, outcomes) == match (location, directory) {
            (Err(error), _) => StartState::Failed(error),
            (Ok(_), Err(detail)) => StartState::Failed(
                error::fault_report(RuntimeFault::PrivateDirectory, detail),
            ),
            (Ok(runtime_dir), Ok(private)) => StartState::Search(
                display_search_laws::search_result(
                    outcomes,
                    SetupView {
                        cookie,
                        files: ServerFiles {
                            runtime_dir,
                            authority_path: private.authority_path,
                            log_path: private.log_path,
                        },
                    },
                ),
            ),
        },
{
}

} // verus!
