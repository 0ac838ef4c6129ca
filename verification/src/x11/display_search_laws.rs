//! How a search for a display ends, whatever the system makes of its steps.

use vstd::prelude::*;

use crate::x11::authority;
use crate::x11::authority_laws;
use crate::x11::display_search;
use crate::x11::display_search::{SearchState, MAX_MANAGED_DISPLAY};
use crate::x11::error;
use crate::x11::error::{RuntimeFault, X11ErrorView};
use crate::x11::launch;
use crate::x11::launch::LaunchArgView;
use crate::x11::setup;
use crate::x11::setup::SetupView;

verus! {

/// What the system makes of a display when the search comes to it.
pub enum DisplayOutcome {
    PortTaken,
    WriteFailed(Seq<char>),
    LaunchFailed(X11ErrorView),
    Launched,
}

/// The state that follows a state, given what the system makes of each display.
pub open spec fn next_state<P>(state: SearchState<P>, outcomes: Seq<DisplayOutcome>) -> SearchState<P> {
    match state {
        SearchState::ProbePort { display, last_error, setup } => display_search::after_probe(
            display,
            last_error,
            setup,
            outcomes[display as int] !is PortTaken,
        ),
        SearchState::WriteAuthority {
            display,
            last_error,
            setup,
            ..
        } => display_search::after_write(
            display,
            last_error,
            setup,
            match outcomes[display as int] {
                DisplayOutcome::WriteFailed(detail) => Some(detail),
                _ => None,
            },
        ),
        SearchState::Launch { display, setup, .. } => display_search::after_launch(
            display,
            setup,
            match outcomes[display as int] {
                DisplayOutcome::LaunchFailed(error) => Some(error),
                _ => None,
            },
        ),
        end => end,
    }
}

/// How many steps a search can still take.
pub open spec fn steps_left<P>(state: SearchState<P>) -> int {
    match state {
        SearchState::ProbePort { display, .. } => 3 * (MAX_MANAGED_DISPLAY - display) + 3,
        SearchState::WriteAuthority { display, .. } => 3 * (MAX_MANAGED_DISPLAY - display) + 2,
        SearchState::Launch { display, .. } => 3 * (MAX_MANAGED_DISPLAY - display) + 1,
        _ => 0,
    }
}

/// The state in which a search ends.
pub open spec fn search_end<P>(state: SearchState<P>, outcomes: Seq<DisplayOutcome>) -> SearchState<P>
    decreases steps_left(state),
{
    if steps_left(state) <= 0 {
        state
    } else {
        search_end(next_state(state, outcomes), outcomes)
    }
}

/// The state in which a search that starts at display zero ends.
pub open spec fn search_result<P>(outcomes: Seq<DisplayOutcome>, setup: SetupView<P>) -> SearchState<P> {
    search_end(SearchState::ProbePort { display: 0, last_error: None, setup }, outcomes)
}

/// Whether the search goes on behind a display.
pub open spec fn passed_over(outcome: DisplayOutcome) -> bool {
    outcome is PortTaken || outcome is LaunchFailed
}

/// The error of the last launch that failed on the first `count` displays.
pub open spec fn last_failure(outcomes: Seq<DisplayOutcome>, count: nat) -> Option<X11ErrorView>
    decreases count,
{
    if count == 0 {
        None
    } else {
        match outcomes[count - 1] {
            DisplayOutcome::LaunchFailed(error) => Some(error),
            _ => last_failure(outcomes, (count - 1) as nat),
        }
    }
}

/// A search takes at most three steps for each display before it ends.
pub proof fn lemma_search_advances<P>(
    state: SearchState<P>,
    outcomes: Seq<DisplayOutcome>,
    setup: SetupView<P>,
)
    ensures
        steps_left(state) > 0 ==> steps_left(next_state(state, outcomes)) < steps_left(state),
        steps_left(SearchState::ProbePort { display: 0, last_error: None, setup }) == 3 * 64,
{
}

/// Whether a state goes with a setup: it holds this cookie and these files, and
/// an authority file that is to be written is made for the cookie. An error goes
/// with any.
pub open spec fn goes_with<P>(state: SearchState<P>, setup: SetupView<P>) -> bool {
    match state {
        SearchState::ProbePort { setup: held, .. } => held == setup,
        SearchState::WriteAuthority { display, setup: held, authority, .. } => {
            &&& held == setup
            &&& authority == authority::entry_record(
                authority::managed_entry(display, setup.cookie),
            )
        },
        SearchState::Launch { setup: held, .. } => held == setup,
        SearchState::Running { setup: held, .. } => held == setup,
        SearchState::Failed(_) => true,
    }
}

/// All attempts of a search use the cookie and the files that it was started
/// with, and those are the cookie and the files of the server in the end. So the
/// authority file that is written is the one that the server is launched with.
pub proof fn lemma_one_setup_for_all_attempts<P>(
    state: SearchState<P>,
    outcomes: Seq<DisplayOutcome>,
    setup: SetupView<P>,
)
    requires
        goes_with(state, setup),
    ensures
        goes_with(next_state(state, outcomes), setup),
        goes_with(search_end(state, outcomes), setup),
        goes_with(search_result(outcomes, setup), setup),
{
    lemma_end_goes_with(state, outcomes, setup);
    lemma_end_goes_with(
        SearchState::ProbePort { display: 0, last_error: None, setup },
        outcomes,
        setup,
    );
}

/// The end of a search goes with the setup that its states go with.
proof fn lemma_end_goes_with<P>(
    state: SearchState<P>,
    outcomes: Seq<DisplayOutcome>,
    setup: SetupView<P>,
)
    requires
        goes_with(state, setup),
    ensures
        goes_with(search_end(state, outcomes), setup),
    decreases steps_left(state),
{
    if steps_left(state) > 0 {
        lemma_end_goes_with(next_state(state, outcomes), outcomes, setup);
    }
}

/// A display whose port is free is the one that the server is launched on and
/// then runs on, and the authority file that is written for it is read as one
/// entry: the setup, for every address of this display.
pub proof fn lemma_display_is_kept<P>(
    display: u16,
    last_error: Option<X11ErrorView>,
    setup: SetupView<P>,
)
    requires
        setup.cookie.len() <= 0xffff,
    ensures
        ({
            let file = authority::entry_record(authority::managed_entry(display, setup.cookie));
            &&& display_search::after_probe(display, last_error, setup, true) == (
            SearchState::WriteAuthority { display, last_error, setup, authority: file })
            &&& authority::entries_from(file, 0) == Some(
                seq![authority::managed_entry(display, setup.cookie)],
            )
        }),
        display_search::after_write(display, last_error, setup, None) == (SearchState::Launch {
            display,
            last_error,
            setup,
        }),
        display_search::after_launch(display, setup, None) == (SearchState::Running {
            display,
            setup,
        }),
{
    authority_laws::lemma_managed_authority_reads_back(display, setup.cookie);
}

/// The command line of a launch that a search begins names the files of the search
/// and no others: behind `-auth` its authority file, behind `-logfile` its log
/// file.
pub proof fn lemma_launch_names_the_files_of_the_search<P>(display: u16, setup: SetupView<P>)
    ensures
        ({
            let files = setup::borrowed_files(&setup.files);
            let line = launch::launch_line(display, files.authority_path, files.log_path);
            &&& *files.runtime_dir == setup.files.runtime_dir
            &&& launch::stand_together(
                line,
                LaunchArgView::Text("-auth"@),
                LaunchArgView::Path(&setup.files.authority_path),
            )
            &&& launch::stand_together(
                line,
                LaunchArgView::Text("-logfile"@),
                LaunchArgView::Path(&setup.files.log_path),
            )
            &&& forall|i: int|
                0 <= i < line.len() ==> ((#[trigger] line[i]) is Path ==> i == 13 || i == 15)
        }),
{
    let files = setup::borrowed_files(&setup.files);
    let line = launch::launch_line(display, files.authority_path, files.log_path);
    assert(line[12] == LaunchArgView::<&P>::Text("-auth"@));
    assert(line[13] == LaunchArgView::Path(&setup.files.authority_path));
    assert(line[14] == LaunchArgView::<&P>::Text("-logfile"@));
    assert(line[15] == LaunchArgView::Path(&setup.files.log_path));
}

/// How a search goes from one display to the next, for every display and every
/// outcome. A taken port keeps the last failure, a failed launch replaces it, and
/// behind display 63 it is reported. Nothing but a free port leads to a launch.
pub proof fn lemma_search_goes_on_by_one<P>(
    display: u16,
    last_error: Option<X11ErrorView>,
    setup: SetupView<P>,
    error: X11ErrorView,
)
    requires
        display <= 63,
    ensures
        display < 63 ==> display_search::after_probe(display, last_error, setup, false) == (
        SearchState::ProbePort { display: (display + 1) as u16, last_error, setup }),
        display < 63 ==> display_search::after_launch(display, setup, Some(error)) == (
        SearchState::ProbePort { display: (display + 1) as u16, last_error: Some(error), setup }),
        display_search::after_launch(63, setup, Some(error)) == SearchState::<P>::Failed(error),
        display_search::after_probe(63, Some(error), setup, false) == SearchState::<P>::Failed(
            error,
        ),
        display_search::after_probe(63, None, setup, false) == SearchState::<P>::Failed(
            X11ErrorView::ManagedRuntimeFailed("no local X11 display port was available"@),
        ),
        display_search::after_launch(display, setup, None) == (SearchState::Running {
            display,
            setup,
        }),
        display_search::after_probe(display, last_error, setup, true) is WriteAuthority
            <==> setup.cookie.len() <= 0xffff,
        forall|detail: Seq<char>| #[trigger]
            display_search::after_write(display, last_error, setup, Some(detail))
                == SearchState::<P>::Failed(
                X11ErrorView::ManagedRuntimeFailed(
                    "private Xauthority could not be written: "@ + detail,
                ),
            ),
{
}

/// A search that passed over the first displays is at the next one, and
/// remembers the last launch that failed.
proof fn lemma_search_reaches<P>(outcomes: Seq<DisplayOutcome>, setup: SetupView<P>, display: u16)
    requires
        display <= MAX_MANAGED_DISPLAY,
        forall|i: int| 0 <= i < display ==> passed_over(#[trigger] outcomes[i]),
        setup.cookie.len() <= 0xffff || forall|i: int|
            0 <= i < display ==> (#[trigger] outcomes[i]) is PortTaken,
    ensures
        search_result(outcomes, setup) == search_end(
            SearchState::ProbePort {
                display,
                last_error: last_failure(outcomes, display as nat),
                setup,
            },
            outcomes,
        ),
    decreases display,
{
    if display > 0 {
        let before = (display - 1) as u16;
        lemma_search_reaches(outcomes, setup, before);
        reveal_with_fuel(search_end, 4);
        assert(passed_over(outcomes[before as int]));
    }
}

/// The server runs on the first display on which it can be launched.
pub proof fn lemma_first_launch_wins<P>(outcomes: Seq<DisplayOutcome>, setup: SetupView<P>, display: u16)
    requires
        display <= MAX_MANAGED_DISPLAY,
        setup.cookie.len() <= 0xffff,
        forall|i: int| 0 <= i < display ==> passed_over(#[trigger] outcomes[i]),
        outcomes[display as int] is Launched,
    ensures
        search_result(outcomes, setup) == (SearchState::Running { display, setup }),
{
    lemma_search_reaches(outcomes, setup, display);
    reveal_with_fuel(search_end, 4);
}

/// An authority file that cannot be written ends the search at once.
pub proof fn lemma_failed_write_ends_the_search<P>(
    outcomes: Seq<DisplayOutcome>,
    setup: SetupView<P>,
    display: u16,
)
    requires
        display <= MAX_MANAGED_DISPLAY,
        setup.cookie.len() <= 0xffff,
        forall|i: int| 0 <= i < display ==> passed_over(#[trigger] outcomes[i]),
        outcomes[display as int] is WriteFailed,
    ensures
        search_result(outcomes, setup) == SearchState::<P>::Failed(
            error::fault_report(
                RuntimeFault::AuthorityWrite,
                outcomes[display as int]->WriteFailed_0,
            ),
        ),
{
    lemma_search_reaches(outcomes, setup, display);
    reveal_with_fuel(search_end, 4);
}

/// A search that passed over every display reports the last launch that failed,
/// or, if no port was free, just that.
pub proof fn lemma_exhausted_search_reports_last_failure<P>(
    outcomes: Seq<DisplayOutcome>,
    setup: SetupView<P>,
)
    requires
        setup.cookie.len() <= 0xffff || forall|i: int|
            0 <= i <= MAX_MANAGED_DISPLAY ==> (#[trigger] outcomes[i]) is PortTaken,
        forall|i: int| 0 <= i <= MAX_MANAGED_DISPLAY ==> passed_over(#[trigger] outcomes[i]),
    ensures
        search_result(outcomes, setup) == SearchState::<P>::Failed(
            match last_failure(outcomes, 64) {
                Some(error) => error,
                None => display_search::no_free_port(),
            },
        ),
        last_failure(outcomes, 64) is None <==> forall|i: int|
            0 <= i <= MAX_MANAGED_DISPLAY ==> (#[trigger] outcomes[i]) is PortTaken,
{
    lemma_search_reaches(outcomes, setup, MAX_MANAGED_DISPLAY);
    reveal_with_fuel(search_end, 4);
    assert(passed_over(outcomes[63]));
    lemma_no_failure_means_taken(outcomes, 64);
}

/// No launch failed on displays that were passed over if and only if all their
/// ports were taken.
proof fn lemma_no_failure_means_taken(outcomes: Seq<DisplayOutcome>, count: nat)
    requires
        forall|i: int| 0 <= i < count ==> passed_over(#[trigger] outcomes[i]),
    ensures
        last_failure(outcomes, count) is None <==> forall|i: int|
            0 <= i < count ==> (#[trigger] outcomes[i]) is PortTaken,
    decreases count,
{
    if count > 0 {
        lemma_no_failure_means_taken(outcomes, (count - 1) as nat);
        assert(passed_over(outcomes[count - 1]));
    }
}

/// A cookie that no record can hold is refused on the first display whose port
/// is free, before anything is written or launched.
pub proof fn lemma_oversized_cookie_is_refused<P>(
    outcomes: Seq<DisplayOutcome>,
    setup: SetupView<P>,
    display: u16,
)
    requires
        display <= MAX_MANAGED_DISPLAY,
        setup.cookie.len() > 0xffff,
        forall|i: int| 0 <= i < display ==> (#[trigger] outcomes[i]) is PortTaken,
        outcomes[display as int] !is PortTaken,
    ensures
        search_result(outcomes, setup) == SearchState::<P>::Failed(authority::field_too_large()),
{
    assert forall|i: int| 0 <= i < display implies passed_over(#[trigger] outcomes[i]) by {
        assert(outcomes[i] is PortTaken);
    }
    lemma_search_reaches(outcomes, setup, display);
    reveal_with_fuel(search_end, 4);
}

} // verus!
