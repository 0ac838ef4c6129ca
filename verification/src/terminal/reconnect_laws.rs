//! What holds of every reconnect.

use vstd::prelude::*;

use crate::terminal::pane::{
    PaneEffect, PaneTypes, PtySize, TerminalPane, TerminalSessionKind,
};
use crate::terminal::reconnect;
use crate::terminal::reconnect::SerialReconnect;

verus! {

/// A telnet reconnect happens if and only if the pane is a telnet one, its session
/// does not run, and there is an endpoint to connect to, whatever else the pane
/// holds.
pub proof fn lemma_running_session_is_left_alone<T: PaneTypes>(
    pane: TerminalPane<T>,
    session_running: bool,
)
    ensures
        session_running ==> !reconnect::can_reconnect_telnet(pane, session_running),
        pane.session_kind != TerminalSessionKind::Telnet ==> !reconnect::can_reconnect_telnet(
            pane,
            session_running,
        ),
        pane.telnet_reconnect_config is None ==> !reconnect::can_reconnect_telnet(
            pane,
            session_running,
        ),
        !session_running && pane.session_kind == TerminalSessionKind::Telnet
            && pane.telnet_reconnect_config is Some ==> reconnect::can_reconnect_telnet(
            pane,
            session_running,
        ),
        reconnect::serial_can_reconnect(pane) <==> pane.serial_reconnect_config is Some
            && pane.terminal_exited,
{
}

/// A new session is as large as the last one was, or of the default size with
/// cells of unknown size.
pub proof fn lemma_new_session_has_the_last_size<T: PaneTypes>(pane: TerminalPane<T>)
    ensures
        pane.last_pty_resize matches Some(size) ==> reconnect::session_size(pane) == size,
        pane.last_pty_resize is None ==> {
            &&& reconnect::session_size(pane).cols == pane.default_size.0
            &&& reconnect::session_size(pane).rows == pane.default_size.1
            &&& reconnect::session_size(pane).cell_width == 0
            &&& reconnect::session_size(pane).cell_height == 0
        },
{
}

/// A replaced session leaves nothing of itself in the pane, whatever the pane
/// held: each field that follows a session is as in a new pane, the size is that
/// of the new session, and what belongs to the pane itself is kept.
pub proof fn lemma_replacement_forgets_the_session<T: PaneTypes>(
    before: TerminalPane<T>,
    after: TerminalPane<T>,
    resize: PtySize,
)
    requires
        reconnect::is_replacement(before, after, resize),
    ensures
        !after.terminal_exited,
        !after.input_locked,
        after.title@ == "OxideTerm"@,
        after.selection is None,
        !after.selecting,
        after.pending_paste is None,
        after.context_menu is None,
        after.context_action_requested is None,
        after.marked_text is None,
        after.privilege_prompt_inline_hint is None,
        !after.privilege_prompt_submit_requested,
        after.privilege_prompt_tracker is Fresh,
        after.privilege_prompt_expiry_task is None,
        after.search_query is None,
        after.search_cache is None,
        after.selected_search_match is None,
        after.hovered_link is None,
        after.hovered_command_mark_id is None,
        after.last_mouse_report_point is None,
        after.command_marks@.len() == 0,
        after.command_marks_render_cache_dirty,
        after.selected_command_mark_id is None,
        after.command_mark_id_aliases@.len() == 0,
        after.input_tracker is Fresh,
        after.command_fact_ledger is Fresh,
        after.pending_pty_resize is None,
        !after.last_drain_budget_exhausted,
        after.last_pty_resize == Some(resize),
        before.privilege_prompt_expiry_generation < u64::MAX
            ==> after.privilege_prompt_expiry_generation
            == before.privilege_prompt_expiry_generation + 1,
        before.privilege_prompt_expiry_generation == u64::MAX
            ==> after.privilege_prompt_expiry_generation == 0,
        after.session_kind == before.session_kind,
        after.preferences == before.preferences,
        after.default_size == before.default_size,
        after.telnet_reconnect_config == before.telnet_reconnect_config,
        after.focused == before.focused,
{
}

/// A finished serial reconnect keeps the config it was begun with and knows the
/// port to be available; a failed one says so in the title, in the user's language
/// and in the words of the system, and changes nothing else.
pub proof fn lemma_serial_outcome_shows_in_the_pane<T: PaneTypes>(
    before: TerminalPane<T>,
    after: TerminalPane<T>,
    reconnect: SerialReconnect<T>,
    error: Seq<char>,
)
    ensures
        reconnect::is_serial_replacement(before, after, reconnect) ==> {
            &&& reconnect::is_replacement(before, after, reconnect.resize)
            &&& after.serial_reconnect_config == Some(reconnect.config)
            &&& after.serial_port_available == Some(true)
        },
        reconnect::is_serial_failure(before, after, error) ==> {
            &&& after.title@ == before.preferences.reconnect_failed@ + ": "@ + error
            &&& after == (TerminalPane { title: after.title, ..before })
        },
{
}

/// What a telnet reconnect asks for, in order: the old session ends, a session to
/// the endpoint is opened without a login, it is given its size if the size of a
/// cell is known and then the focus, and it is made that of the pane.
pub proof fn lemma_telnet_requests<T: PaneTypes>(
    pane: TerminalPane<T>,
    config: T::TelnetConfig,
    graphics: T::GraphicsOptions,
)
    ensures
        ({
            let size = match pane.last_pty_resize {
                Some(size) => size,
                None => PtySize {
                    cols: pane.default_size.0,
                    rows: pane.default_size.1,
                    cell_width: 0,
                    cell_height: 0,
                },
            };
            let resizing: Seq<PaneEffect<T>> = if size.cell_width > 0 && size.cell_height > 0 {
                seq![PaneEffect::ResizeSession(size)]
            } else {
                seq![]
            };
            reconnect::telnet_effects(pane, config, graphics) == seq![
                PaneEffect::ShutdownSession,
                PaneEffect::OpenTelnet {
                    config,
                    login: None,
                    cols: size.cols,
                    rows: size.rows,
                    graphics,
                    encoding: pane.preferences.terminal_encoding,
                    scrollback_lines: pane.preferences.scrollback_lines,
                },
            ] + resizing + seq![
                PaneEffect::FocusSession { focused: pane.focused },
                PaneEffect::InstallSession,
                PaneEffect::MarkContentChanged,
                PaneEffect::SyncOutputEvents,
                PaneEffect::EmitPrivilegePromptStateChanged,
                PaneEffect::ClearSmoothScrollRemainder,
                PaneEffect::ResetCursorBlink,
                PaneEffect::WakeScheduler,
                PaneEffect::Notify,
            ]
        }),
{
}

/// What a serial reconnect asks for, in order: the old session ends, the port is
/// opened, and an opened session is given its options, its size if the size of a
/// cell is known and then the focus, and is made that of the pane.
pub proof fn lemma_serial_requests<T: PaneTypes>(
    pane: TerminalPane<T>,
    config: T::SerialConfig,
    graphics: T::GraphicsOptions,
    options: T::SerialOptions,
    size: PtySize,
    focused: bool,
)
    ensures
        reconnect::serial_open_effects(pane, config, graphics) == seq![
            PaneEffect::<T>::ShutdownSession,
            PaneEffect::OpenSerial {
                config,
                cols: match pane.last_pty_resize {
                    Some(size) => size.cols,
                    None => pane.default_size.0,
                },
                rows: match pane.last_pty_resize {
                    Some(size) => size.rows,
                    None => pane.default_size.1,
                },
                graphics,
                encoding: pane.preferences.terminal_encoding,
                scrollback_lines: pane.preferences.scrollback_lines,
            },
        ],
        ({
            let resizing: Seq<PaneEffect<T>> = if size.cell_width > 0 && size.cell_height > 0 {
                seq![PaneEffect::ResizeSession(size)]
            } else {
                seq![]
            };
            reconnect::serial_done_effects::<T>(options, size, focused) == seq![
                PaneEffect::<T>::RestoreSerialOptions { options },
            ] + resizing + seq![
                PaneEffect::FocusSession { focused },
                PaneEffect::InstallSession,
                PaneEffect::MarkContentChanged,
                PaneEffect::SyncOutputEvents,
                PaneEffect::EmitPrivilegePromptStateChanged,
                PaneEffect::ClearSmoothScrollRemainder,
                PaneEffect::ResetCursorBlink,
                PaneEffect::WakeScheduler,
                PaneEffect::Notify,
            ]
        }),
        reconnect::replacement_effects::<T>() == seq![
            PaneEffect::<T>::InstallSession,
            PaneEffect::MarkContentChanged,
            PaneEffect::SyncOutputEvents,
            PaneEffect::EmitPrivilegePromptStateChanged,
            PaneEffect::ClearSmoothScrollRemainder,
            PaneEffect::ResetCursorBlink,
            PaneEffect::WakeScheduler,
            PaneEffect::Notify,
        ],
{
}

/// A telnet reconnect never logs in by itself: it opens one session, without a
/// login, and only after the old session was asked to end.
pub proof fn lemma_telnet_reconnect_carries_no_login<T: PaneTypes>(
    pane: TerminalPane<T>,
    config: T::TelnetConfig,
    graphics: T::GraphicsOptions,
)
    ensures
        ({
            let effects = reconnect::telnet_effects(pane, config, graphics);
            &&& effects[0] == PaneEffect::<T>::ShutdownSession
            &&& effects[1] is OpenTelnet
            &&& effects[1]->OpenTelnet_login is None
            &&& effects[1]->OpenTelnet_config == config
            &&& forall|i: int|
                2 <= i < effects.len() ==> !((#[trigger] effects[i]) is OpenTelnet
                    || effects[i] is OpenSerial || effects[i] is ShutdownSession)
        }),
{
    let size = reconnect::session_size(pane);
    let fitting = reconnect::fitting_effects::<T>(size, pane.focused);
    let replacing = reconnect::replacement_effects::<T>();
    let effects = reconnect::telnet_effects(pane, config, graphics);
    assert forall|i: int| 2 <= i < effects.len() implies !((#[trigger] effects[i]) is OpenTelnet
        || effects[i] is OpenSerial || effects[i] is ShutdownSession) by {
        if i < 2 + fitting.len() {
            assert(effects[i] == fitting[i - 2]);
        } else {
            assert(effects[i] == replacing[i - 2 - fitting.len()]);
        }
    }
}

/// A serial port is opened only after the session that held it was asked to
/// end.
pub proof fn lemma_serial_port_is_released_first<T: PaneTypes>(
    pane: TerminalPane<T>,
    config: T::SerialConfig,
    graphics: T::GraphicsOptions,
)
    ensures
        ({
            let effects = reconnect::serial_open_effects(pane, config, graphics);
            &&& effects.len() == 2
            &&& effects[0] == PaneEffect::<T>::ShutdownSession
            &&& effects[1] is OpenSerial
            &&& effects[1]->OpenSerial_config == config
        }),
{
}

/// The runtime options of the old serial session carry over to the new one, and
/// the usual ones do if there were none: they are the first thing that an opened
/// session is given, once, before it becomes that of the pane. No failure of what
/// is asked of the opened session keeps it from becoming that.
pub proof fn lemma_serial_options_carry_over<T: PaneTypes>(
    captured: Option<T::SerialOptions>,
    usual: T::SerialOptions,
    size: PtySize,
    focused: bool,
)
    ensures
        ({
            let options = reconnect::options_for(captured, usual);
            let effects = reconnect::serial_done_effects::<T>(options, size, focused);
            &&& captured matches Some(before) ==> options == before
            &&& captured is None ==> options == usual
            &&& effects[0] == (PaneEffect::<T>::RestoreSerialOptions { options })
            &&& effects.contains(PaneEffect::InstallSession)
            &&& forall|i: int|
                1 <= i < effects.len() ==> (#[trigger] effects[i]) !is RestoreSerialOptions
            &&& forall|i: int| 0 <= i < effects.len() ==> (#[trigger] effects[i]) !is OpenSerial
        }),
{
    let options = reconnect::options_for(captured, usual);
    let fitting = reconnect::fitting_effects::<T>(size, focused);
    let replacing = reconnect::replacement_effects::<T>();
    let effects = reconnect::serial_done_effects::<T>(options, size, focused);
    assert(replacing[0] == PaneEffect::<T>::InstallSession);
    assert(effects[1 + fitting.len() as int] == replacing[0]);
    assert forall|i: int| 1 <= i < effects.len() implies (#[trigger] effects[i])
        !is RestoreSerialOptions && effects[i] !is OpenSerial by {
        if i < 1 + fitting.len() {
            assert(effects[i] == fitting[i - 1]);
        } else {
            assert(effects[i] == replacing[i - 1 - fitting.len()]);
        }
    }
}

/// A reconnect keeps the size of the terminal, and so does every one after it.
pub proof fn lemma_reconnect_keeps_the_size<T: PaneTypes>(
    before: TerminalPane<T>,
    after: TerminalPane<T>,
)
    requires
        reconnect::is_replacement(before, after, reconnect::session_size(before)),
    ensures
        reconnect::session_size(after) == reconnect::session_size(before),
{
}

/// A privilege prompt that expires after a reconnect finds that it is not the
/// current one.
pub proof fn lemma_reconnect_outdates_prompts<T: PaneTypes>(
    before: TerminalPane<T>,
    after: TerminalPane<T>,
    resize: PtySize,
)
    requires
        reconnect::is_replacement(before, after, resize),
    ensures
        after.privilege_prompt_expiry_generation != before.privilege_prompt_expiry_generation,
        after.privilege_prompt_expiry_task is None,
{
}

/// A serial pane that was connected again cannot be connected again until its
/// new session has ended; one whose port could not be opened can be tried again,
/// as if nothing had happened.
pub proof fn lemma_serial_reconnect_can_be_retried_after_failure<T: PaneTypes>(
    before: TerminalPane<T>,
    after: TerminalPane<T>,
    reconnect: SerialReconnect<T>,
    error: Seq<char>,
)
    requires
        reconnect::serial_can_reconnect(before),
    ensures
        reconnect::is_serial_replacement(before, after, reconnect)
            ==> !reconnect::serial_can_reconnect(after) && reconnect::serial_can_reconnect(
            TerminalPane { terminal_exited: true, ..after },
        ),
        reconnect::is_serial_failure(before, after, error) ==> reconnect::serial_can_reconnect(
            after,
        ) && reconnect::session_size(after) == reconnect::session_size(before),
{
}

/// A serial pane that was connected again holds a clone of its config, its port
/// is known to be available, and its new session has not ended: a second
/// reconnect right away finds nothing to do, so the new session is kept. Where a
/// clone is equal to what it was made from, the config is the one from before.
pub proof fn lemma_second_serial_reconnect_does_nothing<T: PaneTypes>(
    before: TerminalPane<T>,
    after: TerminalPane<T>,
    reconnect: SerialReconnect<T>,
)
    requires
        reconnect::serial_can_reconnect(before),
        cloned(before.serial_reconnect_config->0, reconnect.config),
        reconnect::is_serial_replacement(before, after, reconnect),
    ensures
        after.serial_reconnect_config matches Some(config) && cloned(
            before.serial_reconnect_config->0,
            config,
        ),
        after.serial_port_available == Some(true),
        !after.terminal_exited,
        !reconnect::serial_can_reconnect(after),
        (forall|a: T::SerialConfig, b: T::SerialConfig| #[trigger] cloned(a, b) ==> a == b)
            ==> after.serial_reconnect_config == before.serial_reconnect_config,
{
}

} // verus!
