//! Connecting a pane again, over telnet or a serial port.

use vstd::prelude::*;

use crate::text::joined;
use crate::terminal::pane::{
    PaneContext, PaneEffect, PaneTypes, PtySize, TerminalPane, TerminalSessionKind, TrackerState,
};

verus! {

/// The requests that make an opened session that of the pane.
pub open spec fn replacement_effects<T: PaneTypes>() -> Seq<PaneEffect<T>> {
    seq![
        PaneEffect::InstallSession,
        PaneEffect::MarkContentChanged,
        PaneEffect::SyncOutputEvents,
        PaneEffect::EmitPrivilegePromptStateChanged,
        PaneEffect::ClearSmoothScrollRemainder,
        PaneEffect::ResetCursorBlink,
        PaneEffect::WakeScheduler,
        PaneEffect::Notify,
    ]
}

/// Whether nothing that belonged to the session before is left in a pane.
pub open spec fn holds_no_session_state<T: PaneTypes>(pane: TerminalPane<T>) -> bool {
    &&& !pane.terminal_exited
    &&& !pane.input_locked
    &&& pane.title@ == "OxideTerm"@
    &&& pane.selection is None
    &&& !pane.selecting
    &&& pane.pending_paste is None
    &&& pane.context_menu is None
    &&& pane.context_action_requested is None
    &&& pane.marked_text is None
    &&& pane.privilege_prompt_inline_hint is None
    &&& !pane.privilege_prompt_submit_requested
    &&& pane.privilege_prompt_tracker is Fresh
    &&& pane.privilege_prompt_expiry_task is None
    &&& pane.search_query is None
    &&& pane.search_cache is None
    &&& pane.selected_search_match is None
    &&& pane.hovered_link is None
    &&& pane.hovered_command_mark_id is None
    &&& pane.last_mouse_report_point is None
    &&& pane.command_marks@ == Seq::<T::CommandMark>::empty()
    &&& pane.command_marks_render_cache_dirty
    &&& pane.selected_command_mark_id is None
    &&& pane.command_mark_id_aliases@ == Seq::<(T::CommandMarkId, T::CommandMarkId)>::empty()
    &&& pane.input_tracker is Fresh
    &&& pane.command_fact_ledger is Fresh
    &&& pane.pending_pty_resize is None
    &&& !pane.last_drain_budget_exhausted
}

/// The number of the next privilege prompt: one more, and zero behind the last.
pub open spec fn next_generation(generation: u64) -> u64 {
    if generation == u64::MAX {
        0
    } else {
        (generation + 1) as u64
    }
}

/// Whether a pane is another one whose session was replaced by one of the given
/// size.
pub open spec fn is_replacement<T: PaneTypes>(
    before: TerminalPane<T>,
    after: TerminalPane<T>,
    resize: PtySize,
) -> bool {
    &&& holds_no_session_state(after)
    &&& after.last_pty_resize == Some(resize)
    &&& after.privilege_prompt_expiry_generation == next_generation(
        before.privilege_prompt_expiry_generation,
    )
    &&& after.session_kind == before.session_kind
    &&& after.preferences == before.preferences
    &&& after.default_size == before.default_size
    &&& after.telnet_reconnect_config == before.telnet_reconnect_config
    &&& after.focused == before.focused
}

/// The size that a pane gives to a new session: the one that its session was
/// last given, or the default in cells of unknown size.
pub open spec fn session_size<T: PaneTypes>(pane: TerminalPane<T>) -> PtySize {
    match pane.last_pty_resize {
        Some(size) => size,
        None => PtySize {
            cols: pane.default_size.0,
            rows: pane.default_size.1,
            cell_width: 0,
            cell_height: 0,
        },
    }
}

/// The requests that fit an opened session to the pane: its size, if the size of
/// a cell is known, and the focus.
pub open spec fn fitting_effects<T: PaneTypes>(size: PtySize, focused: bool) -> Seq<PaneEffect<T>> {
    if size.cell_width > 0 && size.cell_height > 0 {
        seq![PaneEffect::ResizeSession(size), PaneEffect::FocusSession { focused }]
    } else {
        seq![PaneEffect::FocusSession { focused }]
    }
}

/// Whether a pane can be connected again over telnet.
pub open spec fn can_reconnect_telnet<T: PaneTypes>(
    pane: TerminalPane<T>,
    session_running: bool,
) -> bool {
    &&& pane.session_kind == TerminalSessionKind::Telnet
    &&& !session_running
    &&& pane.telnet_reconnect_config is Some
}

/// The request that opens a telnet session to an endpoint. There is no login:
/// what the first session logged in with is not kept.
pub open spec fn open_telnet<T: PaneTypes>(
    pane: TerminalPane<T>,
    config: T::TelnetConfig,
    graphics: T::GraphicsOptions,
) -> PaneEffect<T> {
    PaneEffect::OpenTelnet {
        config,
        login: None,
        cols: session_size(pane).cols,
        rows: session_size(pane).rows,
        graphics,
        encoding: pane.preferences.terminal_encoding,
        scrollback_lines: pane.preferences.scrollback_lines,
    }
}

/// The requests of a reconnect over telnet.
pub open spec fn telnet_effects<T: PaneTypes>(
    pane: TerminalPane<T>,
    config: T::TelnetConfig,
    graphics: T::GraphicsOptions,
) -> Seq<PaneEffect<T>> {
    seq![PaneEffect::ShutdownSession, open_telnet(pane, config, graphics)] + fitting_effects(
        session_size(pane),
        pane.focused,
    ) + replacement_effects()
}

/// Whether a pane can be connected again over its serial port.
pub open spec fn serial_can_reconnect<T: PaneTypes>(pane: TerminalPane<T>) -> bool {
    pane.serial_reconnect_config is Some && pane.terminal_exited
}

/// The request that opens a serial session.
pub open spec fn open_serial<T: PaneTypes>(
    pane: TerminalPane<T>,
    config: T::SerialConfig,
    graphics: T::GraphicsOptions,
) -> PaneEffect<T> {
    PaneEffect::OpenSerial {
        config,
        cols: session_size(pane).cols,
        rows: session_size(pane).rows,
        graphics,
        encoding: pane.preferences.terminal_encoding,
        scrollback_lines: pane.preferences.scrollback_lines,
    }
}

/// The runtime options for a new serial session: those of the session before, or
/// the usual ones if it had none.
pub open spec fn options_for<O>(captured: Option<O>, usual: O) -> O {
    match captured {
        Some(options) => options,
        None => usual,
    }
}

/// Chooses the runtime options for a new serial session.
pub fn options_to_restore<O>(captured: Option<O>, usual: O) -> (options: O)
    ensures
        options == options_for(captured, usual),
        captured matches Some(before) ==> options == before,
        captured is None ==> options == usual,
{
    match captured {
        Some(options) => options,
        None => usual,
    }
}

/// The requests that open a serial port again.
pub open spec fn serial_open_effects<T: PaneTypes>(
    pane: TerminalPane<T>,
    config: T::SerialConfig,
    graphics: T::GraphicsOptions,
) -> Seq<PaneEffect<T>> {
    seq![PaneEffect::ShutdownSession, open_serial(pane, config, graphics)]
}

/// The requests that make an opened serial session that of the pane.
pub open spec fn serial_done_effects<T: PaneTypes>(
    options: T::SerialOptions,
    size: PtySize,
    focused: bool,
) -> Seq<PaneEffect<T>> {
    seq![PaneEffect::RestoreSerialOptions { options }] + fitting_effects(size, focused)
        + replacement_effects()
}

/// A serial reconnect whose port is being opened.
pub struct SerialReconnect<T: PaneTypes> {
    pub config: T::SerialConfig,
    pub resize: PtySize,
    /// The runtime options that the new session will be given.
    pub options: T::SerialOptions,
}

/// Whether a pane is another one whose serial session was replaced.
pub open spec fn is_serial_replacement<T: PaneTypes>(
    before: TerminalPane<T>,
    after: TerminalPane<T>,
    reconnect: SerialReconnect<T>,
) -> bool {
    &&& is_replacement(before, after, reconnect.resize)
    &&& after.serial_reconnect_config == Some(reconnect.config)
    &&& after.serial_port_available == Some(true)
}

/// Whether a pane is another one whose serial port could not be opened: it says
/// so in its title, and nothing else has changed.
pub open spec fn is_serial_failure<T: PaneTypes>(
    before: TerminalPane<T>,
    after: TerminalPane<T>,
    error: Seq<char>,
) -> bool {
    &&& after.title@ == before.preferences.reconnect_failed@ + ": "@ + error
    &&& after == (TerminalPane { title: after.title, ..before })
}

impl<T: PaneTypes> TerminalPane<T> {
    /// The size for a new session.
    fn new_session_size(&self) -> (size: PtySize)
        ensures
            size == session_size(*self),
    {
        match self.last_pty_resize {
            Some(size) => size,
            None => PtySize {
                cols: self.default_size.0,
                rows: self.default_size.1,
                cell_width: 0,
                cell_height: 0,
            },
        }
    }

    /// Fits an opened session to the pane.
    fn fit_session(&self, size: PtySize, cx: &mut PaneContext<T>)
        ensures
            final(cx)@ == old(cx)@ + fitting_effects::<T>(size, self.focused),
    {
        if size.cell_width > 0 && size.cell_height > 0 {
            cx.request(PaneEffect::ResizeSession(size));
        }
        cx.request(PaneEffect::FocusSession { focused: self.focused });
        assert(cx@ =~= old(cx)@ + fitting_effects::<T>(size, self.focused));
    }

    /// Connects a telnet pane again whose session does not run any more. Only
    /// the endpoint is kept of the first connection, and no login. Returns
    /// whether there was anything to do; if not, nothing changes and nothing is
    /// requested.
    pub fn reconnect_telnet(&mut self, session_running: bool, cx: &mut PaneContext<T>) -> (done:
        bool)
        ensures
            done == can_reconnect_telnet(*old(self), session_running),
            session_running ==> !done,
            done ==> old(self).session_kind == TerminalSessionKind::Telnet,
            done ==> old(self).telnet_reconnect_config is Some,
            !session_running && old(self).session_kind == TerminalSessionKind::Telnet && old(
                self,
            ).telnet_reconnect_config is Some ==> done,
            !done ==> *final(self) == *old(self) && final(cx)@ == old(cx)@,
            done ==> {
                &&& is_replacement(*old(self), *final(self), session_size(*old(self)))
                &&& final(self).serial_reconnect_config == old(self).serial_reconnect_config
                &&& final(self).serial_port_available == old(self).serial_port_available
                &&& exists|config: T::TelnetConfig, graphics: T::GraphicsOptions|
                    {
                        &&& cloned(old(self).telnet_reconnect_config->0, config)
                        &&& cloned(old(self).preferences.graphics_options, graphics)
                        &&& final(cx)@ == old(cx)@ + #[trigger] telnet_effects(
                            *old(self),
                            config,
                            graphics,
                        )
                    }
            },
    {
        match self.session_kind {
            TerminalSessionKind::Telnet => {},
            _ => {
                return false;
            },
        }
        if session_running {
            return false;
        }
        let config = match &self.telnet_reconnect_config {
            Some(config) => config.clone(),
            None => {
                return false;
            },
        };
        let ghost before = *self;
        let ghost requested = cx@;
        let resize = self.new_session_size();
        let graphics = self.preferences.graphics_options.clone();
        let ghost effects = telnet_effects(before, config, graphics);
        cx.request(PaneEffect::ShutdownSession);
        cx.request(
            PaneEffect::OpenTelnet {
                config,
                login: None,
                cols: resize.cols,
                rows: resize.rows,
                graphics,
                encoding: self.preferences.terminal_encoding,
                scrollback_lines: self.preferences.scrollback_lines,
            },
        );
        self.fit_session(resize, cx);
        self.replace_terminal_after_reconnect(resize, cx);
        assert(cx@ =~= requested + effects);
        true
    }

    /// Whether the pane can be connected again over its serial port.
    pub fn can_reconnect_serial(&self) -> (can: bool)
        ensures
            can == serial_can_reconnect(*self),
            can ==> self.serial_reconnect_config is Some,
            can ==> self.terminal_exited,
            self.serial_reconnect_config is Some && self.terminal_exited ==> can,
    {
        self.serial_reconnect_config.is_some() && self.terminal_exited
    }

    /// Begins to connect a pane again over its serial port: the old session is
    /// ended before the port is opened. `captured` are the runtime options of the
    /// old session, read before it is ended, and `usual` those for a session that
    /// has none. The pane itself is left as it is until it is known whether the
    /// port could be opened. `None` if there is nothing to do, and then nothing is
    /// requested.
    pub fn reconnect_serial(
        &self,
        captured: Option<T::SerialOptions>,
        usual: T::SerialOptions,
        cx: &mut PaneContext<T>,
    ) -> (reconnect: Option<SerialReconnect<T>>)
        ensures
            reconnect is Some == serial_can_reconnect(*self),
            reconnect is Some <==> self.serial_reconnect_config is Some && self.terminal_exited,
            reconnect matches Some(reconnect) ==> {
                &&& captured matches Some(before) ==> reconnect.options == before
                &&& captured is None ==> reconnect.options == usual
                &&& self.last_pty_resize matches Some(size) ==> reconnect.resize == size
                &&& self.last_pty_resize is None ==> reconnect.resize == (PtySize {
                    cols: self.default_size.0,
                    rows: self.default_size.1,
                    cell_width: 0,
                    cell_height: 0,
                })
            },
            reconnect is None ==> final(cx)@ == old(cx)@,
            reconnect matches Some(reconnect) ==> {
                &&& reconnect.resize == session_size(*self)
                &&& reconnect.options == options_for(captured, usual)
                &&& cloned(self.serial_reconnect_config->0, reconnect.config)
                &&& exists|config: T::SerialConfig, graphics: T::GraphicsOptions|
                    {
                        &&& cloned(reconnect.config, config)
                        &&& cloned(self.preferences.graphics_options, graphics)
                        &&& final(cx)@ == old(cx)@ + #[trigger] serial_open_effects(
                            *self,
                            config,
                            graphics,
                        )
                    }
            },
    {
        if !self.can_reconnect_serial() {
            return None;
        }
        let config = match &self.serial_reconnect_config {
            Some(config) => config.clone(),
            None => {
                return None;
            },
        };
        let resize = self.new_session_size();
        let opened = config.clone();
        let graphics = self.preferences.graphics_options.clone();
        let ghost effects = serial_open_effects(*self, opened, graphics);
        cx.request(PaneEffect::ShutdownSession);
        cx.request(
            PaneEffect::OpenSerial {
                config: opened,
                cols: resize.cols,
                rows: resize.rows,
                graphics,
                encoding: self.preferences.terminal_encoding,
                scrollback_lines: self.preferences.scrollback_lines,
            },
        );
        assert(cx@ =~= old(cx)@ + effects);
        Some(SerialReconnect { config, resize, options: options_to_restore(captured, usual) })
    }

    /// Completes a serial reconnect, now that the port was opened or could not
    /// be. An opened session is given the runtime options of the one before.
    pub fn finish_serial_reconnect(
        &mut self,
        reconnect: SerialReconnect<T>,
        outcome: Result<(), String>,
        cx: &mut PaneContext<T>,
    )
        ensures
            match outcome {
                Ok(_) => is_serial_replacement(*old(self), *final(self), reconnect) && final(cx)@
                    == old(cx)@ + serial_done_effects::<T>(
                    reconnect.options,
                    reconnect.resize,
                    old(self).focused,
                ),
                Err(error) => is_serial_failure(*old(self), *final(self), error@) && final(cx)@
                    == old(cx)@.push(PaneEffect::Notify),
            },
    {
        match outcome {
            Err(error) => {
                let prefix = joined(self.preferences.reconnect_failed.as_str(), ": ");
                self.title = joined(prefix.as_str(), error.as_str());
                cx.request(PaneEffect::Notify);
            },
            Ok(_) => {
                let SerialReconnect { config, resize, options } = reconnect;
                let ghost requested = cx@;
                let ghost focused = self.focused;
                cx.request(PaneEffect::RestoreSerialOptions { options });
                self.fit_session(resize, cx);
                self.serial_reconnect_config = Some(config);
                self.serial_port_available = Some(true);
                self.replace_terminal_after_reconnect(resize, cx);
                assert(cx@ =~= requested + serial_done_effects::<T>(options, resize, focused));
            },
        }
    }

    /// Makes an opened session that of the pane. Everything that belonged to the
    /// session before is forgotten. The kind of the pane stays what it is.
    pub fn replace_terminal_after_reconnect(&mut self, resize: PtySize, cx: &mut PaneContext<T>)
        ensures
            is_replacement(*old(self), *final(self), resize),
            final(self).serial_reconnect_config == old(self).serial_reconnect_config,
            final(self).serial_port_available == old(self).serial_port_available,
            final(cx)@ == old(cx)@ + replacement_effects::<T>(),
    {
        cx.request(PaneEffect::InstallSession);
        cx.request(PaneEffect::MarkContentChanged);
        self.terminal_exited = false;
        self.input_locked = false;
        self.title = "OxideTerm".to_owned();
        self.selection = None;
        self.pending_paste = None;
        self.context_menu = None;
        self.context_action_requested = None;
        self.marked_text = None;
        self.privilege_prompt_inline_hint = None;
        self.privilege_prompt_submit_requested = false;
        self.search_query = None;
        self.search_cache = None;
        self.selected_search_match = None;
        self.hovered_link = None;
        self.hovered_command_mark_id = None;
        self.selecting = false;
        self.last_mouse_report_point = None;
        self.command_marks.clear();
        self.command_marks_render_cache_dirty = true;
        self.selected_command_mark_id = None;
        self.command_mark_id_aliases.clear();
        self.input_tracker = TrackerState::Fresh;
        self.privilege_prompt_tracker = TrackerState::Fresh;
        self.privilege_prompt_expiry_generation =
        self.privilege_prompt_expiry_generation.wrapping_add(1);
        self.privilege_prompt_expiry_task = None;
        cx.request(PaneEffect::SyncOutputEvents);
        cx.request(PaneEffect::EmitPrivilegePromptStateChanged);
        self.command_fact_ledger = TrackerState::Fresh;
        self.last_pty_resize = Some(resize);
        self.pending_pty_resize = None;
        self.last_drain_budget_exhausted = false;
        cx.request(PaneEffect::ClearSmoothScrollRemainder);
        cx.request(PaneEffect::ResetCursorBlink);
        cx.request(PaneEffect::WakeScheduler);
        cx.request(PaneEffect::Notify);
        assert(cx@ =~= old(cx)@ + replacement_effects::<T>());
    }
}

} // verus!
