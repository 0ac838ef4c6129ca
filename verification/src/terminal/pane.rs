//! The state of a terminal pane, as far as a reconnect touches it.

use vstd::prelude::*;

verus! {

/// The types of what a pane holds without looking into it.
pub trait PaneTypes {
    type TelnetConfig: Clone;

    type TelnetLogin;

    type SerialConfig: Clone;

    type SerialOptions;

    type GraphicsOptions: Clone;

    type Encoding: Copy;

    type Selection;

    type PendingPaste;

    type ContextMenu;

    type ContextAction;

    type MarkedText;

    type InlineHint;

    type SearchQuery;

    type SearchCache;

    type SearchMatch;

    type Link;

    type CommandMark;

    type CommandMarkId;

    type MousePoint;

    type InputTracker;

    type PrivilegePromptTracker;

    type ExpiryTask;

    type CommandFactLedger;
}

/// What a session talks to.
#[derive(Clone, Copy, Debug, PartialEq, Eq, Structural)]
pub enum TerminalSessionKind {
    Telnet,
    Serial,
    /// Anything that a pane does not reconnect by itself.
    Other,
}

/// The size of a terminal, in cells, and the size of a cell, in pixels.
#[derive(Clone, Copy, Debug, PartialEq, Eq, Structural)]
pub struct PtySize {
    pub cols: usize,
    pub rows: usize,
    pub cell_width: u16,
    pub cell_height: u16,
}

/// Something that follows a session: as it starts out, or with what it has seen.
pub enum TrackerState<T> {
    Fresh,
    Used(T),
}

/// The preferences that a new session is opened with.
pub struct PanePreferences<T: PaneTypes> {
    pub graphics_options: T::GraphicsOptions,
    pub terminal_encoding: T::Encoding,
    pub scrollback_lines: usize,
    /// The words that stand before the error when a serial port cannot be
    /// opened again.
    pub reconnect_failed: String,
}

/// A terminal pane.
pub struct TerminalPane<T: PaneTypes> {
    pub session_kind: TerminalSessionKind,
    pub preferences: PanePreferences<T>,
    /// The columns and rows of a session that was never given a size.
    pub default_size: (usize, usize),
    pub telnet_reconnect_config: Option<T::TelnetConfig>,
    pub serial_reconnect_config: Option<T::SerialConfig>,
    pub serial_port_available: Option<bool>,
    pub focused: bool,
    pub terminal_exited: bool,
    pub input_locked: bool,
    pub title: String,
    pub selection: Option<T::Selection>,
    pub selecting: bool,
    pub pending_paste: Option<T::PendingPaste>,
    pub context_menu: Option<T::ContextMenu>,
    pub context_action_requested: Option<T::ContextAction>,
    pub marked_text: Option<T::MarkedText>,
    pub privilege_prompt_inline_hint: Option<T::InlineHint>,
    pub privilege_prompt_submit_requested: bool,
    pub privilege_prompt_tracker: TrackerState<T::PrivilegePromptTracker>,
    pub privilege_prompt_expiry_generation: u64,
    pub privilege_prompt_expiry_task: Option<T::ExpiryTask>,
    pub search_query: Option<T::SearchQuery>,
    pub search_cache: Option<T::SearchCache>,
    pub selected_search_match: Option<T::SearchMatch>,
    pub hovered_link: Option<T::Link>,
    pub hovered_command_mark_id: Option<T::CommandMarkId>,
    pub last_mouse_report_point: Option<T::MousePoint>,
    pub command_marks: Vec<T::CommandMark>,
    pub command_marks_render_cache_dirty: bool,
    pub selected_command_mark_id: Option<T::CommandMarkId>,
    pub command_mark_id_aliases: Vec<(T::CommandMarkId, T::CommandMarkId)>,
    pub input_tracker: TrackerState<T::InputTracker>,
    pub command_fact_ledger: TrackerState<T::CommandFactLedger>,
    pub last_pty_resize: Option<PtySize>,
    pub pending_pty_resize: Option<PtySize>,
    pub last_drain_budget_exhausted: bool,
}

/// Something that a pane asks of the session and of the window it lives in.
pub enum PaneEffect<T: PaneTypes> {
    /// End the session of the pane.
    ShutdownSession,
    /// Open a telnet session.
    OpenTelnet {
        config: T::TelnetConfig,
        login: Option<T::TelnetLogin>,
        cols: usize,
        rows: usize,
        graphics: T::GraphicsOptions,
        encoding: T::Encoding,
        scrollback_lines: usize,
    },
    /// Open a serial session, and report whether that succeeded.
    OpenSerial {
        config: T::SerialConfig,
        cols: usize,
        rows: usize,
        graphics: T::GraphicsOptions,
        encoding: T::Encoding,
        scrollback_lines: usize,
    },
    /// Give the opened serial session these runtime options.
    RestoreSerialOptions { options: T::SerialOptions },
    /// Tell the opened session how large it is.
    ResizeSession(PtySize),
    /// Tell the opened session whether the pane has the focus.
    FocusSession { focused: bool },
    /// Make the opened session that of the pane, and its screen that of the
    /// pane.
    InstallSession,
    /// Note that the content has changed.
    MarkContentChanged,
    /// Have the session report its output or not, as the pane needs it.
    SyncOutputEvents,
    /// Tell the window that the state of the privilege prompt has changed.
    EmitPrivilegePromptStateChanged,
    /// Forget the remainder of a smooth scroll.
    ClearSmoothScrollRemainder,
    /// Start the blinking of the cursor anew.
    ResetCursorBlink,
    /// Wake the task that drains the session.
    WakeScheduler,
    /// Have the pane drawn again.
    Notify,
}

impl<T: PaneTypes> PaneEffect<T> {
    /// Whether the pane has to know that this request failed. That a session
    /// does not take its options, its size or the focus is passed over, and the
    /// requests behind it are performed all the same.
    pub fn failure_is_reported(&self) -> (reported: bool)
        ensures
            reported == (self is OpenSerial),
    {
        match self {
            PaneEffect::OpenSerial { .. } => true,
            _ => false,
        }
    }
}

/// The requests of a pane, in the order in which they are to be performed.
pub struct PaneContext<T: PaneTypes> {
    pub effects: Vec<PaneEffect<T>>,
}

impl<T: PaneTypes> View for PaneContext<T> {
    type V = Seq<PaneEffect<T>>;

    open spec fn view(&self) -> Seq<PaneEffect<T>> {
        self.effects@
    }
}

/// A context shows its requests, all of them and in order.
pub proof fn lemma_context_shows_its_requests<T: PaneTypes>(cx: PaneContext<T>)
    ensures
        cx@ == cx.effects@,
{
}

impl<T: PaneTypes> PaneContext<T> {
    /// No requests yet.
    pub fn new() -> (cx: Self)
        ensures
            cx@ == Seq::<PaneEffect<T>>::empty(),
            cx.effects@.len() == 0,
    {
        PaneContext { effects: Vec::new() }
    }

    /// Adds a request.
    pub fn request(&mut self, effect: PaneEffect<T>)
        ensures
            final(self)@ == old(self)@.push(effect),
            final(self).effects@ == old(self).effects@.push(effect),
    {
        self.effects.push(effect);
    }
}

} // verus!
