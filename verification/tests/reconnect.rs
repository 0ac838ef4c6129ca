use oxideterm::terminal::reconnect::options_to_restore;
use oxideterm::terminal::pane::{
    PaneContext, PaneEffect, PanePreferences, PaneTypes, PtySize, TerminalPane,
    TerminalSessionKind, TrackerState,
};

struct Plain;

impl PaneTypes for Plain {
    type TelnetConfig = String;
    type TelnetLogin = String;
    type SerialConfig = String;
    type SerialOptions = u32;
    type GraphicsOptions = u8;
    type Encoding = u8;
    type Selection = u8;
    type PendingPaste = u8;
    type ContextMenu = u8;
    type ContextAction = u8;
    type MarkedText = u8;
    type InlineHint = u8;
    type SearchQuery = u8;
    type SearchCache = u8;
    type SearchMatch = u8;
    type Link = u8;
    type CommandMark = u8;
    type CommandMarkId = u8;
    type MousePoint = u8;
    type InputTracker = u8;
    type PrivilegePromptTracker = u8;
    type ExpiryTask = u8;
    type CommandFactLedger = u8;
}

const SIZE: PtySize = PtySize { cols: 132, rows: 43, cell_width: 9, cell_height: 18 };

/// A pane with traces of a session in every field.
fn used_pane(kind: TerminalSessionKind) -> TerminalPane<Plain> {
    TerminalPane {
        session_kind: kind,
        preferences: PanePreferences {
            graphics_options: 7,
            terminal_encoding: 8,
            scrollback_lines: 5000,
            reconnect_failed: String::from("Reconnect failed"),
        },
        default_size: (80, 24),
        telnet_reconnect_config: Some(String::from("host:23")),
        serial_reconnect_config: Some(String::from("COM3")),
        serial_port_available: Some(false),
        focused: true,
        terminal_exited: true,
        input_locked: true,
        title: String::from("gone"),
        selection: Some(1),
        selecting: true,
        pending_paste: Some(1),
        context_menu: Some(1),
        context_action_requested: Some(1),
        marked_text: Some(1),
        privilege_prompt_inline_hint: Some(1),
        privilege_prompt_submit_requested: true,
        privilege_prompt_tracker: TrackerState::Used(1),
        privilege_prompt_expiry_generation: 41,
        privilege_prompt_expiry_task: Some(1),
        search_query: Some(1),
        search_cache: Some(1),
        selected_search_match: Some(1),
        hovered_link: Some(1),
        hovered_command_mark_id: Some(1),
        last_mouse_report_point: Some(1),
        command_marks: vec![1, 2],
        command_marks_render_cache_dirty: false,
        selected_command_mark_id: Some(1),
        command_mark_id_aliases: vec![(1, 2)],
        input_tracker: TrackerState::Used(1),
        command_fact_ledger: TrackerState::Used(1),
        last_pty_resize: Some(SIZE),
        pending_pty_resize: Some(SIZE),
        last_drain_budget_exhausted: true,
    }
}

fn assert_cleared(pane: &TerminalPane<Plain>) {
    assert!(!pane.terminal_exited);
    assert!(!pane.input_locked);
    assert_eq!(pane.title, "OxideTerm");
    assert_eq!(pane.selection, None);
    assert!(!pane.selecting);
    assert_eq!(pane.pending_paste, None);
    assert_eq!(pane.context_menu, None);
    assert_eq!(pane.context_action_requested, None);
    assert_eq!(pane.marked_text, None);
    assert_eq!(pane.privilege_prompt_inline_hint, None);
    assert!(!pane.privilege_prompt_submit_requested);
    assert!(matches!(pane.privilege_prompt_tracker, TrackerState::Fresh));
    assert_eq!(pane.privilege_prompt_expiry_task, None);
    assert_eq!(pane.search_query, None);
    assert_eq!(pane.search_cache, None);
    assert_eq!(pane.selected_search_match, None);
    assert_eq!(pane.hovered_link, None);
    assert_eq!(pane.hovered_command_mark_id, None);
    assert_eq!(pane.last_mouse_report_point, None);
    assert!(pane.command_marks.is_empty());
    assert!(pane.command_marks_render_cache_dirty);
    assert_eq!(pane.selected_command_mark_id, None);
    assert!(pane.command_mark_id_aliases.is_empty());
    assert!(matches!(pane.input_tracker, TrackerState::Fresh));
    assert!(matches!(pane.command_fact_ledger, TrackerState::Fresh));
    assert_eq!(pane.pending_pty_resize, None);
    assert!(!pane.last_drain_budget_exhausted);
}

/// The requests as text.
fn requests(cx: &PaneContext<Plain>) -> Vec<String> {
    cx.effects
        .iter()
        .map(|effect| match effect {
            PaneEffect::ShutdownSession => String::from("shutdown"),
            PaneEffect::OpenTelnet {
                config,
                login,
                cols,
                rows,
                graphics,
                encoding,
                scrollback_lines,
            } => format!(
                "telnet {} {:?} {}x{} {} {} {}",
                config, login, cols, rows, graphics, encoding, scrollback_lines
            ),
            PaneEffect::OpenSerial { config, cols, rows, graphics, encoding, scrollback_lines } => {
                format!(
                    "serial {} {}x{} {} {} {}",
                    config, cols, rows, graphics, encoding, scrollback_lines
                )
            }
            PaneEffect::RestoreSerialOptions { options } => format!("restore {}", options),
            PaneEffect::ResizeSession(size) => format!(
                "resize {}x{} {}x{}",
                size.cols, size.rows, size.cell_width, size.cell_height
            ),
            PaneEffect::FocusSession { focused } => format!("focus {}", focused),
            PaneEffect::InstallSession => String::from("install"),
            PaneEffect::MarkContentChanged => String::from("changed"),
            PaneEffect::SyncOutputEvents => String::from("sync"),
            PaneEffect::EmitPrivilegePromptStateChanged => String::from("prompt"),
            PaneEffect::ClearSmoothScrollRemainder => String::from("scroll"),
            PaneEffect::ResetCursorBlink => String::from("blink"),
            PaneEffect::WakeScheduler => String::from("wake"),
            PaneEffect::Notify => String::from("notify"),
        })
        .collect()
}

const REPLACEMENT: [&str; 8] =
    ["install", "changed", "sync", "prompt", "scroll", "blink", "wake", "notify"];

#[test]
fn a_telnet_pane_is_connected_again() {
    let mut pane = used_pane(TerminalSessionKind::Telnet);
    let mut cx = PaneContext::new();
    assert!(pane.reconnect_telnet(false, &mut cx));
    assert_cleared(&pane);
    assert_eq!(pane.last_pty_resize, Some(SIZE));
    assert_eq!(pane.privilege_prompt_expiry_generation, 42);
    assert_eq!(pane.telnet_reconnect_config.as_deref(), Some("host:23"));
    assert_eq!(pane.serial_reconnect_config.as_deref(), Some("COM3"));
    assert_eq!(pane.serial_port_available, Some(false));
    assert!(pane.focused);
    let mut expected =
        vec!["shutdown", "telnet host:23 None 132x43 7 8 5000", "resize 132x43 9x18", "focus true"];
    expected.extend_from_slice(&REPLACEMENT);
    assert_eq!(requests(&cx), expected);
}

#[test]
fn a_pane_without_a_size_gets_the_default_one() {
    let mut pane = used_pane(TerminalSessionKind::Telnet);
    pane.last_pty_resize = None;
    pane.focused = false;
    let mut cx = PaneContext::new();
    assert!(pane.reconnect_telnet(false, &mut cx));
    let size = PtySize { cols: 80, rows: 24, cell_width: 0, cell_height: 0 };
    assert_eq!(pane.last_pty_resize, Some(size));
    let mut expected = vec!["shutdown", "telnet host:23 None 80x24 7 8 5000", "focus false"];
    expected.extend_from_slice(&REPLACEMENT);
    assert_eq!(requests(&cx), expected);
}

#[test]
fn a_cell_of_no_height_is_not_passed_on() {
    let mut pane = used_pane(TerminalSessionKind::Telnet);
    pane.last_pty_resize = Some(PtySize { cell_height: 0, ..SIZE });
    let mut cx = PaneContext::new();
    assert!(pane.reconnect_telnet(false, &mut cx));
    assert_eq!(requests(&cx)[2], "focus true");
}

#[test]
fn other_panes_are_left_alone() {
    let mut running = used_pane(TerminalSessionKind::Telnet);
    let mut cx = PaneContext::new();
    assert!(!running.reconnect_telnet(true, &mut cx));
    assert_eq!(running.title, "gone");
    let mut serial = used_pane(TerminalSessionKind::Serial);
    assert!(!serial.reconnect_telnet(false, &mut cx));
    let mut other = used_pane(TerminalSessionKind::Other);
    assert!(!other.reconnect_telnet(false, &mut cx));
    let mut unknown = used_pane(TerminalSessionKind::Telnet);
    unknown.telnet_reconnect_config = None;
    assert!(!unknown.reconnect_telnet(false, &mut cx));
    assert_eq!(unknown.title, "gone");
    assert!(cx.effects.is_empty());
}

#[test]
fn a_serial_pane_is_connected_again() {
    let mut pane = used_pane(TerminalSessionKind::Serial);
    let mut cx = PaneContext::new();
    assert!(pane.can_reconnect_serial());
    let reconnect = pane.reconnect_serial(Some(9600), 115200, &mut cx).unwrap();
    assert_eq!(requests(&cx), vec!["shutdown", "serial COM3 132x43 7 8 5000"]);
    assert_eq!(pane.title, "gone");

    let mut cx = PaneContext::new();
    pane.finish_serial_reconnect(reconnect, Ok(()), &mut cx);
    assert_cleared(&pane);
    assert_eq!(pane.serial_reconnect_config.as_deref(), Some("COM3"));
    assert_eq!(pane.serial_port_available, Some(true));
    assert_eq!(pane.last_pty_resize, Some(SIZE));
    let mut expected = vec!["restore 9600", "resize 132x43 9x18", "focus true"];
    expected.extend_from_slice(&REPLACEMENT);
    assert_eq!(requests(&cx), expected);

    assert!(!pane.can_reconnect_serial());
    pane.terminal_exited = true;
    assert!(pane.can_reconnect_serial());
}

#[test]
fn a_serial_port_that_cannot_be_opened_can_be_tried_again() {
    let mut pane = used_pane(TerminalSessionKind::Serial);
    let mut cx = PaneContext::new();
    let reconnect = pane.reconnect_serial(Some(9600), 115200, &mut cx).unwrap();
    let mut cx = PaneContext::new();
    pane.finish_serial_reconnect(reconnect, Err(String::from("busy")), &mut cx);
    assert_eq!(pane.title, "Reconnect failed: busy");
    assert_eq!(requests(&cx), vec!["notify"]);
    assert_eq!(pane.serial_port_available, Some(false));
    assert_eq!(pane.selection, Some(1));
    assert_eq!(pane.privilege_prompt_expiry_generation, 41);
    assert!(pane.can_reconnect_serial());
    assert!(pane.reconnect_serial(Some(9600), 115200, &mut cx).is_some());
}

#[test]
fn a_serial_pane_that_runs_is_left_alone() {
    let mut pane = used_pane(TerminalSessionKind::Serial);
    pane.terminal_exited = false;
    let mut cx = PaneContext::new();
    assert!(!pane.can_reconnect_serial());
    assert!(pane.reconnect_serial(None, 115200, &mut cx).is_none());
    pane.terminal_exited = true;
    pane.serial_reconnect_config = None;
    assert!(!pane.can_reconnect_serial());
    assert!(pane.reconnect_serial(Some(9600), 115200, &mut cx).is_none());
    assert!(cx.effects.is_empty());
}

#[test]
fn the_prompt_generation_wraps_around() {
    let mut pane = used_pane(TerminalSessionKind::Telnet);
    pane.privilege_prompt_expiry_generation = u64::MAX;
    let mut cx = PaneContext::new();
    pane.replace_terminal_after_reconnect(SIZE, &mut cx);
    assert_eq!(pane.privilege_prompt_expiry_generation, 0);
    assert_cleared(&pane);
    assert_eq!(requests(&cx), REPLACEMENT.to_vec());
}

#[test]
fn a_second_reconnect_keeps_the_size() {
    let mut pane = used_pane(TerminalSessionKind::Telnet);
    pane.last_pty_resize = None;
    let mut cx = PaneContext::new();
    assert!(pane.reconnect_telnet(false, &mut cx));
    let first = pane.last_pty_resize;
    assert!(pane.reconnect_telnet(false, &mut cx));
    assert_eq!(pane.last_pty_resize, first);
}

#[test]
fn a_serial_session_without_options_is_followed_by_one_with_the_usual_ones() {
    let mut pane = used_pane(TerminalSessionKind::Serial);
    let mut cx = PaneContext::new();
    let reconnect = pane.reconnect_serial(None, 115200, &mut cx).unwrap();
    let mut cx = PaneContext::new();
    pane.finish_serial_reconnect(reconnect, Ok(()), &mut cx);
    assert_eq!(requests(&cx)[0], "restore 115200");
    assert_eq!(options_to_restore(None, 1), 1);
    assert_eq!(options_to_restore(Some(2), 1), 2);
}

#[test]
fn only_a_port_that_cannot_be_opened_is_reported() {
    let mut pane = used_pane(TerminalSessionKind::Serial);
    let mut opening = PaneContext::new();
    let reconnect = pane.reconnect_serial(None, 115200, &mut opening).unwrap();
    let mut finishing = PaneContext::new();
    pane.finish_serial_reconnect(reconnect, Ok(()), &mut finishing);
    let reported: Vec<bool> =
        opening.effects.iter().map(|effect| effect.failure_is_reported()).collect();
    assert_eq!(reported, vec![false, true]);
    assert!(!finishing.effects.iter().any(|effect| effect.failure_is_reported()));
}

#[test]
fn a_pane_of_another_kind_keeps_its_kind() {
    let mut pane = used_pane(TerminalSessionKind::Other);
    let mut cx = PaneContext::new();
    let reconnect = pane.reconnect_serial(None, 115200, &mut cx).unwrap();
    pane.finish_serial_reconnect(reconnect, Ok(()), &mut cx);
    assert_eq!(pane.session_kind, TerminalSessionKind::Other);
    assert!(!pane.can_reconnect_serial());
}
