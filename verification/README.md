# oxideterm

The deciding parts of a terminal application, written and proved in Verus.

- `src/terminal`: connecting a pane again, over telnet or a serial port. The pane
  changes its own state and lists what it asks of its session and its window.
- `src/update`: whether a release carries a valid minisign signature.
- `src/x11`: forwarding X11 through a VcXsrv server that the application brings
  up itself: where its files are, on which display it runs, how it is launched and
  kept under control, the Xauthority file it reads, and which cookie a forwarding
  hands out.
- `src/secret.rs`, `src/text.rs`: bytes that are wiped when dropped, and the text
  that messages and records are made of.

Work that touches the system is split into steps: the library says what to do
next, `app/` does it and hands back what came of it. Files that end in `_laws.rs`
state what holds of several calls together.
