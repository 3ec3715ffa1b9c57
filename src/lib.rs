//! Foreground watch client of a background task daemon: the decisions of a
//! watch session (log wait, PTY hand-off, raw mode, live forwarding, completion
//! and cancellation) as a verified state machine, plus the pure parts of
//! terminal-multiplexer pane spawning.
pub mod handoff;
pub mod mux;
pub mod term;
pub mod watch;
