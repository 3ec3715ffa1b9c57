use direnv_instant::term::TermModes;
use direnv_instant::watch::{Action, Ending, Event, Phase, ReadResult, Watch};

const CLEAR: TermModes = TermModes { local: 0b1011, input: 0b1_0000_0000 };
const ORIGINAL: TermModes = TermModes { local: 0xff, input: 0x3ff };

fn data(b: &[u8]) -> Event {
    Event::Read(ReadResult::Data(b.to_vec()))
}

fn readable(stdin: bool, log: bool, monitor: bool) -> Event {
    Event::Readable { stdin, log, monitor }
}

/// Log open, no terminal: straight to the monitor connection, then the loop.
fn running_without_terminal() -> Watch {
    let (mut w, a) = Watch::start(false, CLEAR);
    assert_eq!(a, Action::OpenLog);
    assert_eq!(w.step(Event::Status(true)), Action::ConnectMonitor);
    assert_eq!(w.step(Event::Status(true)), Action::CheckCancel);
    w
}

/// Terminal, hand-off grants descriptor 7, raw mode entered, monitor open.
fn running_with_pty() -> Watch {
    let (mut w, _) = Watch::start(true, CLEAR);
    assert_eq!(w.step(Event::Status(true)), Action::ConnectHandoff);
    assert_eq!(w.step(Event::Status(true)), Action::SendRequest);
    assert_eq!(w.step(Event::Status(true)), Action::AwaitReply { ms: 5000 });
    assert_eq!(w.step(Event::Status(true)), Action::ReceiveDescriptor);
    assert_eq!(w.step(Event::Descriptor(Some(7))), Action::ReadModes);
    let raw = TermModes { local: 0xff & !0b1011, input: 0x3ff & !0b1_0000_0000 };
    assert_eq!(w.step(Event::Modes(Some(ORIGINAL))), Action::ApplyModes { modes: raw });
    assert_eq!(w.step(Event::Status(true)), Action::ConnectMonitor);
    assert_eq!(w.step(Event::Status(true)), Action::CheckCancel);
    assert_eq!(w.pty(), Some(7));
    assert!(w.raw());
    assert!(w.forwards_input());
    w
}

fn written(a: &Action, out: &mut Vec<u8>) {
    if let Action::WriteOutput { bytes } = a {
        out.extend_from_slice(bytes);
    }
}

#[test]
fn scenario_a_streams_without_duplication() {
    let mut w = running_without_terminal();
    let mut out = Vec::new();
    assert_eq!(w.step(Event::Cancel(false)), Action::Wait { stdin: false, ms: 100 });
    assert_eq!(w.step(readable(false, true, false)), Action::ReadLog);
    let a = w.step(data(b"a\n"));
    written(&a, &mut out);
    assert_eq!(a, Action::WriteOutput { bytes: b"a\n".to_vec() });
    assert_eq!(w.step(Event::Ack), Action::CheckCancel);
    assert_eq!(w.step(Event::Cancel(false)), Action::Wait { stdin: false, ms: 100 });
    // zero bytes from the log is not its end
    assert_eq!(w.step(readable(false, true, false)), Action::ReadLog);
    assert_eq!(w.step(Event::Read(ReadResult::End)), Action::CheckCancel);
    assert_eq!(w.step(Event::Cancel(false)), Action::Wait { stdin: false, ms: 100 });
    assert_eq!(w.step(readable(false, true, false)), Action::ReadLog);
    let a = w.step(data(b"b\n"));
    written(&a, &mut out);
    assert_eq!(w.step(Event::Ack), Action::CheckCancel);
    assert_eq!(out, b"a\nb\n".to_vec());
    assert_eq!(w.ending(), Ending::Running);
}

#[test]
fn scenario_b_monitor_closes_with_nothing_pending() {
    let mut w = running_without_terminal();
    assert_eq!(w.step(Event::Cancel(false)), Action::Wait { stdin: false, ms: 100 });
    assert_eq!(w.step(readable(false, false, true)), Action::ReadMonitor);
    assert_eq!(w.step(Event::Read(ReadResult::End)), Action::ReadLog);
    assert_eq!(w.step(Event::Read(ReadResult::End)), Action::Exit { code: 0 });
    assert_eq!(w.ending(), Ending::Completed);
    assert_eq!(w.phase(), Phase::Exited);
}

#[test]
fn monitor_close_drains_the_log_first() {
    let mut w = running_without_terminal();
    let mut out = Vec::new();
    w.step(Event::Cancel(false));
    assert_eq!(w.step(readable(false, true, true)), Action::ReadLog);
    let a = w.step(data(b"x"));
    written(&a, &mut out);
    assert_eq!(w.step(Event::Ack), Action::ReadMonitor);
    assert_eq!(w.step(Event::Read(ReadResult::End)), Action::ReadLog);
    let a = w.step(data(b"tail-1 "));
    written(&a, &mut out);
    assert_eq!(w.step(Event::Ack), Action::ReadLog);
    let a = w.step(data(b"tail-2"));
    written(&a, &mut out);
    assert_eq!(w.step(Event::Ack), Action::ReadLog);
    assert_eq!(w.step(Event::Read(ReadResult::End)), Action::Exit { code: 0 });
    assert_eq!(out, b"xtail-1 tail-2".to_vec());
}

#[test]
fn scenario_c_handoff_timeout_never_reads_stdin() {
    let (mut w, _) = Watch::start(true, CLEAR);
    assert_eq!(w.step(Event::Status(true)), Action::ConnectHandoff);
    assert_eq!(w.step(Event::Status(true)), Action::SendRequest);
    assert_eq!(w.step(Event::Status(true)), Action::AwaitReply { ms: 5000 });
    assert_eq!(w.step(Event::Status(false)), Action::ConnectMonitor);
    assert_eq!(w.step(Event::Status(true)), Action::CheckCancel);
    assert_eq!(w.step(Event::Cancel(false)), Action::Wait { stdin: false, ms: 100 });
    // even a report of stdin readiness does not lead to a read of it
    assert_eq!(w.step(readable(true, false, false)), Action::CheckCancel);
    assert!(!w.raw());
    assert!(!w.forwards_input());
    assert_eq!(w.pty(), None);
}

#[test]
fn handoff_without_descriptor_skips_raw_mode() {
    let (mut w, _) = Watch::start(true, CLEAR);
    w.step(Event::Status(true));
    w.step(Event::Status(true));
    w.step(Event::Status(true));
    assert_eq!(w.step(Event::Status(true)), Action::ReceiveDescriptor);
    assert_eq!(w.step(Event::Descriptor(None)), Action::ConnectMonitor);
    assert!(!w.raw());
}

#[test]
fn handoff_connect_failure_is_not_fatal() {
    let (mut w, _) = Watch::start(true, CLEAR);
    w.step(Event::Status(true));
    assert_eq!(w.step(Event::Status(false)), Action::ConnectMonitor);
}

#[test]
fn scenario_d_cancel_restores_then_stops_once() {
    let mut w = running_with_pty();
    assert_eq!(w.step(Event::Cancel(false)), Action::Wait { stdin: true, ms: 100 });
    assert_eq!(w.step(readable(false, true, false)), Action::ReadLog);
    w.step(data(b"progress"));
    assert_eq!(w.step(Event::Ack), Action::CheckCancel);
    assert_eq!(w.step(Event::Cancel(true)), Action::ApplyModes { modes: ORIGINAL });
    assert_eq!(w.step(Event::Ack), Action::RequestStop);
    assert_eq!(w.step(Event::Ack), Action::Exit { code: 0 });
    assert_eq!(w.step(Event::Ack), Action::Exit { code: 0 });
    assert_eq!(w.ending(), Ending::Cancelled);
}

#[test]
fn cancel_while_idle_without_raw_mode() {
    let mut w = running_without_terminal();
    assert_eq!(w.step(Event::Cancel(false)), Action::Wait { stdin: false, ms: 100 });
    assert_eq!(w.step(readable(false, false, false)), Action::CheckCancel);
    assert_eq!(w.step(Event::Cancel(true)), Action::RequestStop);
    assert_eq!(w.step(Event::Ack), Action::Exit { code: 0 });
}

#[test]
fn interrupted_wait_then_cancel_requests_stop() {
    let mut w = running_without_terminal();
    w.step(Event::Cancel(false));
    assert_eq!(w.step(Event::Status(false)), Action::CheckCancel);
    assert_eq!(w.step(Event::Cancel(true)), Action::RequestStop);
}

#[test]
fn failed_wait_without_cancel_ends_as_failed() {
    let mut w = running_without_terminal();
    w.step(Event::Cancel(false));
    assert_eq!(w.step(Event::Status(false)), Action::CheckCancel);
    assert_eq!(w.step(Event::Cancel(false)), Action::Exit { code: 0 });
    assert_eq!(w.ending(), Ending::Failed);
}

#[test]
fn stdin_bytes_go_to_the_pty() {
    let mut w = running_with_pty();
    w.step(Event::Cancel(false));
    assert_eq!(w.step(readable(true, false, false)), Action::ReadInput);
    assert_eq!(w.step(data(b"\x03y")), Action::WritePty { bytes: b"\x03y".to_vec() });
    assert_eq!(w.step(Event::Ack), Action::CheckCancel);
}

#[test]
fn stdin_end_restores_without_stop() {
    let mut w = running_with_pty();
    w.step(Event::Cancel(false));
    assert_eq!(w.step(readable(true, true, false)), Action::ReadInput);
    assert_eq!(w.step(Event::Read(ReadResult::End)), Action::ApplyModes { modes: ORIGINAL });
    assert_eq!(w.step(Event::Ack), Action::Exit { code: 0 });
    assert_eq!(w.ending(), Ending::InputClosed);
}

#[test]
fn monitor_read_error_fails_without_stop() {
    let mut w = running_with_pty();
    w.step(Event::Cancel(false));
    assert_eq!(w.step(readable(false, false, true)), Action::ReadMonitor);
    assert_eq!(w.step(Event::Read(ReadResult::Error)), Action::ApplyModes { modes: ORIGINAL });
    assert_eq!(w.step(Event::Ack), Action::Exit { code: 0 });
    assert_eq!(w.ending(), Ending::Failed);
}

#[test]
fn monitor_data_is_ignored() {
    let mut w = running_without_terminal();
    w.step(Event::Cancel(false));
    w.step(readable(false, false, true));
    assert_eq!(w.step(data(b"?")), Action::CheckCancel);
    assert_eq!(w.ending(), Ending::Running);
}

#[test]
fn monitor_connect_failure_exits_one_after_restore() {
    let (mut w, _) = Watch::start(true, CLEAR);
    for _ in 0..4 {
        w.step(Event::Status(true));
    }
    w.step(Event::Descriptor(Some(3)));
    w.step(Event::Modes(Some(ORIGINAL)));
    assert_eq!(w.step(Event::Status(true)), Action::ConnectMonitor);
    assert_eq!(w.step(Event::Status(false)), Action::ApplyModes { modes: ORIGINAL });
    assert_eq!(w.step(Event::Ack), Action::Exit { code: 1 });
    assert_eq!(w.ending(), Ending::NoMonitor);
}

#[test]
fn monitor_connect_failure_without_terminal() {
    let (mut w, _) = Watch::start(false, CLEAR);
    w.step(Event::Status(true));
    assert_eq!(w.step(Event::Status(false)), Action::Exit { code: 1 });
}

#[test]
fn failed_raw_mode_owes_no_restore() {
    let (mut w, _) = Watch::start(true, CLEAR);
    for _ in 0..4 {
        w.step(Event::Status(true));
    }
    w.step(Event::Descriptor(Some(3)));
    w.step(Event::Modes(Some(ORIGINAL)));
    assert_eq!(w.step(Event::Status(false)), Action::ConnectMonitor);
    assert!(!w.raw());
    assert!(w.forwards_input());
}

#[test]
fn unreadable_terminal_attributes_skip_raw_mode() {
    let (mut w, _) = Watch::start(true, CLEAR);
    for _ in 0..4 {
        w.step(Event::Status(true));
    }
    assert_eq!(w.step(Event::Descriptor(Some(3))), Action::ReadModes);
    assert_eq!(w.step(Event::Modes(None)), Action::ConnectMonitor);
    assert!(!w.raw());
}

#[test]
fn log_wait_retries_then_times_out() {
    let (mut w, _) = Watch::start(false, CLEAR);
    assert_eq!(w.step(Event::LogMissing { elapsed_ms: 0 }), Action::Sleep { ms: 100 });
    assert_eq!(w.step(Event::Ack), Action::OpenLog);
    assert_eq!(w.step(Event::LogMissing { elapsed_ms: 5000 }), Action::Sleep { ms: 100 });
    assert_eq!(w.step(Event::Ack), Action::OpenLog);
    assert_eq!(w.step(Event::LogMissing { elapsed_ms: 5001 }), Action::Exit { code: 1 });
    assert_eq!(w.ending(), Ending::LogTimedOut);
}
