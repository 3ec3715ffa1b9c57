//! The watch session as a state machine. The caller performs each `Action`
//! (open the log, connect, wait for readiness, read, write, restore the
//! terminal, ask the daemon to stop) and answers with the matching `Event`;
//! every decision of the session is taken here.
use crate::term::{cleared, TermModes};
use vstd::prelude::*;

verus! {

/// How long the log file may take to appear, in milliseconds.
pub const LOG_WAIT_MS: u64 = 5000;

/// Pause between two attempts to open the log file, in milliseconds.
pub const LOG_RETRY_MS: u64 = 100;

/// How long the daemon may take to answer the hand-off request, in milliseconds.
pub const HANDOFF_WAIT_MS: u64 = 5000;

/// Bound of each readiness wait of the forwarding loop, in milliseconds.
pub const POLL_MS: u64 = 100;

/// Where the session stands: which action it has asked for last.
#[derive(Debug, Clone, Copy, PartialEq, Eq, Structural)]
pub enum Phase {
    /// Opening the log file.
    OpeningLog,
    /// Pausing before the next attempt to open the log.
    Backoff,
    /// Opening the hand-off connection.
    Connecting,
    /// Sending the hand-off request.
    Sending,
    /// Waiting, bounded, for the hand-off reply.
    AwaitingReply,
    /// Receiving the descriptor that the reply carries.
    Receiving,
    /// Capturing the terminal's attributes.
    ReadingModes,
    /// Applying the raw-mode attributes.
    EnteringRaw,
    /// Opening the monitor connection.
    ConnectingMonitor,
    /// Looking at the cancellation flag, at the end of an iteration.
    Checking,
    /// Waiting, bounded, for readability.
    Waiting,
    /// Reading standard input.
    ReadingInput,
    /// Writing input bytes to the PTY master.
    ForwardingInput,
    /// Reading the log.
    ReadingLog,
    /// Writing log bytes to standard output.
    ShowingLog,
    /// Reading the monitor connection.
    ReadingMonitor,
    /// Reading the log to its end after the daemon has finished.
    Draining,
    /// Writing drained log bytes to standard output.
    ShowingDrained,
    /// Applying the captured terminal attributes back.
    Restoring,
    /// Asking the daemon to stop.
    Stopping,
    /// Ended; the only action left is to exit.
    Exited,
}

/// Why the session ends, or `Running` while it does not.
#[derive(Debug, Clone, Copy, PartialEq, Eq, Structural)]
pub enum Ending {
    Running,
    /// The user interrupted the session.
    Cancelled,
    /// The daemon closed the monitor connection: its task is done.
    Completed,
    /// Standard input reached its end.
    InputClosed,
    /// A read on the monitor connection, or the readiness wait, failed.
    Failed,
    /// The log file did not appear in time.
    LogTimedOut,
    /// The monitor connection could not be opened.
    NoMonitor,
}

/// What became of one read.
#[derive(Debug, Clone, PartialEq, Eq)]
pub enum ReadResult {
    Data(Vec<u8>),
    End,
    Error,
}

/// The answer to the last action.
#[derive(Debug, Clone, PartialEq, Eq)]
pub enum Event {
    /// The action was carried out; nothing to report.
    Ack,
    /// The action succeeded (`true`) or failed (`false`): opening the log,
    /// connecting, sending the request, readiness of the hand-off reply,
    /// applying terminal attributes.
    Status(bool),
    /// The log file is not there yet; `elapsed_ms` since the first attempt.
    LogMissing { elapsed_ms: u64 },
    /// The descriptor that the hand-off reply carried, if any.
    Descriptor(Option<i32>),
    /// The terminal's current attributes, or `None` when they cannot be read.
    Modes(Option<TermModes>),
    /// Whether cancellation has been requested.
    Cancel(bool),
    /// Which descriptors the readiness wait reported readable.
    Readable { stdin: bool, log: bool, monitor: bool },
    /// The outcome of a read.
    Read(ReadResult),
}

/// What the caller is to do next.
#[derive(Debug, Clone, PartialEq, Eq)]
pub enum Action {
    /// Try to open the log file.
    OpenLog,
    /// Sleep, then answer `Ack`.
    Sleep { ms: u64 },
    /// Open the hand-off connection.
    ConnectHandoff,
    /// Send the hand-off request line.
    SendRequest,
    /// Wait for the hand-off reply to become readable.
    AwaitReply { ms: u64 },
    /// Receive the reply and take the descriptor that it carries; the hand-off
    /// connection is closed after this.
    ReceiveDescriptor,
    /// Read the terminal's attributes.
    ReadModes,
    /// Apply these terminal attributes.
    ApplyModes { modes: TermModes },
    /// Open the monitor connection.
    ConnectMonitor,
    /// Look at the cancellation flag.
    CheckCancel,
    /// Wait for readability of the log, the monitor connection and, when
    /// `stdin` is set, standard input.
    Wait { stdin: bool, ms: u64 },
    /// Read standard input.
    ReadInput,
    /// Write these bytes to the PTY master (best effort).
    WritePty { bytes: Vec<u8> },
    /// Read the log.
    ReadLog,
    /// Write these bytes to standard output and flush (best effort).
    WriteOutput { bytes: Vec<u8> },
    /// Read the monitor connection.
    ReadMonitor,
    /// Ask the daemon to stop its task.
    RequestStop,
    /// End the process with this code.
    Exit { code: i32 },
}

/// A read, as the contracts see it.
pub enum ReadModel {
    Data(Seq<u8>),
    End,
    Error,
}

/// An event, as the contracts see it: byte vectors become sequences.
pub enum EventModel {
    Ack,
    Status(bool),
    LogMissing { elapsed_ms: u64 },
    Descriptor(Option<i32>),
    Modes(Option<TermModes>),
    Cancel(bool),
    Readable { stdin: bool, log: bool, monitor: bool },
    Read(ReadModel),
}

/// An action, as the contracts see it: byte vectors become sequences.
pub enum ActionModel {
    OpenLog,
    Sleep { ms: u64 },
    ConnectHandoff,
    SendRequest,
    AwaitReply { ms: u64 },
    ReceiveDescriptor,
    ReadModes,
    ApplyModes { modes: TermModes },
    ConnectMonitor,
    CheckCancel,
    Wait { stdin: bool, ms: u64 },
    ReadInput,
    WritePty { bytes: Seq<u8> },
    ReadLog,
    WriteOutput { bytes: Seq<u8> },
    ReadMonitor,
    RequestStop,
    Exit { code: i32 },
}

impl View for ReadResult {
    type V = ReadModel;

    open spec fn view(&self) -> ReadModel {
        match self {
            ReadResult::Data(b) => ReadModel::Data(b@),
            ReadResult::End => ReadModel::End,
            ReadResult::Error => ReadModel::Error,
        }
    }
}

impl View for Event {
    type V = EventModel;

    open spec fn view(&self) -> EventModel {
        match self {
            Event::Ack => EventModel::Ack,
            Event::Status(b) => EventModel::Status(*b),
            Event::LogMissing { elapsed_ms } => EventModel::LogMissing { elapsed_ms: *elapsed_ms },
            Event::Descriptor(d) => EventModel::Descriptor(*d),
            Event::Modes(m) => EventModel::Modes(*m),
            Event::Cancel(c) => EventModel::Cancel(*c),
            Event::Readable { stdin, log, monitor } => EventModel::Readable {
                stdin: *stdin,
                log: *log,
                monitor: *monitor,
            },
            Event::Read(r) => EventModel::Read(r@),
        }
    }
}

impl View for Action {
    type V = ActionModel;

    open spec fn view(&self) -> ActionModel {
        match self {
            Action::OpenLog => ActionModel::OpenLog,
            Action::Sleep { ms } => ActionModel::Sleep { ms: *ms },
            Action::ConnectHandoff => ActionModel::ConnectHandoff,
            Action::SendRequest => ActionModel::SendRequest,
            Action::AwaitReply { ms } => ActionModel::AwaitReply { ms: *ms },
            Action::ReceiveDescriptor => ActionModel::ReceiveDescriptor,
            Action::ReadModes => ActionModel::ReadModes,
            Action::ApplyModes { modes } => ActionModel::ApplyModes { modes: *modes },
            Action::ConnectMonitor => ActionModel::ConnectMonitor,
            Action::CheckCancel => ActionModel::CheckCancel,
            Action::Wait { stdin, ms } => ActionModel::Wait { stdin: *stdin, ms: *ms },
            Action::ReadInput => ActionModel::ReadInput,
            Action::WritePty { bytes } => ActionModel::WritePty { bytes: bytes@ },
            Action::ReadLog => ActionModel::ReadLog,
            Action::WriteOutput { bytes } => ActionModel::WriteOutput { bytes: bytes@ },
            Action::ReadMonitor => ActionModel::ReadMonitor,
            Action::RequestStop => ActionModel::RequestStop,
            Action::Exit { code } => ActionModel::Exit { code: *code },
        }
    }
}

/// The state of a session, as the contracts see it.
pub struct WatchModel {
    pub phase: Phase,
    pub ending: Ending,
    pub stdin_is_terminal: bool,
    /// The PTY master descriptor, once the hand-off has granted one.
    pub pty: Option<i32>,
    /// The bits that raw mode clears.
    pub clear: TermModes,
    /// The terminal attributes captured before raw mode.
    pub saved: Option<TermModes>,
    /// Raw mode was entered: the guard exists and owes a restore.
    pub raw: bool,
    pub log_ready: bool,
    pub monitor_ready: bool,
    pub wait_failed: bool,
    /// Standard input has been read at least once.
    pub read_input: bool,
    /// The saved attributes have been applied back.
    pub restored: bool,
    /// How many stop requests have been issued.
    pub stops: nat,
    /// Every byte that reads of the log returned, in order.
    pub log_in: Seq<u8>,
    /// Every byte handed to standard output, in order.
    pub shown: Seq<u8>,
}

/// Standard input is watched and forwarded only on a terminal that came with
/// a PTY master.
pub open spec fn forwards(s: WatchModel) -> bool {
    s.stdin_is_terminal && s.pty is Some
}

/// The process exit code for an ending: nonzero only when the log never
/// appeared or the monitor connection could not be opened.
pub open spec fn exit_code(e: Ending) -> i32 {
    match e {
        Ending::LogTimedOut | Ending::NoMonitor => 1,
        _ => 0,
    }
}

/// `s` moved to phase `p`.
pub open spec fn at(s: WatchModel, p: Phase) -> WatchModel {
    WatchModel { phase: p, ..s }
}

/// After the teardown of the terminal: stop request on cancellation, then exit.
pub open spec fn after_restore(s: WatchModel) -> (WatchModel, ActionModel) {
    if s.ending == Ending::Cancelled {
        (WatchModel { phase: Phase::Stopping, stops: s.stops + 1, ..s }, ActionModel::RequestStop)
    } else {
        (at(s, Phase::Exited), ActionModel::Exit { code: exit_code(s.ending) })
    }
}

/// Leaves the session for `ending`: the terminal is restored first when raw
/// mode was entered.
pub open spec fn finish(s: WatchModel, ending: Ending) -> (WatchModel, ActionModel) {
    let s = WatchModel { ending, ..s };
    if s.raw {
        (
            WatchModel { phase: Phase::Restoring, restored: true, ..s },
            ActionModel::ApplyModes { modes: s.saved->Some_0 },
        )
    } else {
        after_restore(s)
    }
}

/// The end of an iteration: look at the cancellation flag.
pub open spec fn to_check(s: WatchModel) -> (WatchModel, ActionModel) {
    (at(s, Phase::Checking), ActionModel::CheckCancel)
}

/// Readiness handled up to the log: the monitor connection next, if ready.
pub open spec fn after_log(s: WatchModel) -> (WatchModel, ActionModel) {
    if s.monitor_ready {
        (at(s, Phase::ReadingMonitor), ActionModel::ReadMonitor)
    } else {
        to_check(s)
    }
}

/// Readiness handled up to standard input: the log next, if ready.
pub open spec fn after_input(s: WatchModel) -> (WatchModel, ActionModel) {
    if s.log_ready {
        (at(s, Phase::ReadingLog), ActionModel::ReadLog)
    } else {
        after_log(s)
    }
}

/// The hand-off is over: raw mode is attempted only with a PTY master.
pub open spec fn after_handoff(s: WatchModel) -> (WatchModel, ActionModel) {
    if s.pty is Some {
        (at(s, Phase::ReadingModes), ActionModel::ReadModes)
    } else {
        (at(s, Phase::ConnectingMonitor), ActionModel::ConnectMonitor)
    }
}

/// The log is open: hand-off only when standard input is a terminal.
pub open spec fn after_log_open(s: WatchModel) -> (WatchModel, ActionModel) {
    if s.stdin_is_terminal {
        (at(s, Phase::Connecting), ActionModel::ConnectHandoff)
    } else {
        after_handoff(s)
    }
}

/// A read that returned at least one byte.
pub open spec fn nonempty(r: ReadModel) -> bool {
    r is Data && r->Data_0.len() > 0
}

/// A read that returned nothing: end of stream, or data of length zero.
pub open spec fn at_end(r: ReadModel) -> bool {
    r is End || (r is Data && r->Data_0.len() == 0)
}

/// The transition of the session on one event: its next state and the action
/// that the caller performs next.
pub open spec fn next(s: WatchModel, e: EventModel) -> (WatchModel, ActionModel) {
    match s.phase {
        Phase::OpeningLog => match e {
            EventModel::Status(true) => after_log_open(s),
            EventModel::LogMissing { elapsed_ms } if elapsed_ms > LOG_WAIT_MS => finish(
                s,
                Ending::LogTimedOut,
            ),
            _ => (at(s, Phase::Backoff), ActionModel::Sleep { ms: LOG_RETRY_MS }),
        },
        Phase::Backoff => (at(s, Phase::OpeningLog), ActionModel::OpenLog),
        Phase::Connecting => match e {
            EventModel::Status(true) => (at(s, Phase::Sending), ActionModel::SendRequest),
            _ => after_handoff(s),
        },
        Phase::Sending => match e {
            EventModel::Status(true) => (
                at(s, Phase::AwaitingReply),
                ActionModel::AwaitReply { ms: HANDOFF_WAIT_MS },
            ),
            _ => after_handoff(s),
        },
        Phase::AwaitingReply => match e {
            EventModel::Status(true) => (at(s, Phase::Receiving), ActionModel::ReceiveDescriptor),
            _ => after_handoff(s),
        },
        Phase::Receiving => match e {
            EventModel::Descriptor(Some(fd)) => after_handoff(WatchModel { pty: Some(fd), ..s }),
            _ => after_handoff(s),
        },
        Phase::ReadingModes => match e {
            EventModel::Modes(Some(m)) => (
                WatchModel { phase: Phase::EnteringRaw, saved: Some(m), ..s },
                ActionModel::ApplyModes { modes: cleared(m, s.clear) },
            ),
            _ => (at(s, Phase::ConnectingMonitor), ActionModel::ConnectMonitor),
        },
        Phase::EnteringRaw => match e {
            EventModel::Status(true) => (
                WatchModel { phase: Phase::ConnectingMonitor, raw: true, ..s },
                ActionModel::ConnectMonitor,
            ),
            _ => (at(s, Phase::ConnectingMonitor), ActionModel::ConnectMonitor),
        },
        Phase::ConnectingMonitor => match e {
            EventModel::Status(true) => to_check(s),
            _ => finish(s, Ending::NoMonitor),
        },
        Phase::Checking => match e {
            EventModel::Cancel(true) => finish(s, Ending::Cancelled),
            _ => if s.wait_failed {
                finish(s, Ending::Failed)
            } else {
                (at(s, Phase::Waiting), ActionModel::Wait { stdin: forwards(s), ms: POLL_MS })
            },
        },
        Phase::Waiting => match e {
            EventModel::Readable { stdin, log, monitor } => {
                let s2 = WatchModel { log_ready: log, monitor_ready: monitor, ..s };
                if stdin && forwards(s) {
                    (
                        WatchModel { phase: Phase::ReadingInput, read_input: true, ..s2 },
                        ActionModel::ReadInput,
                    )
                } else {
                    after_input(s2)
                }
            },
            _ => to_check(WatchModel { wait_failed: true, ..s }),
        },
        Phase::ReadingInput => match e {
            EventModel::Read(r) => if nonempty(r) {
                (at(s, Phase::ForwardingInput), ActionModel::WritePty { bytes: r->Data_0 })
            } else if at_end(r) {
                finish(s, Ending::InputClosed)
            } else {
                after_input(s)
            },
            _ => after_input(s),
        },
        Phase::ForwardingInput => after_input(s),
        Phase::ReadingLog => match e {
            EventModel::Read(r) => if nonempty(r) {
                (
                    WatchModel {
                        phase: Phase::ShowingLog,
                        log_in: s.log_in + r->Data_0,
                        shown: s.shown + r->Data_0,
                        ..s
                    },
                    ActionModel::WriteOutput { bytes: r->Data_0 },
                )
            } else {
                after_log(s)
            },
            _ => after_log(s),
        },
        Phase::ShowingLog => after_log(s),
        Phase::ReadingMonitor => match e {
            EventModel::Read(r) => if at_end(r) {
                (at(s, Phase::Draining), ActionModel::ReadLog)
            } else if nonempty(r) {
                to_check(s)
            } else {
                finish(s, Ending::Failed)
            },
            _ => finish(s, Ending::Failed),
        },
        Phase::Draining => match e {
            EventModel::Read(r) => if nonempty(r) {
                (
                    WatchModel {
                        phase: Phase::ShowingDrained,
                        log_in: s.log_in + r->Data_0,
                        shown: s.shown + r->Data_0,
                        ..s
                    },
                    ActionModel::WriteOutput { bytes: r->Data_0 },
                )
            } else {
                finish(s, Ending::Completed)
            },
            _ => finish(s, Ending::Completed),
        },
        Phase::ShowingDrained => (at(s, Phase::Draining), ActionModel::ReadLog),
        Phase::Restoring => after_restore(s),
        Phase::Stopping => (at(s, Phase::Exited), ActionModel::Exit { code: exit_code(s.ending) }),
        Phase::Exited => (s, ActionModel::Exit { code: exit_code(s.ending) }),
    }
}

/// The state of a fresh session; its first action is `OpenLog`.
pub open spec fn initial(stdin_is_terminal: bool, clear: TermModes) -> WatchModel {
    WatchModel {
        phase: Phase::OpeningLog,
        ending: Ending::Running,
        stdin_is_terminal,
        pty: None,
        clear,
        saved: None,
        raw: false,
        log_ready: false,
        monitor_ready: false,
        wait_failed: false,
        read_input: false,
        restored: false,
        stops: 0,
        log_in: Seq::empty(),
        shown: Seq::empty(),
    }
}

/// The phases after the session has decided to end.
pub open spec fn tearing_down(p: Phase) -> bool {
    p == Phase::Restoring || p == Phase::Stopping || p == Phase::Exited
}

/// What holds of every state that a session reaches.
pub open spec fn inv(s: WatchModel) -> bool {
    // no PTY master: no raw mode and no read of standard input
    &&& s.pty is None ==> !s.raw && !s.read_input
    &&& s.read_input ==> forwards(s)
    &&& s.raw ==> s.saved is Some
    &&& s.phase == Phase::EnteringRaw ==> s.saved is Some && s.pty is Some
    &&& s.phase == Phase::ReadingModes ==> s.pty is Some
    // the saved attributes are applied back before the session exits
    &&& s.restored ==> s.raw && tearing_down(s.phase)
    &&& s.raw && tearing_down(s.phase) ==> s.restored
    &&& s.phase == Phase::Restoring ==> s.raw
    // the session ends only through teardown
    &&& (s.ending == Ending::Running <==> !tearing_down(s.phase))
    // one stop request, and only on cancellation
    &&& s.stops <= 1
    &&& (s.stops == 1 <==> (s.ending == Ending::Cancelled && (s.phase == Phase::Stopping
        || s.phase == Phase::Exited)))
    &&& s.phase == Phase::Stopping ==> s.ending == Ending::Cancelled
    // what the log gave is what was shown, byte for byte and in order
    &&& s.shown == s.log_in
}

/// Every transition keeps the invariant.
pub proof fn lemma_next_keeps_inv(s: WatchModel, e: EventModel)
    requires
        inv(s),
    ensures
        inv(next(s, e).0),
{
    match s.phase {
        Phase::OpeningLog => {},
        Phase::Backoff => {},
        Phase::Connecting => {},
        Phase::Sending => {},
        Phase::AwaitingReply => {},
        Phase::Receiving => {},
        Phase::ReadingModes => {},
        Phase::EnteringRaw => {},
        Phase::ConnectingMonitor => {},
        Phase::Checking => {},
        Phase::Waiting => {},
        Phase::ReadingInput => {},
        Phase::ForwardingInput => {},
        Phase::ReadingLog => {},
        Phase::ShowingLog => {},
        Phase::ReadingMonitor => {},
        Phase::Draining => {},
        Phase::ShowingDrained => {},
        Phase::Restoring => {},
        Phase::Stopping => {},
        Phase::Exited => {},
    }
}

/// When the hand-off has granted no PTY master, the session neither reads
/// standard input nor watches it, and never touches the terminal's
/// attributes: raw mode is not entered.
pub proof fn lemma_no_pty_no_input(s: WatchModel, e: EventModel)
    requires
        inv(s),
        s.pty is None,
        next(s, e).0.pty is None,
    ensures
        !s.raw,
        !s.read_input,
        !next(s, e).0.raw,
        !next(s, e).0.read_input,
        !(next(s, e).1 is ReadInput),
        !(next(s, e).1 is ApplyModes),
        next(s, e).1 is Wait ==> !next(s, e).1->Wait_stdin,
{
    lemma_next_keeps_inv(s, e);
}

/// Once raw mode has been entered, the session does not exit before the
/// attributes captured at entry have been applied back; that restore is the
/// only change of attributes after raw mode, and it carries exactly the
/// captured attributes.
pub proof fn lemma_terminal_restored(s: WatchModel, e: EventModel)
    requires
        inv(s),
    ensures
        s.phase == Phase::Exited && s.raw ==> s.restored,
        next(s, e).0.phase == Phase::Exited && next(s, e).0.raw ==> next(s, e).0.restored,
        next(s, e).0.restored && !s.restored ==> s.saved is Some && next(s, e).1 == (
        ActionModel::ApplyModes { modes: s.saved->Some_0 }),
        s.restored ==> !(next(s, e).1 is ApplyModes),
{
    lemma_next_keeps_inv(s, e);
}

/// An orderly close of the monitor connection is followed by reads of the log
/// until one returns nothing; every byte read meanwhile is written out, and
/// only then does the session end as completed.
pub proof fn lemma_close_drains(s: WatchModel, r: ReadModel, d: ReadModel, e: EventModel)
    requires
        inv(s),
        s.phase == Phase::ReadingMonitor,
        at_end(r),
    ensures
        next(s, EventModel::Read(r)) == (at(s, Phase::Draining), ActionModel::ReadLog),
        ({
            let t = at(s, Phase::Draining);
            let (t1, a1) = next(t, EventModel::Read(d));
            &&& nonempty(d) ==> a1 == ActionModel::WriteOutput { bytes: d->Data_0 }
                && t1.ending == Ending::Running && next(t1, e) == (at(t1, Phase::Draining),
                ActionModel::ReadLog)
            &&& !nonempty(d) ==> t1.ending == Ending::Completed
        }),
{
}

/// How many stop requests a run of actions holds.
pub open spec fn stop_count(acts: Seq<ActionModel>) -> nat
    decreases acts.len(),
{
    if acts.len() == 0 {
        0
    } else {
        (if acts.last() is RequestStop { 1nat } else { 0nat }) + stop_count(acts.drop_last())
    }
}

/// Cancellation seen at the end of an iteration ends the session within
/// three more answers, whatever they are: exactly one stop request is issued,
/// no further readiness wait or read happens, and the session stays ended.
pub proof fn lemma_cancel_stops_once(s: WatchModel, e1: EventModel, e2: EventModel, e3: EventModel)
    requires
        inv(s),
        s.phase == Phase::Checking,
    ensures
        ({
            let (s1, a1) = next(s, EventModel::Cancel(true));
            let (s2, a2) = next(s1, e1);
            let (s3, a3) = next(s2, e2);
            let (s4, a4) = next(s3, e3);
            &&& s3.phase == Phase::Exited && s3.ending == Ending::Cancelled
            &&& s4 == s3 && a4 == (ActionModel::Exit { code: 0 })
            &&& s3.stops == 1
            &&& stop_count(seq![a1, a2, a3, a4]) == 1
            &&& !(a1 is Wait || a2 is Wait || a3 is Wait)
            &&& !(a1 is ReadLog || a2 is ReadLog || a3 is ReadLog)
        }),
{
    let (s1, a1) = next(s, EventModel::Cancel(true));
    let (s2, a2) = next(s1, e1);
    let (s3, a3) = next(s2, e2);
    let (s4, a4) = next(s3, e3);
    let acts = seq![a1, a2, a3, a4];
    assert(acts.drop_last() =~= seq![a1, a2, a3]);
    assert(seq![a1, a2, a3].drop_last() =~= seq![a1, a2]);
    assert(seq![a1, a2].drop_last() =~= seq![a1]);
    assert(seq![a1].drop_last() =~= Seq::<ActionModel>::empty());
    reveal_with_fuel(stop_count, 5);
}

/// The forwarding loop waits at most one poll period at a time, and a wait in
/// which nothing becomes readable, or which is cut short, leads straight to
/// the cancellation check.
pub proof fn lemma_idle_wait_checks(s: WatchModel, e: EventModel)
    requires
        inv(s),
    ensures
        next(s, e).1 is Wait ==> next(s, e).1->Wait_ms == POLL_MS,
        s.phase == Phase::Waiting && (e == (EventModel::Readable {
            stdin: false,
            log: false,
            monitor: false,
        }) || !(e is Readable)) ==> next(s, e).1 == ActionModel::CheckCancel,
{
}

/// Every byte that a read of the log returns is written to standard output
/// at once, unchanged and in order, and nothing else is.
pub proof fn lemma_log_fidelity(s: WatchModel, e: EventModel)
    requires
        inv(s),
    ensures
        next(s, e).0.shown == next(s, e).0.log_in,
        next(s, e).1 is WriteOutput ==> next(s, e).0.log_in == s.log_in + next(
            s,
            e,
        ).1->WriteOutput_bytes,
        !(next(s, e).1 is WriteOutput) ==> next(s, e).0.log_in == s.log_in,
{
    lemma_next_keeps_inv(s, e);
}

/// A session that has exited stays so, whatever it is told.
pub proof fn lemma_exited_stays(s: WatchModel, e: EventModel)
    requires
        s.phase == Phase::Exited,
    ensures
        next(s, e) == (s, ActionModel::Exit { code: exit_code(s.ending) }),
{
}

/// A watch session: the state that its decisions depend on.
pub struct Watch {
    phase: Phase,
    ending: Ending,
    stdin_is_terminal: bool,
    pty: Option<i32>,
    clear: TermModes,
    saved: Option<TermModes>,
    raw: bool,
    log_ready: bool,
    monitor_ready: bool,
    wait_failed: bool,
    read_input: Ghost<bool>,
    restored: Ghost<bool>,
    stops: Ghost<nat>,
    log_in: Ghost<Seq<u8>>,
    shown: Ghost<Seq<u8>>,
}

impl View for Watch {
    type V = WatchModel;

    closed spec fn view(&self) -> WatchModel {
        WatchModel {
            phase: self.phase,
            ending: self.ending,
            stdin_is_terminal: self.stdin_is_terminal,
            pty: self.pty,
            clear: self.clear,
            saved: self.saved,
            raw: self.raw,
            log_ready: self.log_ready,
            monitor_ready: self.monitor_ready,
            wait_failed: self.wait_failed,
            read_input: self.read_input@,
            restored: self.restored@,
            stops: self.stops@,
            log_in: self.log_in@,
            shown: self.shown@,
        }
    }
}

impl Watch {
    /// Starts a session. `stdin_is_terminal` tells whether standard input is a
    /// terminal; `clear` holds the attribute bits that raw mode switches off.
    /// The first action is to open the log file.
    pub fn start(stdin_is_terminal: bool, clear: TermModes) -> (r: (Watch, Action))
        ensures
            r.0@ == initial(stdin_is_terminal, clear),
            r.1@ == ActionModel::OpenLog,
            inv(r.0@),
    {
        let w = Watch {
            phase: Phase::OpeningLog,
            ending: Ending::Running,
            stdin_is_terminal,
            pty: None,
            clear,
            saved: None,
            raw: false,
            log_ready: false,
            monitor_ready: false,
            wait_failed: false,
            read_input: Ghost(false),
            restored: Ghost(false),
            stops: Ghost(0),
            log_in: Ghost(Seq::empty()),
            shown: Ghost(Seq::empty()),
        };
        (w, Action::OpenLog)
    }

    /// Where the session stands.
    pub fn phase(&self) -> (r: Phase)
        ensures
            r == self@.phase,
    {
        self.phase
    }

    /// Why the session ended, or `Running`.
    pub fn ending(&self) -> (r: Ending)
        ensures
            r == self@.ending,
    {
        self.ending
    }

    /// The PTY master that the hand-off granted, if any.
    pub fn pty(&self) -> (r: Option<i32>)
        ensures
            r == self@.pty,
    {
        self.pty
    }

    /// Whether raw mode was entered (and a restore is owed).
    pub fn raw(&self) -> (r: bool)
        ensures
            r == self@.raw,
    {
        self.raw
    }

    /// Whether standard input is part of the readiness set.
    pub fn forwards_input(&self) -> (r: bool)
        ensures
            r == forwards(self@),
    {
        self.stdin_is_terminal && self.pty.is_some()
    }

    fn go(&mut self, p: Phase)
        ensures
            final(self)@ == at(old(self)@, p),
    {
        self.phase = p;
    }

    fn check(&mut self) -> (a: Action)
        ensures
            (final(self)@, a@) == to_check(old(self)@),
    {
        self.go(Phase::Checking);
        Action::CheckCancel
    }

    fn end_after_restore(&mut self) -> (a: Action)
        ensures
            (final(self)@, a@) == after_restore(old(self)@),
    {
        if self.ending == Ending::Cancelled {
            self.phase = Phase::Stopping;
            self.stops = Ghost(self.stops@ + 1);
            Action::RequestStop
        } else {
            self.go(Phase::Exited);
            Action::Exit { code: self.code() }
        }
    }

    fn code(&self) -> (c: i32)
        ensures
            c == exit_code(self@.ending),
    {
        match self.ending {
            Ending::LogTimedOut | Ending::NoMonitor => 1,
            _ => 0,
        }
    }

    fn finish(&mut self, ending: Ending) -> (a: Action)
        requires
            old(self)@.raw ==> old(self)@.saved is Some,
        ensures
            (final(self)@, a@) == finish(old(self)@, ending),
    {
        self.ending = ending;
        if self.raw {
            self.phase = Phase::Restoring;
            self.restored = Ghost(true);
            match self.saved {
                Some(m) => Action::ApplyModes { modes: m },
                None => Action::ApplyModes { modes: self.clear },
            }
        } else {
            self.end_after_restore()
        }
    }

    fn next_after_log(&mut self) -> (a: Action)
        ensures
            (final(self)@, a@) == after_log(old(self)@),
    {
        if self.monitor_ready {
            self.go(Phase::ReadingMonitor);
            Action::ReadMonitor
        } else {
            self.check()
        }
    }

    fn next_after_input(&mut self) -> (a: Action)
        ensures
            (final(self)@, a@) == after_input(old(self)@),
    {
        if self.log_ready {
            self.go(Phase::ReadingLog);
            Action::ReadLog
        } else {
            self.next_after_log()
        }
    }

    fn next_after_handoff(&mut self) -> (a: Action)
        ensures
            (final(self)@, a@) == after_handoff(old(self)@),
    {
        if self.pty.is_some() {
            self.go(Phase::ReadingModes);
            Action::ReadModes
        } else {
            self.go(Phase::ConnectingMonitor);
            Action::ConnectMonitor
        }
    }

    fn show(&mut self, bytes: Vec<u8>, p: Phase) -> (a: Action)
        requires
            bytes@.len() > 0,
        ensures
            final(self)@ == (WatchModel {
                phase: p,
                log_in: old(self)@.log_in + bytes@,
                shown: old(self)@.shown + bytes@,
                ..old(self)@
            }),
            a@ == (ActionModel::WriteOutput { bytes: bytes@ }),
    {
        self.phase = p;
        self.log_in = Ghost(self.log_in@ + bytes@);
        self.shown = Ghost(self.shown@ + bytes@);
        Action::WriteOutput { bytes }
    }

    /// Feeds the answer to the last action into the session and returns the
    /// next action, as `next` prescribes.
    pub fn step(&mut self, e: Event) -> (a: Action)
        requires
            inv(old(self)@),
        ensures
            (final(self)@, a@) == next(old(self)@, e@),
            inv(final(self)@),
    {
        proof {
            lemma_next_keeps_inv(self@, e@);
        }
        match self.phase {
            Phase::Restoring => self.end_after_restore(),
            Phase::Stopping => {
                self.go(Phase::Exited);
                Action::Exit { code: self.code() }
            },
            Phase::Exited => Action::Exit { code: self.code() },
            Phase::OpeningLog | Phase::Backoff | Phase::Connecting | Phase::Sending
            | Phase::AwaitingReply | Phase::Receiving | Phase::ReadingModes | Phase::EnteringRaw
            | Phase::ConnectingMonitor => self.setup_step(e),
            _ => self.loop_step(e),
        }
    }

    /// The transitions from the log wait to the monitor connection.
    fn setup_step(&mut self, e: Event) -> (a: Action)
        requires
            inv(old(self)@),
            !tearing_down(old(self)@.phase),
            old(self)@.phase == Phase::OpeningLog || old(self)@.phase == Phase::Backoff
                || old(self)@.phase == Phase::Connecting || old(self)@.phase == Phase::Sending
                || old(self)@.phase == Phase::AwaitingReply || old(self)@.phase
                == Phase::Receiving || old(self)@.phase == Phase::ReadingModes
                || old(self)@.phase == Phase::EnteringRaw || old(self)@.phase
                == Phase::ConnectingMonitor,
        ensures
            (final(self)@, a@) == next(old(self)@, e@),
    {
        match self.phase {
            Phase::OpeningLog => match e {
                Event::Status(true) => {
                    if self.stdin_is_terminal {
                        self.go(Phase::Connecting);
                        Action::ConnectHandoff
                    } else {
                        self.next_after_handoff()
                    }
                },
                Event::LogMissing { elapsed_ms } if elapsed_ms > LOG_WAIT_MS => {
                    self.finish(Ending::LogTimedOut)
                },
                _ => {
                    self.go(Phase::Backoff);
                    Action::Sleep { ms: LOG_RETRY_MS }
                },
            },
            Phase::Backoff => {
                self.go(Phase::OpeningLog);
                Action::OpenLog
            },
            Phase::Connecting => match e {
                Event::Status(true) => {
                    self.go(Phase::Sending);
                    Action::SendRequest
                },
                _ => self.next_after_handoff(),
            },
            Phase::Sending => match e {
                Event::Status(true) => {
                    self.go(Phase::AwaitingReply);
                    Action::AwaitReply { ms: HANDOFF_WAIT_MS }
                },
                _ => self.next_after_handoff(),
            },
            Phase::AwaitingReply => match e {
                Event::Status(true) => {
                    self.go(Phase::Receiving);
                    Action::ReceiveDescriptor
                },
                _ => self.next_after_handoff(),
            },
            Phase::Receiving => match e {
                Event::Descriptor(Some(fd)) => {
                    self.pty = Some(fd);
                    self.next_after_handoff()
                },
                _ => self.next_after_handoff(),
            },
            Phase::ReadingModes => match e {
                Event::Modes(Some(m)) => {
                    self.phase = Phase::EnteringRaw;
                    self.saved = Some(m);
                    Action::ApplyModes { modes: m.raw(&self.clear) }
                },
                _ => {
                    self.go(Phase::ConnectingMonitor);
                    Action::ConnectMonitor
                },
            },
            Phase::EnteringRaw => {
                match e {
                    Event::Status(true) => {
                        self.raw = true;
                    },
                    _ => {},
                }
                self.go(Phase::ConnectingMonitor);
                Action::ConnectMonitor
            },
            Phase::ConnectingMonitor => match e {
                Event::Status(true) => self.check(),
                _ => self.finish(Ending::NoMonitor),
            },
            // excluded by the precondition
            _ => self.check(),
        }
    }

    /// The transitions of the forwarding loop.
    fn loop_step(&mut self, e: Event) -> (a: Action)
        requires
            inv(old(self)@),
            !tearing_down(old(self)@.phase),
            old(self)@.phase == Phase::Checking || old(self)@.phase == Phase::Waiting
                || old(self)@.phase == Phase::ReadingInput || old(self)@.phase
                == Phase::ForwardingInput || old(self)@.phase == Phase::ReadingLog
                || old(self)@.phase == Phase::ShowingLog || old(self)@.phase
                == Phase::ReadingMonitor || old(self)@.phase == Phase::Draining
                || old(self)@.phase == Phase::ShowingDrained,
        ensures
            (final(self)@, a@) == next(old(self)@, e@),
    {
        match self.phase {
            Phase::Checking => match e {
                Event::Cancel(true) => self.finish(Ending::Cancelled),
                _ => {
                    if self.wait_failed {
                        self.finish(Ending::Failed)
                    } else {
                        self.go(Phase::Waiting);
                        Action::Wait { stdin: self.forwards_input(), ms: POLL_MS }
                    }
                },
            },
            Phase::Waiting => match e {
                Event::Readable { stdin, log, monitor } => {
                    self.log_ready = log;
                    self.monitor_ready = monitor;
                    if stdin && self.forwards_input() {
                        self.phase = Phase::ReadingInput;
                        self.read_input = Ghost(true);
                        Action::ReadInput
                    } else {
                        self.next_after_input()
                    }
                },
                _ => {
                    self.wait_failed = true;
                    self.check()
                },
            },
            Phase::ReadingInput => match e {
                Event::Read(ReadResult::Data(b)) => {
                    if b.len() > 0 {
                        self.go(Phase::ForwardingInput);
                        Action::WritePty { bytes: b }
                    } else {
                        self.finish(Ending::InputClosed)
                    }
                },
                Event::Read(ReadResult::End) => self.finish(Ending::InputClosed),
                _ => self.next_after_input(),
            },
            Phase::ForwardingInput => self.next_after_input(),
            Phase::ReadingLog => match e {
                Event::Read(ReadResult::Data(b)) => {
                    if b.len() > 0 {
                        self.show(b, Phase::ShowingLog)
                    } else {
                        self.next_after_log()
                    }
                },
                _ => self.next_after_log(),
            },
            Phase::ShowingLog => self.next_after_log(),
            Phase::ReadingMonitor => match e {
                Event::Read(ReadResult::Data(b)) => {
                    if b.len() > 0 {
                        self.check()
                    } else {
                        self.go(Phase::Draining);
                        Action::ReadLog
                    }
                },
                Event::Read(ReadResult::End) => {
                    self.go(Phase::Draining);
                    Action::ReadLog
                },
                _ => self.finish(Ending::Failed),
            },
            Phase::Draining => match e {
                Event::Read(ReadResult::Data(b)) => {
                    if b.len() > 0 {
                        self.show(b, Phase::ShowingDrained)
                    } else {
                        self.finish(Ending::Completed)
                    }
                },
                _ => self.finish(Ending::Completed),
            },
            Phase::ShowingDrained => {
                self.go(Phase::Draining);
                Action::ReadLog
            },
            // excluded by the precondition
            _ => self.check(),
        }
    }
}

} // verus!
