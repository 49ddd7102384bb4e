//! The per-operation session protocol, as two small state machines. Each
//! operation (a speed write, a status read) is a straight-line session over
//! the USB backend: open a handle, manage the kernel driver, claim the
//! interface, transfer, and clean up. The machines here make every decision
//! of that protocol; a backend runs them by performing the prescribed
//! [`Action`] and handing the outcome back as an [`Event`]. Diagnostics are
//! returned as [`LogEvent`] values for the caller's logger.

use vstd::prelude::*;
use crate::protocol::{Channel, Info, decode_spec, payload_spec, STATUS_LEN};
use crate::usb::UsbError;

verus! {

/// Severity of a diagnostic.
#[derive(Clone, Copy, Debug, PartialEq, Eq)]
pub enum Level {
    Info,
    Warn,
    Error,
}

/// A diagnostic emitted by a session step. These are observability only:
/// none of them changes an operation's result.
#[derive(Clone, Copy, Debug, PartialEq, Eq)]
pub enum LogEvent {
    /// A speed above 100 was requested; the operation is a no-op.
    SpeedOutOfRange(u8),
    /// The bulk write failed with an I/O error.
    WriteFailed,
    /// The bulk write failed with an error other than I/O.
    TransferUnknown,
    /// The cleanup kernel-driver query failed; absorbed, the release
    /// attempt still follows.
    ReattachCheckFailed(UsbError),
    /// The kernel driver was re-attached during cleanup.
    DriverReattached,
    /// Re-attaching the kernel driver failed; absorbed.
    ReattachFailed(UsbError),
    /// The claimed interface was released during cleanup.
    InterfaceReleased,
    /// Releasing the interface failed; absorbed.
    ReleaseFailed(UsbError),
    /// A status read returned this many bytes.
    StatusBytes(usize),
    /// The bulk read failed; the stale buffer is decoded anyway.
    ReadFailed(UsbError),
}

/// Severity of each diagnostic.
pub open spec fn level_spec(ev: LogEvent) -> Level {
    match ev {
        LogEvent::SpeedOutOfRange(_) => Level::Warn,
        LogEvent::WriteFailed => Level::Warn,
        LogEvent::TransferUnknown => Level::Error,
        LogEvent::ReattachCheckFailed(_) => Level::Warn,
        LogEvent::DriverReattached => Level::Info,
        LogEvent::ReattachFailed(_) => Level::Warn,
        LogEvent::InterfaceReleased => Level::Info,
        LogEvent::ReleaseFailed(_) => Level::Warn,
        LogEvent::StatusBytes(_) => Level::Info,
        LogEvent::ReadFailed(_) => Level::Warn,
    }
}

impl LogEvent {
    /// The severity a logger should report this diagnostic at.
    pub fn level(&self) -> (l: Level)
        ensures
            l == level_spec(*self),
    {
        match self {
            LogEvent::SpeedOutOfRange(_) => Level::Warn,
            LogEvent::WriteFailed => Level::Warn,
            LogEvent::TransferUnknown => Level::Error,
            LogEvent::ReattachCheckFailed(_) => Level::Warn,
            LogEvent::DriverReattached => Level::Info,
            LogEvent::ReattachFailed(_) => Level::Warn,
            LogEvent::InterfaceReleased => Level::Info,
            LogEvent::ReleaseFailed(_) => Level::Warn,
            LogEvent::StatusBytes(_) => Level::Info,
            LogEvent::ReadFailed(_) => Level::Warn,
        }
    }
}

/// What a session asks the USB backend to do next. `CheckDriver` stands both
/// for the pre-claim query and for the pre-reattach query during cleanup;
/// the session's state tells them apart.
#[derive(Clone, Copy, Debug, PartialEq, Eq)]
pub enum Action {
    /// Open a handle to the device.
    Open,
    /// Query whether a kernel driver is active on the control interface.
    CheckDriver,
    /// Detach the kernel driver from the control interface.
    Detach,
    /// Claim the control interface.
    Claim,
    /// Bulk-write the command payload to the outbound endpoint.
    Write,
    /// Re-attach the kernel driver to the control interface.
    Attach,
    /// Release the claimed control interface.
    Release,
    /// Bulk-read the telemetry frame from the inbound endpoint.
    Read,
}

/// The outcome of a performed [`Action`], handed back to the session.
#[derive(Debug, PartialEq, Eq)]
pub enum Event {
    /// Outcome of [`Action::Open`].
    Opened(Result<(), UsbError>),
    /// Outcome of [`Action::CheckDriver`]: whether a kernel driver is active.
    DriverChecked(Result<bool, UsbError>),
    /// Outcome of [`Action::Detach`].
    Detached(Result<(), UsbError>),
    /// Outcome of [`Action::Claim`].
    Claimed(Result<(), UsbError>),
    /// Outcome of [`Action::Write`]: how many bytes were written.
    Written(Result<usize, UsbError>),
    /// Outcome of [`Action::Attach`].
    Attached(Result<(), UsbError>),
    /// Outcome of [`Action::Release`].
    Released(Result<(), UsbError>),
    /// Outcome of [`Action::Read`], with the 17-byte buffer as the backend
    /// left it (zero-filled where the read never completed).
    ReadDone(Result<usize, UsbError>, Vec<u8>),
}

/// Where a write session stands: which action it awaits the outcome of,
/// or the result it finished with.
#[derive(Clone, Copy, Debug, PartialEq, Eq)]
pub enum WriteState {
    /// Awaiting the outcome of opening the handle.
    AwaitOpen,
    /// Awaiting the pre-claim kernel-driver query.
    AwaitDriverCheck,
    /// Awaiting the kernel-driver detach.
    AwaitDetach,
    /// Awaiting the interface claim.
    AwaitClaim,
    /// Awaiting the bulk write of the payload.
    AwaitWrite,
    /// Awaiting the cleanup kernel-driver query.
    AwaitReattachCheck,
    /// Awaiting the kernel-driver re-attach.
    AwaitAttach,
    /// Awaiting the interface release.
    AwaitRelease,
    /// The session is over with this result.
    Finished(Result<(), UsbError>),
}

/// Which event kind a write session in state `s` can take next. A finished
/// session takes none.
pub open spec fn write_event_fits(s: WriteState, e: Event) -> bool {
    match (s, e) {
        (WriteState::AwaitOpen, Event::Opened(_)) => true,
        (WriteState::AwaitDriverCheck, Event::DriverChecked(_)) => true,
        (WriteState::AwaitDetach, Event::Detached(_)) => true,
        (WriteState::AwaitClaim, Event::Claimed(_)) => true,
        (WriteState::AwaitWrite, Event::Written(_)) => true,
        (WriteState::AwaitReattachCheck, Event::DriverChecked(_)) => true,
        (WriteState::AwaitAttach, Event::Attached(_)) => true,
        (WriteState::AwaitRelease, Event::Released(_)) => true,
        _ => false,
    }
}

/// The transition relation of a write session. Setup failures (open, the
/// pre-claim driver query, detach, claim) finish the session with that
/// error; the write's own outcome and every cleanup outcome — the cleanup
/// driver query included, whose failure goes straight to the release — are
/// absorbed, so that after the write the session always reaches the release
/// attempt and finishes `Ok`.
pub open spec fn write_next(s: WriteState, e: Event) -> WriteState {
    match (s, e) {
        (WriteState::AwaitOpen, Event::Opened(Ok(_))) => WriteState::AwaitDriverCheck,
        (WriteState::AwaitOpen, Event::Opened(Err(er))) => WriteState::Finished(Err(er)),
        (WriteState::AwaitDriverCheck, Event::DriverChecked(Ok(true))) => WriteState::AwaitDetach,
        (WriteState::AwaitDriverCheck, Event::DriverChecked(Ok(false))) => WriteState::AwaitClaim,
        (WriteState::AwaitDriverCheck, Event::DriverChecked(Err(er))) => WriteState::Finished(
            Err(er),
        ),
        (WriteState::AwaitDetach, Event::Detached(Ok(_))) => WriteState::AwaitClaim,
        (WriteState::AwaitDetach, Event::Detached(Err(er))) => WriteState::Finished(Err(er)),
        (WriteState::AwaitClaim, Event::Claimed(Ok(_))) => WriteState::AwaitWrite,
        (WriteState::AwaitClaim, Event::Claimed(Err(er))) => WriteState::Finished(Err(er)),
        (WriteState::AwaitWrite, Event::Written(_)) => WriteState::AwaitReattachCheck,
        (WriteState::AwaitReattachCheck, Event::DriverChecked(Ok(false))) => WriteState::AwaitAttach,
        (WriteState::AwaitReattachCheck, Event::DriverChecked(Ok(true))) => WriteState::AwaitRelease,
        (WriteState::AwaitReattachCheck, Event::DriverChecked(Err(_))) => WriteState::AwaitRelease,
        (WriteState::AwaitAttach, Event::Attached(_)) => WriteState::AwaitRelease,
        (WriteState::AwaitRelease, Event::Released(_)) => WriteState::Finished(Ok(())),
        _ => s,
    }
}

/// The diagnostics a write-session step emits: a warning for a failed write
/// (I/O error) or an error for any other transfer failure, and the outcome
/// of each cleanup step. The backend reports `Success` as an error code on
/// some cleanup calls; the protocol counts that as a success.
pub open spec fn write_logs(s: WriteState, e: Event) -> Seq<LogEvent> {
    match (s, e) {
        (WriteState::AwaitWrite, Event::Written(Ok(_))) => Seq::empty(),
        (WriteState::AwaitWrite, Event::Written(Err(UsbError::Io))) => seq![LogEvent::WriteFailed],
        (WriteState::AwaitWrite, Event::Written(Err(_))) => seq![LogEvent::TransferUnknown],
        (WriteState::AwaitReattachCheck, Event::DriverChecked(Err(er))) => seq![
            LogEvent::ReattachCheckFailed(er),
        ],
        (WriteState::AwaitAttach, Event::Attached(r)) => match r {
            Ok(_) => seq![LogEvent::DriverReattached],
            Err(UsbError::Success) => seq![LogEvent::DriverReattached],
            Err(er) => seq![LogEvent::ReattachFailed(er)],
        },
        (WriteState::AwaitRelease, Event::Released(r)) => match r {
            Ok(_) => seq![LogEvent::InterfaceReleased],
            Err(UsbError::Success) => seq![LogEvent::InterfaceReleased],
            Err(er) => seq![LogEvent::ReleaseFailed(er)],
        },
        _ => Seq::empty(),
    }
}

/// The action a write session in state `s` prescribes next.
pub open spec fn write_action_spec(s: WriteState) -> Option<Action> {
    match s {
        WriteState::AwaitOpen => Some(Action::Open),
        WriteState::AwaitDriverCheck => Some(Action::CheckDriver),
        WriteState::AwaitDetach => Some(Action::Detach),
        WriteState::AwaitClaim => Some(Action::Claim),
        WriteState::AwaitWrite => Some(Action::Write),
        WriteState::AwaitReattachCheck => Some(Action::CheckDriver),
        WriteState::AwaitAttach => Some(Action::Attach),
        WriteState::AwaitRelease => Some(Action::Release),
        WriteState::Finished(_) => None,
    }
}

/// Where a fresh write session starts: at the open step for a speed within
/// range, already finished successfully for a speed above 100.
pub open spec fn write_start_state(percent: u8) -> WriteState {
    if percent > 100 {
        WriteState::Finished(Ok(()))
    } else {
        WriteState::AwaitOpen
    }
}

/// The diagnostics a fresh write session starts with: a single warning for
/// a speed above 100, nothing otherwise.
pub open spec fn write_start_logs(percent: u8) -> Seq<LogEvent> {
    if percent > 100 {
        seq![LogEvent::SpeedOutOfRange(percent)]
    } else {
        Seq::empty()
    }
}

/// One speed-setting operation against the device, step by step. The
/// backend repeatedly asks [`WriteSession::action`], performs the prescribed
/// call, and hands the outcome to [`WriteSession::handle`], until the action
/// is `None`; the result then stands in [`WriteState::Finished`].
#[derive(Debug, PartialEq, Eq)]
pub struct WriteSession {
    /// Which part the command addresses.
    pub channel: Channel,
    /// The requested speed percentage, as given by the caller.
    pub percent: u8,
    /// Where the session stands.
    pub state: WriteState,
    /// Every diagnostic the session has emitted so far.
    pub logs: Vec<LogEvent>,
}

impl WriteSession {
    /// Starts a speed-setting session. A percentage above 100 produces a
    /// session that is already finished with success and a warning: no
    /// device interaction is ever prescribed for it.
    pub fn new(channel: Channel, percent: u8) -> (s: WriteSession)
        ensures
            s.channel == channel,
            s.percent == percent,
            s.state == write_start_state(percent),
            s.logs@ == write_start_logs(percent),
    {
        let mut logs: Vec<LogEvent> = Vec::new();
        let state: WriteState = if percent > 100 {
            logs.push(LogEvent::SpeedOutOfRange(percent));
            WriteState::Finished(Ok(()))
        } else {
            WriteState::AwaitOpen
        };
        proof {
            assert(logs@ =~= write_start_logs(percent));
        }
        WriteSession { channel, percent, state, logs }
    }

    /// The next backend call this session prescribes, `None` once finished.
    pub fn action(&self) -> (a: Option<Action>)
        ensures
            a == write_action_spec(self.state),
    {
        match self.state {
            WriteState::AwaitOpen => Some(Action::Open),
            WriteState::AwaitDriverCheck => Some(Action::CheckDriver),
            WriteState::AwaitDetach => Some(Action::Detach),
            WriteState::AwaitClaim => Some(Action::Claim),
            WriteState::AwaitWrite => Some(Action::Write),
            WriteState::AwaitReattachCheck => Some(Action::CheckDriver),
            WriteState::AwaitAttach => Some(Action::Attach),
            WriteState::AwaitRelease => Some(Action::Release),
            WriteState::Finished(_) => None,
        }
    }

    /// The 24-byte payload this session's write step sends.
    pub fn payload(&self) -> (p: Vec<u8>)
        requires
            self.percent <= 100,
        ensures
            p@ == payload_spec(self.channel, self.percent),
    {
        crate::protocol::payload(self.channel, self.percent)
    }

    /// Feeds the outcome of the prescribed action back into the session and
    /// returns the diagnostics of this step, which are also appended to
    /// `logs`. The channel and percentage never change.
    pub fn handle(&mut self, e: Event) -> (fresh: Vec<LogEvent>)
        requires
            write_event_fits(old(self).state, e),
        ensures
            final(self).channel == old(self).channel,
            final(self).percent == old(self).percent,
            final(self).state == write_next(old(self).state, e),
            fresh@ == write_logs(old(self).state, e),
            final(self).logs@ == old(self).logs@ + write_logs(old(self).state, e),
    {
        let ghost e0 = e;
        let ghost s0 = self.state;
        let ghost logs0 = self.logs@;
        let ghost ch0 = self.channel;
        let ghost p0 = self.percent;
        let mut fresh: Vec<LogEvent> = Vec::new();
        let next: WriteState = match (self.state, e) {
            (WriteState::AwaitOpen, Event::Opened(Ok(_))) => WriteState::AwaitDriverCheck,
            (WriteState::AwaitOpen, Event::Opened(Err(er))) => WriteState::Finished(Err(er)),
            (WriteState::AwaitDriverCheck, Event::DriverChecked(Ok(true))) => WriteState::AwaitDetach,
            (WriteState::AwaitDriverCheck, Event::DriverChecked(Ok(false))) => WriteState::AwaitClaim,
            (WriteState::AwaitDriverCheck, Event::DriverChecked(Err(er))) => WriteState::Finished(
                Err(er),
            ),
            (WriteState::AwaitDetach, Event::Detached(Ok(_))) => WriteState::AwaitClaim,
            (WriteState::AwaitDetach, Event::Detached(Err(er))) => WriteState::Finished(Err(er)),
            (WriteState::AwaitClaim, Event::Claimed(Ok(_))) => WriteState::AwaitWrite,
            (WriteState::AwaitClaim, Event::Claimed(Err(er))) => WriteState::Finished(Err(er)),
            (WriteState::AwaitWrite, Event::Written(Ok(_))) => WriteState::AwaitReattachCheck,
            (WriteState::AwaitWrite, Event::Written(Err(UsbError::Io))) => {
                fresh.push(LogEvent::WriteFailed);
                WriteState::AwaitReattachCheck
            },
            (WriteState::AwaitWrite, Event::Written(Err(_))) => {
                fresh.push(LogEvent::TransferUnknown);
                WriteState::AwaitReattachCheck
            },
            (WriteState::AwaitReattachCheck, Event::DriverChecked(Ok(false))) => WriteState::AwaitAttach,
            (WriteState::AwaitReattachCheck, Event::DriverChecked(Ok(true))) => WriteState::AwaitRelease,
            (WriteState::AwaitReattachCheck, Event::DriverChecked(Err(er))) => {
                fresh.push(LogEvent::ReattachCheckFailed(er));
                WriteState::AwaitRelease
            },
            (WriteState::AwaitAttach, Event::Attached(Ok(_))) => {
                fresh.push(LogEvent::DriverReattached);
                WriteState::AwaitRelease
            },
            (WriteState::AwaitAttach, Event::Attached(Err(UsbError::Success))) => {
                fresh.push(LogEvent::DriverReattached);
                WriteState::AwaitRelease
            },
            (WriteState::AwaitAttach, Event::Attached(Err(er))) => {
                fresh.push(LogEvent::ReattachFailed(er));
                WriteState::AwaitRelease
            },
            (WriteState::AwaitRelease, Event::Released(Ok(_))) => {
                fresh.push(LogEvent::InterfaceReleased);
                WriteState::Finished(Ok(()))
            },
            (WriteState::AwaitRelease, Event::Released(Err(UsbError::Success))) => {
                fresh.push(LogEvent::InterfaceReleased);
                WriteState::Finished(Ok(()))
            },
            (WriteState::AwaitRelease, Event::Released(Err(er))) => {
                fresh.push(LogEvent::ReleaseFailed(er));
                WriteState::Finished(Ok(()))
            },
            // ruled out by the fitting requirement on the event
            _ => {
                proof {
                    assert(false);
                }
                WriteState::AwaitOpen
            },
        };
        self.state = next;
        proof {
            assert(logs0 + fresh@.take(0) =~= self.logs@);
            assert(fresh@ =~= write_logs(s0, e0));
        }
        let mut i: usize = 0;
        while i < fresh.len()
            invariant
                i <= fresh@.len(),
                self.logs@ == logs0 + fresh@.take(i as int),
                self.channel == ch0,
                self.percent == p0,
                self.state == write_next(s0, e0),
                fresh@ == write_logs(s0, e0),
            decreases fresh@.len() - i,
        {
            self.logs.push(fresh[i]);
            proof {
                assert((logs0 + fresh@.take(i as int)).push(fresh@[i as int]) =~= logs0
                    + fresh@.take(i as int + 1));
            }
            i = i + 1;
        }
        proof {
            assert(fresh@.take(fresh@.len() as int) =~= fresh@);
        }
        fresh
    }
}

/// The state a write session reaches after taking `events` in order,
/// stopping at the first event that does not fit its state.
pub open spec fn write_run(s: WriteState, events: Seq<Event>) -> WriteState
    decreases events.len(),
{
    if events.len() == 0 {
        s
    } else if write_event_fits(s, events[0]) {
        write_run(write_next(s, events[0]), events.skip(1))
    } else {
        s
    }
}

/// The diagnostics a write session emits while taking `events` in order,
/// stopping at the first event that does not fit its state.
pub open spec fn write_run_logs(s: WriteState, events: Seq<Event>) -> Seq<LogEvent>
    decreases events.len(),
{
    if events.len() == 0 {
        Seq::empty()
    } else if write_event_fits(s, events[0]) {
        write_logs(s, events[0]) + write_run_logs(write_next(s, events[0]), events.skip(1))
    } else {
        Seq::empty()
    }
}

/// Law: a finished write session is terminal. No event fits it, so whatever
/// outcomes are offered, it keeps its state and its result.
pub proof fn lemma_finished_write_is_terminal(r: Result<(), UsbError>, events: Seq<Event>)
    ensures
        write_run(WriteState::Finished(r), events) == WriteState::Finished(r),
{
}

/// Law: a speed request above 100 percent never touches the device. Its
/// session starts already finished with success, prescribes no action, and
/// stays finished under any events; its one diagnostic is the out-of-range
/// warning.
pub proof fn lemma_out_of_range_no_transfer(percent: u8, events: Seq<Event>)
    requires
        percent > 100,
    ensures
        write_start_state(percent) == WriteState::Finished(Ok::<(), UsbError>(())),
        write_action_spec(write_start_state(percent)) == None::<Action>,
        write_run(write_start_state(percent), events) == WriteState::Finished(
            Ok::<(), UsbError>(()),
        ),
        write_start_logs(percent) == seq![LogEvent::SpeedOutOfRange(percent)],
{
    lemma_finished_write_is_terminal(Ok(()), events);
}

/// Law: cleanup always follows the write. Whatever outcome the bulk write
/// reports — success, an I/O failure, or any other error — the session
/// moves on to the re-attach check, never straight to a result.
pub proof fn lemma_write_outcome_absorbed(e: Event)
    requires
        write_event_fits(WriteState::AwaitWrite, e),
    ensures
        write_next(WriteState::AwaitWrite, e) == WriteState::AwaitReattachCheck,
{
}

/// Law: a write session reports success only from the release step, so a
/// successful result means the cleanup's release attempt was made.
pub proof fn lemma_success_only_after_release(s: WriteState, e: Event)
    requires
        write_event_fits(s, e),
        write_next(s, e) == WriteState::Finished(Ok::<(), UsbError>(())),
    ensures
        s == WriteState::AwaitRelease,
{
}

/// Whether a write session stands past its successful claim, still on its
/// way to a result: at the write step or in one of the cleanup steps.
pub open spec fn past_claim(s: WriteState) -> bool {
    match s {
        WriteState::AwaitWrite => true,
        WriteState::AwaitReattachCheck => true,
        WriteState::AwaitAttach => true,
        WriteState::AwaitRelease => true,
        _ => false,
    }
}

/// Law: once the claim has succeeded, the operation cannot fail any more.
/// Each step past the claim leads to another step past the claim or to the
/// successful result, never to an error: the result reflects only whether
/// open, driver hand-off and claim succeeded.
pub proof fn lemma_no_failure_past_claim(s: WriteState, e: Event)
    requires
        past_claim(s),
        write_event_fits(s, e),
    ensures
        past_claim(write_next(s, e)) || write_next(s, e) == WriteState::Finished(
            Ok::<(), UsbError>(()),
        ),
{
}

/// Law: write-path cleanup always runs to the end. From any state past the
/// claim — in particular from the write step, whatever the bulk write
/// reported — a run either still awaits an outcome past the claim or has
/// finished with success after the release attempt; it never finishes with
/// an error.
pub proof fn lemma_write_run_never_fails_past_claim(s: WriteState, events: Seq<Event>)
    requires
        past_claim(s),
    ensures
        past_claim(write_run(s, events)) || write_run(s, events) == WriteState::Finished(
            Ok::<(), UsbError>(()),
        ),
    decreases events.len(),
{
    if events.len() > 0 && write_event_fits(s, events[0]) {
        lemma_no_failure_past_claim(s, events[0]);
        let next = write_next(s, events[0]);
        if past_claim(next) {
            lemma_write_run_never_fails_past_claim(next, events.skip(1));
        } else {
            lemma_finished_write_is_terminal(Ok(()), events.skip(1));
        }
    }
}

/// Law: speed-setting is idempotent at the protocol level. Two sessions
/// started for the same channel and percentage begin in the same state with
/// the same diagnostics, and under the same backend outcomes they pass
/// through the same states and emit the same diagnostics: each call is an
/// independent, identical lifecycle, and nothing of one session carries
/// into the next.
pub proof fn lemma_set_speed_idempotent(s1: WriteSession, s2: WriteSession, events: Seq<Event>)
    requires
        s1.channel == s2.channel,
        s1.percent == s2.percent,
        s1.state == write_start_state(s1.percent),
        s2.state == write_start_state(s2.percent),
        s1.logs@ == write_start_logs(s1.percent),
        s2.logs@ == write_start_logs(s2.percent),
    ensures
        s1.state == s2.state,
        s1.logs@ == s2.logs@,
        write_run(s1.state, events) == write_run(s2.state, events),
        write_run_logs(s1.state, events) == write_run_logs(s2.state, events),
{
}

/// Where a status-read session stands.
#[derive(Clone, Copy, Debug, PartialEq, Eq)]
pub enum ReadState {
    /// Awaiting the outcome of opening the handle.
    AwaitOpen,
    /// Awaiting the interface claim, whose failure is absorbed.
    AwaitClaim,
    /// Awaiting the bulk read of the telemetry frame.
    AwaitRead,
    /// The session is over with this result.
    Finished(Result<Info, UsbError>),
}

/// Which event kind a read session in state `s` can take next. The buffer a
/// read outcome carries must be the full 17-byte frame, however much of it
/// the backend filled.
pub open spec fn read_event_fits(s: ReadState, e: Event) -> bool {
    match (s, e) {
        (ReadState::AwaitOpen, Event::Opened(_)) => true,
        (ReadState::AwaitClaim, Event::Claimed(_)) => true,
        (ReadState::AwaitRead, Event::ReadDone(_, buf)) => buf@.len() == STATUS_LEN,
        _ => false,
    }
}

/// The transition relation of a read session. Only the open can fail the
/// operation: a failed claim is absorbed and the read proceeds, and a failed
/// read still decodes the buffer as the backend left it and finishes `Ok`.
/// No release step follows the read: the claim is left standing, an
/// asymmetry of this path next to the write path.
pub open spec fn read_next(s: ReadState, e: Event) -> ReadState {
    match (s, e) {
        (ReadState::AwaitOpen, Event::Opened(Ok(_))) => ReadState::AwaitClaim,
        (ReadState::AwaitOpen, Event::Opened(Err(er))) => ReadState::Finished(Err(er)),
        (ReadState::AwaitClaim, Event::Claimed(_)) => ReadState::AwaitRead,
        (ReadState::AwaitRead, Event::ReadDone(_, buf)) => ReadState::Finished(
            Ok(decode_spec(buf@)),
        ),
        _ => s,
    }
}

/// The diagnostics a read-session step emits: how many bytes a successful
/// read returned, or a warning for a failed one. A failed claim is passed
/// over in silence.
pub open spec fn read_logs(s: ReadState, e: Event) -> Seq<LogEvent> {
    match (s, e) {
        (ReadState::AwaitRead, Event::ReadDone(Ok(n), _)) => seq![LogEvent::StatusBytes(n)],
        (ReadState::AwaitRead, Event::ReadDone(Err(er), _)) => seq![LogEvent::ReadFailed(er)],
        _ => Seq::empty(),
    }
}

/// The action a read session in state `s` prescribes next.
pub open spec fn read_action_spec(s: ReadState) -> Option<Action> {
    match s {
        ReadState::AwaitOpen => Some(Action::Open),
        ReadState::AwaitClaim => Some(Action::Claim),
        ReadState::AwaitRead => Some(Action::Read),
        ReadState::Finished(_) => None,
    }
}

/// One status-read operation against the device, step by step, run by a
/// backend the same way as a [`WriteSession`].
#[derive(Debug, PartialEq, Eq)]
pub struct ReadSession {
    /// Where the session stands.
    pub state: ReadState,
    /// Every diagnostic the session has emitted so far.
    pub logs: Vec<LogEvent>,
}

impl ReadSession {
    /// Starts a status-read session at the open step.
    pub fn new() -> (s: ReadSession)
        ensures
            s.state == ReadState::AwaitOpen,
            s.logs@ == Seq::<LogEvent>::empty(),
    {
        ReadSession { state: ReadState::AwaitOpen, logs: Vec::new() }
    }

    /// The next backend call this session prescribes, `None` once finished.
    pub fn action(&self) -> (a: Option<Action>)
        ensures
            a == read_action_spec(self.state),
    {
        match self.state {
            ReadState::AwaitOpen => Some(Action::Open),
            ReadState::AwaitClaim => Some(Action::Claim),
            ReadState::AwaitRead => Some(Action::Read),
            ReadState::Finished(_) => None,
        }
    }

    /// Feeds the outcome of the prescribed action back into the session and
    /// returns the diagnostics of this step, which are also appended to
    /// `logs`.
    pub fn handle(&mut self, e: Event) -> (fresh: Vec<LogEvent>)
        requires
            read_event_fits(old(self).state, e),
        ensures
            final(self).state == read_next(old(self).state, e),
            fresh@ == read_logs(old(self).state, e),
            final(self).logs@ == old(self).logs@ + read_logs(old(self).state, e),
    {
        let ghost e0 = e;
        let ghost s0 = self.state;
        let ghost logs0 = self.logs@;
        let mut fresh: Vec<LogEvent> = Vec::new();
        let next: ReadState = match (self.state, e) {
            (ReadState::AwaitOpen, Event::Opened(Ok(_))) => ReadState::AwaitClaim,
            (ReadState::AwaitOpen, Event::Opened(Err(er))) => ReadState::Finished(Err(er)),
            (ReadState::AwaitClaim, Event::Claimed(_)) => ReadState::AwaitRead,
            (ReadState::AwaitRead, Event::ReadDone(r, buf)) => {
                let info = Info::from(&buf);
                match r {
                    Ok(n) => fresh.push(LogEvent::StatusBytes(n)),
                    Err(er) => fresh.push(LogEvent::ReadFailed(er)),
                }
                ReadState::Finished(Ok(info))
            },
            // ruled out by the fitting requirement on the event
            _ => {
                proof {
                    assert(false);
                }
                ReadState::AwaitOpen
            },
        };
        self.state = next;
        proof {
            assert(logs0 + fresh@.take(0) =~= self.logs@);
            assert(fresh@ =~= read_logs(s0, e0));
        }
        let mut i: usize = 0;
        while i < fresh.len()
            invariant
                i <= fresh@.len(),
                self.logs@ == logs0 + fresh@.take(i as int),
                self.state == read_next(s0, e0),
                fresh@ == read_logs(s0, e0),
            decreases fresh@.len() - i,
        {
            self.logs.push(fresh[i]);
            proof {
                assert((logs0 + fresh@.take(i as int)).push(fresh@[i as int]) =~= logs0
                    + fresh@.take(i as int + 1));
            }
            i = i + 1;
        }
        proof {
            assert(fresh@.take(fresh@.len() as int) =~= fresh@);
        }
        fresh
    }
}

} // verus!
