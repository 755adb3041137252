//! The decisions of the loop that publishes snapshots.
//!
//! The loop itself binds a socket, waits for a peer, sleeps and sends; all of
//! that is the caller's. What it does next is decided here: the caller reports
//! what happened as an [`Event`], and [`step`] answers with the phase the
//! server is in now and the [`Action`] to take. One peer is served at a time,
//! and nothing but a failure to set the endpoint up ends the loop.

use vstd::prelude::*;

verus! {

/// The port the server listens on unless told otherwise.
pub const DEFAULT_PORT: u16 = 4242;

/// Milliseconds between two snapshots unless told otherwise.
pub const DEFAULT_INTERVAL_MS: u64 = 500;

/// Milliseconds to wait before the server is set up again.
pub const RESTART_DELAY_MS: u64 = 5000;

/// The error code of a write to a peer that has closed the connection.
pub const BROKEN_PIPE: i64 = 32;

/// The error code of a write to a peer that has reset the connection.
pub const CONNECTION_RESET: i64 = 104;

/// The error code of a bind to an address that is taken.
pub const ADDRESS_IN_USE: i64 = 98;

/// The byte that ends a record.
pub const LINE_END: u8 = 0x0A;

/// Where the server stands.
#[derive(Clone, Copy, Debug, PartialEq, Eq)]
pub enum Phase {
    /// The endpoint is not bound yet.
    Listening,
    /// The endpoint is bound and no peer is connected.
    Accepting,
    /// A peer is connected and gets a snapshot at every tick.
    Publishing,
    /// The endpoint could not be set up; `errno` says why.
    Failed { errno: i64 },
}

/// What the caller reports.
#[derive(Clone, Copy, Debug, PartialEq, Eq)]
pub enum Event {
    /// The endpoint is bound and listens.
    Bound,
    /// The endpoint could not be bound or does not listen.
    SetupFailed { errno: i64 },
    /// A peer has connected.
    Connected,
    /// The record went out.
    Sent,
    /// The record did not go out.
    SendFailed { errno: i64 },
}

/// What the caller does next.
#[derive(Clone, Copy, Debug, PartialEq, Eq)]
pub enum Action {
    /// Bind the endpoint and listen on it.
    Listen,
    /// Wait until a peer connects.
    Accept,
    /// Wait `wait_ms` milliseconds, then read the table and send one record.
    Publish { wait_ms: u64 },
    /// Give up with `errno`.
    Stop { errno: i64 },
}

/// The answer to an event.
#[derive(Clone, Copy, Debug, PartialEq, Eq)]
pub struct Step {
    pub phase: Phase,
    pub action: Action,
    /// An error code to put into the log.
    pub report: Option<i64>,
}

/// Whether the server is set up again after it gave up.
#[derive(Clone, Copy, Debug, PartialEq, Eq)]
pub enum Restart {
    /// Set it up again after `wait_ms` milliseconds.
    After { wait_ms: u64 },
    /// Leave it.
    Never,
}

/// The error code says that the peer is gone.
pub open spec fn is_peer_gone(errno: i64) -> bool {
    errno == BROKEN_PIPE || errno == CONNECTION_RESET
}

/// What a phase waits for.
pub open spec fn pending(phase: Phase, interval_ms: u64) -> Action {
    match phase {
        Phase::Listening => Action::Listen,
        Phase::Accepting => Action::Accept,
        Phase::Publishing => Action::Publish { wait_ms: interval_ms },
        Phase::Failed { errno } => Action::Stop { errno },
    }
}

/// Where the server starts.
pub open spec fn initial() -> Step {
    Step { phase: Phase::Listening, action: Action::Listen, report: None }
}

/// The transitions. An event that the phase does not wait for changes nothing.
pub open spec fn next(phase: Phase, event: Event, interval_ms: u64) -> Step {
    match (phase, event) {
        (Phase::Listening, Event::Bound) => Step {
            phase: Phase::Accepting,
            action: Action::Accept,
            report: None,
        },
        (Phase::Listening, Event::SetupFailed { errno }) => Step {
            phase: Phase::Failed { errno },
            action: Action::Stop { errno },
            report: Some(errno),
        },
        (Phase::Accepting, Event::Connected) => Step {
            phase: Phase::Publishing,
            action: Action::Publish { wait_ms: 0 },
            report: None,
        },
        (Phase::Publishing, Event::Sent) => Step {
            phase: Phase::Publishing,
            action: Action::Publish { wait_ms: interval_ms },
            report: None,
        },
        (Phase::Publishing, Event::SendFailed { errno }) => if is_peer_gone(errno) {
            Step { phase: Phase::Accepting, action: Action::Accept, report: Some(errno) }
        } else {
            Step {
                phase: Phase::Publishing,
                action: Action::Publish { wait_ms: interval_ms },
                report: Some(errno),
            }
        },
        _ => Step { phase, action: pending(phase, interval_ms), report: None },
    }
}

/// The phase after a run of events.
pub open spec fn run(phase: Phase, events: Seq<Event>, interval_ms: u64) -> Phase
    decreases events.len(),
{
    if events.len() == 0 {
        phase
    } else {
        run(next(phase, events[0], interval_ms).phase, events.drop_first(), interval_ms)
    }
}

/// How many records a run of events asks for.
pub open spec fn records(phase: Phase, events: Seq<Event>, interval_ms: u64) -> nat
    decreases events.len(),
{
    if events.len() == 0 {
        0
    } else {
        let step = next(phase, events[0], interval_ms);
        let asked: nat = if step.action is Publish {
            1
        } else {
            0
        };
        asked + records(step.phase, events.drop_first(), interval_ms)
    }
}

/// Whether `errno` says that the peer is gone.
pub fn peer_gone(errno: i64) -> (r: bool)
    ensures
        r == is_peer_gone(errno),
{
    errno == BROKEN_PIPE || errno == CONNECTION_RESET
}

/// The first step: listen.
pub fn start() -> (r: Step)
    ensures
        r == initial(),
{
    Step { phase: Phase::Listening, action: Action::Listen, report: None }
}

/// The phase after `event` and what to do next, at a tick of `interval_ms`.
pub fn step(phase: Phase, event: Event, interval_ms: u64) -> (r: Step)
    ensures
        r == next(phase, event, interval_ms),
{
    match phase {
        Phase::Listening => match event {
            Event::Bound => Step { phase: Phase::Accepting, action: Action::Accept, report: None },
            Event::SetupFailed { errno } => Step {
                phase: Phase::Failed { errno },
                action: Action::Stop { errno },
                report: Some(errno),
            },
            _ => Step { phase, action: Action::Listen, report: None },
        },
        Phase::Accepting => match event {
            Event::Connected => Step {
                phase: Phase::Publishing,
                action: Action::Publish { wait_ms: 0 },
                report: None,
            },
            _ => Step { phase, action: Action::Accept, report: None },
        },
        Phase::Publishing => {
            let again = Action::Publish { wait_ms: interval_ms };
            match event {
                Event::Sent => Step { phase, action: again, report: None },
                Event::SendFailed { errno } => if peer_gone(errno) {
                    Step { phase: Phase::Accepting, action: Action::Accept, report: Some(errno) }
                } else {
                    Step { phase, action: again, report: Some(errno) }
                },
                _ => Step { phase, action: again, report: None },
            }
        },
        Phase::Failed { errno } => Step { phase, action: Action::Stop { errno }, report: None },
    }
}

/// Whether to set the server up again after it gave up with `errno`: not
/// where the address is taken, else after `RESTART_DELAY_MS`.
pub fn restart(errno: i64) -> (r: Restart)
    ensures
        errno == ADDRESS_IN_USE ==> r == Restart::Never,
        errno != ADDRESS_IN_USE ==> r == (Restart::After { wait_ms: RESTART_DELAY_MS }),
{
    if errno == ADDRESS_IN_USE {
        Restart::Never
    } else {
        Restart::After { wait_ms: RESTART_DELAY_MS }
    }
}

/// The line for `record`: the record and the byte that ends it.
pub fn frame_record(record: Vec<u8>) -> (line: Vec<u8>)
    ensures
        line@ == record@.push(LINE_END),
{
    let mut line = record;
    line.push(LINE_END);
    line
}

/// One record for every tick: while every record goes out, the server stays
/// with its peer and asks for one record, a tick later, after each.
pub proof fn lemma_one_record_per_tick(events: Seq<Event>, interval_ms: u64)
    requires
        forall|i: int| 0 <= i < events.len() ==> events[i] == Event::Sent,
    ensures
        run(Phase::Publishing, events, interval_ms) == Phase::Publishing,
        records(Phase::Publishing, events, interval_ms) == events.len(),
        forall|i: int|
            0 <= i < events.len() ==> next(Phase::Publishing, #[trigger] events[i], interval_ms).action
                == (Action::Publish { wait_ms: interval_ms }),
    decreases events.len(),
{
    if events.len() > 0 {
        lemma_one_record_per_tick(events.drop_first(), interval_ms);
    }
}

/// A peer that goes away is replaced: the server waits for the next peer and
/// publishes to it as soon as it connects, and no send that fails makes the
/// server give up.
pub proof fn lemma_reconnects(errno: i64, interval_ms: u64)
    ensures
        is_peer_gone(errno) ==> {
            let lost = next(Phase::Publishing, Event::SendFailed { errno }, interval_ms);
            let back = next(lost.phase, Event::Connected, interval_ms);
            &&& lost.phase == Phase::Accepting
            &&& lost.action == Action::Accept
            &&& back.phase == Phase::Publishing
            &&& back.action is Publish
        },
        !is_peer_gone(errno) ==> next(
            Phase::Publishing,
            Event::SendFailed { errno },
            interval_ms,
        ).phase == Phase::Publishing,
{
}

/// Only a failure to set the endpoint up ends the loop.
pub proof fn lemma_only_setup_fails(phase: Phase, event: Event, interval_ms: u64)
    ensures
        next(phase, event, interval_ms).phase is Failed ==> phase is Failed || (phase
            == Phase::Listening && event is SetupFailed),
        phase is Failed ==> next(phase, event, interval_ms).phase == phase,
{
}

} // verus!
