//! The orchestrator: the decisions of the foreground loop, from the first
//! synchronisation to the steady state in which samples feed the filter.
//!
//! The loop's host queries servers, sleeps, drives the display, runs the
//! filter and moves the clock; after each step it reports what happened and
//! is told what to do next.

use crate::config::NtpConfig;
use crate::measurement::{measure, measurement_of, Measurement};
use crate::sampler::{pick_server, SyncMessage};
use crate::timestamp::NtpError;
use vstd::prelude::*;

verus! {

/// Where the orchestrator stands.
#[derive(Clone, Copy, Debug, PartialEq, Eq, Structural)]
pub enum Phase {
    /// Nothing has happened yet.
    Starting,
    /// Servers are probed until one answers.
    InitialSyncing,
    /// The clock is anchored and samples are filtered.
    Running,
    /// The program is leaving.
    Shutdown,
}

/// What the host reports to the orchestrator.
#[derive(Clone, Debug, PartialEq, Eq)]
pub enum HostEvent {
    /// The host is ready to start.
    Begin,
    /// The probe of the first synchronisation measured this offset, in
    /// nanoseconds.
    ProbeSucceeded(i64),
    /// The probe of the first synchronisation failed.
    ProbeFailed,
    /// The pause after a failed probe is over.
    RetryDue,
    /// A refresh tick, with the message that the channel held, if any.
    Tick(Option<SyncMessage>),
}

/// What the orchestrator asks its host to do next.
#[derive(Clone, Debug, PartialEq, Eq)]
pub enum HostAction {
    /// Show that this server is tried and query it with the timeout of the
    /// first synchronisation; then report `ProbeSucceeded` or `ProbeFailed`.
    Probe(String),
    /// Sleep for the retry interval, then report `RetryDue`.
    PauseBeforeRetry,
    /// Apply this offset to the clock as it was measured, start the sampler
    /// and begin to tick.
    Anchor(i64),
    /// Show the current time.
    ShowTime,
    /// Show the current time and that this server is being asked.
    ShowStatus(String),
    /// Show the current time, feed this measurement to the filter, apply the
    /// smoothed offset to the clock and show the result line.
    Filter(Measurement),
    /// Show the current time; the sample was dropped for this reason.
    Discard(NtpError),
    /// Leave the loop.
    Halt,
    /// The event does not belong to the phase: do nothing.
    Nothing,
}

/// The place of a phase in the order in which phases follow each other.
pub open spec fn phase_rank(phase: Phase) -> int {
    match phase {
        Phase::Starting => 0,
        Phase::InitialSyncing => 1,
        Phase::Running => 2,
        Phase::Shutdown => 3,
    }
}

/// What a tick in the steady state asks for, given the message it brought.
pub open spec fn tick_action(message: Option<SyncMessage>) -> HostAction {
    match message {
        None => HostAction::ShowTime,
        Some(SyncMessage::Syncing(server)) => HostAction::ShowStatus(server),
        Some(SyncMessage::Success(offset, delay)) => match measurement_of(
            offset as int,
            delay as int,
        ) {
            Ok(m) => HostAction::Filter(m),
            Err(e) => HostAction::Discard(e),
        },
    }
}

/// The orchestrator's rule: the phase and the action that follow `event` in
/// `phase`. `running` is the shutdown flag as read before the event is
/// handled, and `draw` is the index of the server to probe next.
///
/// Once the flag is down the orchestrator shuts down, whatever the event.
/// The first synchronisation probes one server after another, with a pause
/// after each failure, until a probe succeeds; its offset anchors the clock
/// unfiltered. In the steady state each tick handles at most one message: an
/// announcement is shown, a sample is prepared for the filter, and a sample
/// that cannot be prepared is dropped.
pub open spec fn orchestrator_rule(
    config: NtpConfig,
    phase: Phase,
    event: HostEvent,
    running: bool,
    draw: usize,
) -> (Phase, HostAction) {
    if !running || phase == Phase::Shutdown {
        (Phase::Shutdown, HostAction::Halt)
    } else {
        match (phase, event) {
            (Phase::Starting, HostEvent::Begin) => (
                Phase::InitialSyncing,
                HostAction::Probe(config.servers@[draw as int]),
            ),
            (Phase::InitialSyncing, HostEvent::ProbeSucceeded(offset)) => (
                Phase::Running,
                HostAction::Anchor(offset),
            ),
            (Phase::InitialSyncing, HostEvent::ProbeFailed) => (
                Phase::InitialSyncing,
                HostAction::PauseBeforeRetry,
            ),
            (Phase::InitialSyncing, HostEvent::RetryDue) => (
                Phase::InitialSyncing,
                HostAction::Probe(config.servers@[draw as int]),
            ),
            (Phase::Running, HostEvent::Tick(message)) => (Phase::Running, tick_action(message)),
            _ => (phase, HostAction::Nothing),
        }
    }
}

/// Handles the message of one tick in the steady state.
pub fn handle_sync_message(message: Option<SyncMessage>) -> (action: HostAction)
    ensures
        action == tick_action(message),
{
    match message {
        None => HostAction::ShowTime,
        Some(SyncMessage::Syncing(server)) => HostAction::ShowStatus(server),
        Some(SyncMessage::Success(offset, delay)) => match measure(offset, delay) {
            Ok(m) => HostAction::Filter(m),
            Err(e) => HostAction::Discard(e),
        },
    }
}

/// Applies the orchestrator's rule with the server to probe given by the
/// caller.
pub fn orchestrator_step(
    config: &NtpConfig,
    phase: Phase,
    event: HostEvent,
    running: bool,
    draw: usize,
) -> (r: (Phase, HostAction))
    requires
        draw < config.servers@.len(),
    ensures
        r == orchestrator_rule(*config, phase, event, running, draw),
{
    if !running {
        return (Phase::Shutdown, HostAction::Halt);
    }
    match phase {
        Phase::Shutdown => (Phase::Shutdown, HostAction::Halt),
        Phase::Starting => match event {
            HostEvent::Begin => (
                Phase::InitialSyncing,
                HostAction::Probe(config.servers[draw].clone()),
            ),
            _ => (phase, HostAction::Nothing),
        },
        Phase::InitialSyncing => match event {
            HostEvent::ProbeSucceeded(offset) => (Phase::Running, HostAction::Anchor(offset)),
            HostEvent::ProbeFailed => (Phase::InitialSyncing, HostAction::PauseBeforeRetry),
            HostEvent::RetryDue => (
                Phase::InitialSyncing,
                HostAction::Probe(config.servers[draw].clone()),
            ),
            _ => (phase, HostAction::Nothing),
        },
        Phase::Running => match event {
            HostEvent::Tick(message) => (Phase::Running, handle_sync_message(message)),
            _ => (phase, HostAction::Nothing),
        },
    }
}

/// Whether `event` in `phase` asks for a probe, so that the rule reads the
/// server drawn.
pub open spec fn asks_probe(phase: Phase, event: HostEvent) -> bool {
    match (phase, event) {
        (Phase::Starting, HostEvent::Begin) => true,
        (Phase::InitialSyncing, HostEvent::RetryDue) => true,
        _ => false,
    }
}

fn is_probe_request(phase: Phase, event: &HostEvent) -> (r: bool)
    ensures
        r == asks_probe(phase, *event),
{
    match phase {
        Phase::Starting => match event {
            HostEvent::Begin => true,
            _ => false,
        },
        Phase::InitialSyncing => match event {
            HostEvent::RetryDue => true,
            _ => false,
        },
        _ => false,
    }
}

/// Advances the orchestrator by one event. Where a probe is due while the
/// program runs, its server is drawn at random: the result is what the rule
/// gives for some server of the list. Elsewhere the rule reads no draw and
/// nothing is drawn.
pub fn orchestrator_advance(config: &NtpConfig, phase: Phase, event: HostEvent, running: bool) -> (r:
    (Phase, HostAction))
    requires
        config.servers@.len() > 0,
    ensures
        exists|draw: usize|
            draw < config.servers@.len() && r == orchestrator_rule(
                *config,
                phase,
                event,
                running,
                draw,
            ),
        !(running && asks_probe(phase, event)) ==> forall|draw: usize|
            r == orchestrator_rule(*config, phase, event, running, draw),
{
    let draw: usize = if running && is_probe_request(phase, &event) {
        pick_server(config)
    } else {
        0
    };
    let r = orchestrator_step(config, phase, event, running, draw);
    assert(draw < config.servers@.len() && r == orchestrator_rule(
        *config,
        phase,
        event,
        running,
        draw,
    ));
    r
}

/// Phases follow each other in one direction: no event leads back to an
/// earlier phase.
pub proof fn lemma_phase_never_returns(
    config: NtpConfig,
    phase: Phase,
    event: HostEvent,
    running: bool,
    draw: usize,
)
    ensures
        phase_rank(phase) <= phase_rank(
            orchestrator_rule(config, phase, event, running, draw).0,
        ),
{
}

/// The steady state is entered from the first synchronisation, by a probe
/// that succeeded, and the offset of that probe anchors the clock.
pub proof fn lemma_running_entered_by_success(
    config: NtpConfig,
    phase: Phase,
    event: HostEvent,
    running: bool,
    draw: usize,
)
    requires
        phase != Phase::Running,
        orchestrator_rule(config, phase, event, running, draw).0 == Phase::Running,
    ensures
        running,
        phase == Phase::InitialSyncing,
        event is ProbeSucceeded,
        orchestrator_rule(config, phase, event, running, draw).1 == HostAction::Anchor(
            event->ProbeSucceeded_0,
        ),
{
}

/// Cancellation ends the loop from every phase, and the loop stays ended.
pub proof fn lemma_cancellation_shuts_down(
    config: NtpConfig,
    phase: Phase,
    event: HostEvent,
    running: bool,
    draw: usize,
)
    requires
        !running || phase == Phase::Shutdown,
    ensures
        orchestrator_rule(config, phase, event, running, draw) == (
            Phase::Shutdown,
            HostAction::Halt,
        ),
{
}

/// The filter sees a sample only in the steady state, and only one whose
/// offset and delay are within the range that is exact for it and whose
/// delay is not negative.
pub proof fn lemma_filter_sees_whole_samples(
    config: NtpConfig,
    phase: Phase,
    event: HostEvent,
    running: bool,
    draw: usize,
)
    requires
        orchestrator_rule(config, phase, event, running, draw).1 is Filter,
    ensures
        phase == Phase::Running,
        event matches HostEvent::Tick(Some(SyncMessage::Success(offset, delay)))
            && measurement_of(offset as int, delay as int) == Ok::<Measurement, NtpError>(
            orchestrator_rule(config, phase, event, running, draw).1->Filter_0,
        ) && delay >= 0,
        !orchestrator_rule(config, phase, event, running, draw).1->Filter_0.delay.negative,
{
}

} // verus!
