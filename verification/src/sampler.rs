//! The background sampler: the decisions of the task that probes a randomly
//! chosen server after a randomly long pause and publishes what it measured.
//!
//! The task's host sleeps, queries and publishes; after each of these it
//! reports what happened and is told what to do next.

use crate::config::NtpConfig;
use rand::Rng;
use vstd::prelude::*;

verus! {

/// What the sampler publishes to the orchestrator.
#[derive(Clone, Debug, PartialEq, Eq)]
pub enum SyncMessage {
    /// A query to the named server is about to start.
    Syncing(String),
    /// A query succeeded with this offset and this delay, in nanoseconds.
    Success(i64, i64),
}

/// `Rng::random_range` of rand on the thread's generator `rand::rng()`, with
/// an inclusive range: some number from `low` to `high`. Which one is left
/// open, and two calls may differ.
#[verifier::external_body]
fn random_in(low: u64, high: u64) -> (r: u64)
    requires
        low <= high,
    ensures
        low <= r <= high,
{
    rand::rng().random_range(low..=high)
}

/// The random choices of one round: how long to pause and whom to ask.
#[derive(Clone, Copy, Debug, PartialEq, Eq, Structural)]
pub struct RoundPlan {
    pub pause_secs: u64,
    pub server_index: usize,
}

impl RoundPlan {
    /// Whether the plan is one that `config` allows: the pause lies between
    /// the shortest and the longest interval, and the server is in the list.
    pub open spec fn within(self, config: NtpConfig) -> bool {
        &&& config.sync_interval_min_secs <= self.pause_secs <= config.sync_interval_max_secs
        &&& self.server_index < config.servers@.len()
    }
}

/// Chooses one of the configured servers at random.
pub fn pick_server(config: &NtpConfig) -> (index: usize)
    requires
        config.servers@.len() > 0,
    ensures
        index < config.servers@.len(),
{
    let last: u64 = (config.servers.len() - 1) as u64;
    random_in(0, last) as usize
}

/// Draws the pause and the server of the next round.
pub fn plan_round(config: &NtpConfig) -> (plan: RoundPlan)
    requires
        config.servers@.len() > 0,
        config.sync_interval_min_secs <= config.sync_interval_max_secs,
    ensures
        plan.within(*config),
{
    let pause_secs = random_in(config.sync_interval_min_secs, config.sync_interval_max_secs);
    let server_index = pick_server(config);
    RoundPlan { pause_secs, server_index }
}

/// Where the sampler stands in its round.
#[derive(Clone, Copy, Debug, PartialEq, Eq, Structural)]
pub enum SamplerState {
    /// Not started yet.
    Idle,
    /// Pausing before the query to the server with this index.
    Pausing(usize),
    /// Publishing that the query to this server starts.
    Announcing(usize),
    /// Waiting for the answer of this server.
    Querying(usize),
    /// Publishing the result of a successful query.
    Reporting,
    /// Finished: the receiver is gone or the program is shutting down.
    Stopped,
}

/// What the host reports to the sampler.
#[derive(Clone, Copy, Debug, PartialEq, Eq, Structural)]
pub enum SamplerEvent {
    /// The task has been started.
    Started,
    /// The pause is over.
    Woke,
    /// The last message was handed to the channel.
    Delivered,
    /// The last message could not be sent: the receiver is gone.
    ReceiverGone,
    /// The query returned an error.
    QueryFailed,
    /// The query returned this offset and this delay, in nanoseconds.
    QuerySucceeded(i64, i64),
}

/// What the sampler asks its host to do next.
#[derive(Clone, Debug, PartialEq, Eq)]
pub enum SamplerAction {
    /// Sleep for this many seconds, then report `Woke`.
    Sleep(u64),
    /// Send this message, then report `Delivered` or `ReceiverGone`.
    Publish(SyncMessage),
    /// Query this server with the sync timeout, then report the outcome.
    Query(String),
    /// End the task.
    Stop,
}

/// The start of a new round: the pause of `plan` while the program runs,
/// the end of the task once it is shutting down.
pub open spec fn next_round(running: bool, plan: RoundPlan) -> (SamplerState, SamplerAction) {
    if running {
        (SamplerState::Pausing(plan.server_index), SamplerAction::Sleep(plan.pause_secs))
    } else {
        (SamplerState::Stopped, SamplerAction::Stop)
    }
}

/// The sampler's rule: the state and the action that follow `event` in
/// `state`. `running` is the shutdown flag as read before a new round, and
/// `plan` holds the random choices for that round.
///
/// A round pauses, announces its server, queries it and, if the query
/// succeeded, reports the result. A failed query is dropped without a
/// message. The task ends when a message cannot be sent, or when a round
/// would start while the program is shutting down. An event that does not
/// belong to the state ends the task too.
pub open spec fn sampler_rule(
    config: NtpConfig,
    state: SamplerState,
    event: SamplerEvent,
    running: bool,
    plan: RoundPlan,
) -> (SamplerState, SamplerAction) {
    match (state, event) {
        (SamplerState::Idle, SamplerEvent::Started) => next_round(running, plan),
        (SamplerState::Pausing(i), SamplerEvent::Woke) => if i < config.servers@.len() {
            (
                SamplerState::Announcing(i),
                SamplerAction::Publish(SyncMessage::Syncing(config.servers@[i as int])),
            )
        } else {
            (SamplerState::Stopped, SamplerAction::Stop)
        },
        (SamplerState::Announcing(i), SamplerEvent::Delivered) => if i < config.servers@.len() {
            (SamplerState::Querying(i), SamplerAction::Query(config.servers@[i as int]))
        } else {
            (SamplerState::Stopped, SamplerAction::Stop)
        },
        (SamplerState::Querying(_), SamplerEvent::QuerySucceeded(offset, delay)) => (
            SamplerState::Reporting,
            SamplerAction::Publish(SyncMessage::Success(offset, delay)),
        ),
        (SamplerState::Querying(_), SamplerEvent::QueryFailed) => next_round(running, plan),
        (SamplerState::Reporting, SamplerEvent::Delivered) => next_round(running, plan),
        _ => (SamplerState::Stopped, SamplerAction::Stop),
    }
}

/// Applies the sampler's rule with the random choices given by the caller.
pub fn sampler_step(
    config: &NtpConfig,
    state: SamplerState,
    event: SamplerEvent,
    running: bool,
    plan: RoundPlan,
) -> (r: (SamplerState, SamplerAction))
    ensures
        r == sampler_rule(*config, state, event, running, plan),
{
    match (state, event) {
        (SamplerState::Idle, SamplerEvent::Started) => begin_round(running, plan),
        (SamplerState::Pausing(i), SamplerEvent::Woke) => {
            if i < config.servers.len() {
                (
                    SamplerState::Announcing(i),
                    SamplerAction::Publish(SyncMessage::Syncing(config.servers[i].clone())),
                )
            } else {
                (SamplerState::Stopped, SamplerAction::Stop)
            }
        },
        (SamplerState::Announcing(i), SamplerEvent::Delivered) => {
            if i < config.servers.len() {
                (SamplerState::Querying(i), SamplerAction::Query(config.servers[i].clone()))
            } else {
                (SamplerState::Stopped, SamplerAction::Stop)
            }
        },
        (SamplerState::Querying(_), SamplerEvent::QuerySucceeded(offset, delay)) => (
            SamplerState::Reporting,
            SamplerAction::Publish(SyncMessage::Success(offset, delay)),
        ),
        (SamplerState::Querying(_), SamplerEvent::QueryFailed) => begin_round(running, plan),
        (SamplerState::Reporting, SamplerEvent::Delivered) => begin_round(running, plan),
        _ => (SamplerState::Stopped, SamplerAction::Stop),
    }
}

fn begin_round(running: bool, plan: RoundPlan) -> (r: (SamplerState, SamplerAction))
    ensures
        r == next_round(running, plan),
{
    if running {
        (SamplerState::Pausing(plan.server_index), SamplerAction::Sleep(plan.pause_secs))
    } else {
        (SamplerState::Stopped, SamplerAction::Stop)
    }
}

/// Whether `event` in `state` starts a new round, so that the rule reads
/// the random choices.
pub open spec fn starts_round(state: SamplerState, event: SamplerEvent) -> bool {
    match (state, event) {
        (SamplerState::Idle, SamplerEvent::Started) => true,
        (SamplerState::Querying(_), SamplerEvent::QueryFailed) => true,
        (SamplerState::Reporting, SamplerEvent::Delivered) => true,
        _ => false,
    }
}

fn is_round_start(state: SamplerState, event: SamplerEvent) -> (r: bool)
    ensures
        r == starts_round(state, event),
{
    match (state, event) {
        (SamplerState::Idle, SamplerEvent::Started) => true,
        (SamplerState::Querying(_), SamplerEvent::QueryFailed) => true,
        (SamplerState::Reporting, SamplerEvent::Delivered) => true,
        _ => false,
    }
}

/// Advances the sampler by one event. Where a new round starts while the
/// program runs, its pause and its server are drawn at random: the result is
/// what the rule gives for some plan that the settings allow. Elsewhere the
/// rule reads no plan and nothing is drawn.
pub fn sampler_advance(
    config: &NtpConfig,
    state: SamplerState,
    event: SamplerEvent,
    running: bool,
) -> (r: (SamplerState, SamplerAction))
    requires
        config.servers@.len() > 0,
        config.sync_interval_min_secs <= config.sync_interval_max_secs,
    ensures
        exists|plan: RoundPlan|
            plan.within(*config) && r == sampler_rule(*config, state, event, running, plan),
        !(running && starts_round(state, event)) ==> forall|plan: RoundPlan|
            r == sampler_rule(*config, state, event, running, plan),
{
    let plan = if running && is_round_start(state, event) {
        plan_round(config)
    } else {
        RoundPlan { pause_secs: config.sync_interval_min_secs, server_index: 0 }
    };
    let r = sampler_step(config, state, event, running, plan);
    assert(plan.within(*config) && r == sampler_rule(*config, state, event, running, plan));
    r
}

/// A result is published only for a query that was announced: the sampler
/// publishes `Success` only while it waits for an answer, and it waits for
/// an answer only after the announcement of that server was delivered.
pub proof fn lemma_success_follows_announcement(
    config: NtpConfig,
    state: SamplerState,
    event: SamplerEvent,
    running: bool,
    plan: RoundPlan,
)
    ensures
        sampler_rule(config, state, event, running, plan).1 matches SamplerAction::Publish(
            SyncMessage::Success(_, _),
        ) ==> state is Querying,
        sampler_rule(config, state, event, running, plan).0 matches SamplerState::Querying(i)
            ==> state == SamplerState::Announcing(i) && event == SamplerEvent::Delivered,
        sampler_rule(config, state, event, running, plan).0 matches SamplerState::Announcing(i)
            ==> sampler_rule(config, state, event, running, plan).1 == SamplerAction::Publish(
            SyncMessage::Syncing(config.servers@[i as int]),
        ),
{
}

/// The sampler ends when the receiver is gone, stays ended, and starts no
/// round once the program is shutting down.
pub proof fn lemma_sampler_stops(
    config: NtpConfig,
    state: SamplerState,
    event: SamplerEvent,
    running: bool,
    plan: RoundPlan,
)
    ensures
        event == SamplerEvent::ReceiverGone || state == SamplerState::Stopped ==> sampler_rule(
            config,
            state,
            event,
            running,
            plan,
        ) == (SamplerState::Stopped, SamplerAction::Stop),
        !running ==> !(sampler_rule(config, state, event, running, plan).0 is Pausing),
        sampler_rule(config, state, event, running, plan).0 is Stopped <==> sampler_rule(
            config,
            state,
            event,
            running,
            plan,
        ).1 is Stop,
{
}

/// A round that starts follows a plan that the settings allow: it pauses
/// for the plan's time before it asks the plan's server.
pub proof fn lemma_round_follows_plan(
    config: NtpConfig,
    state: SamplerState,
    event: SamplerEvent,
    plan: RoundPlan,
)
    requires
        starts_round(state, event),
    ensures
        sampler_rule(config, state, event, true, plan) == (
            SamplerState::Pausing(plan.server_index),
            SamplerAction::Sleep(plan.pause_secs),
        ),
{
}

} // verus!
