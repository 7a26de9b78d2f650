//! The decisions of the periodic workspace-handoff checkpoint coordinator.
//!
//! The coordinator is a five-state machine: `Idle -> Due -> InFlight -> Idle`
//! on the periodic path, with the stop reachable from `Idle`, `Due` or
//! `InFlight` when finalization is requested. `Idle` waits out the jittered
//! interval, `Due` waits for a safe boundary, and `InFlight` runs exactly one
//! attempt at a time. The timer only ever moves `Idle` to `Due`.
//!
//! This module holds every decision of that machine as a function from state
//! and event to next state and action; the caller performs the action (waits,
//! polls the driver, runs an attempt) and reports the outcome as the next
//! event. Durations and instants are whole milliseconds.

use vstd::prelude::*;

use rand::Rng;

use crate::conversation::ConversationStatus;

verus! {

/// Default cadence between the end of one checkpoint attempt and the timer
/// firing again.
pub const DEFAULT_CHECKPOINT_INTERVAL_MS: u64 = 300_000;

/// Upper bound on the random delay added to each interval.
pub const CHECKPOINT_JITTER_MS: u64 = 30_000;

/// How often `Due` re-checks whether the conversation is at a safe boundary.
pub const SAFE_BOUNDARY_POLL_INTERVAL_MS: u64 = 2_000;

/// How long `Due` waits for a safe boundary before checkpointing anyway.
pub const MAX_BOUNDARY_DEFERRAL_MS: u64 = 600_000;

/// Slack added on top of the per-attempt floor by [`finalize_budget`].
pub const FINALIZE_ACK_SLACK_MS: u64 = 10_000;

/// Maximum time to wait for queued declaration writes before an attempt is
/// abandoned.
pub const DECLARATIONS_WRITER_FLUSH_TIMEOUT_MS: u64 = 10_000;

/// Whether the conversation can tolerate a checkpoint attempt right now.
#[derive(Debug, Clone, Copy, PartialEq, Eq)]
pub enum Boundary {
    /// The run has not established its conversation yet.
    Initializing,
    /// Not mid-turn: safe to touch the filesystem and network.
    Safe,
    /// Mid-turn or actions in flight.
    Busy,
    /// The agent driver no longer exists; the coordinator must stop.
    DriverGone,
}

/// What the agent driver reports when asked whether a checkpoint is safe.
pub struct DriverSnapshot {
    /// The driver has opened the checkpoint gate.
    pub checkpoint_ready: bool,
    /// The driver knows the ID of its run's conversation.
    pub has_conversation_id: bool,
    /// The status of that conversation, if it can still be found.
    pub conversation_status: Option<ConversationStatus>,
    /// The terminal's action model has pending or running actions for it.
    pub has_unfinished_actions: bool,
}

pub open spec fn boundary_spec(snapshot: Option<DriverSnapshot>) -> Boundary {
    match snapshot {
        None => Boundary::DriverGone,
        Some(s) => if !s.checkpoint_ready || !s.has_conversation_id {
            Boundary::Initializing
        } else {
            match s.conversation_status {
                None => Boundary::Safe,
                Some(status) => if status is WaitingForEvents || status is Blocked
                    || status.is_done_spec() {
                    Boundary::Safe
                } else if s.has_unfinished_actions {
                    Boundary::Busy
                } else {
                    Boundary::Safe
                },
            }
        },
    }
}

/// Classifies what the driver reported (`None` when the driver is gone):
/// a run still setting up is `Initializing`; a conversation that cannot be
/// found, waits for events, is blocked on the user or is done is `Safe`;
/// otherwise the conversation is `Busy` exactly while it has unfinished
/// actions.
pub fn classify_boundary(snapshot: Option<DriverSnapshot>) -> (b: Boundary)
    ensures
        b == boundary_spec(snapshot),
{
    match snapshot {
        None => Boundary::DriverGone,
        Some(s) => {
            if !s.checkpoint_ready || !s.has_conversation_id {
                return Boundary::Initializing;
            }
            match &s.conversation_status {
                None => Boundary::Safe,
                Some(status) => {
                    if status.is_waiting_for_events() || status.is_blocked() || status.is_done() {
                        Boundary::Safe
                    } else if s.has_unfinished_actions {
                        Boundary::Busy
                    } else {
                        Boundary::Safe
                    }
                },
            }
        },
    }
}

/// The shutdown budget a caller must grant finalization for a final attempt
/// to be possible: the writer flush, the script and upload timeouts, and the
/// acknowledgement slack.
pub open spec fn finalize_budget_spec(script_timeout_ms: u64, upload_timeout_ms: u64) -> int {
    DECLARATIONS_WRITER_FLUSH_TIMEOUT_MS + script_timeout_ms + upload_timeout_ms
        + FINALIZE_ACK_SLACK_MS
}

pub fn finalize_budget(script_timeout_ms: u64, upload_timeout_ms: u64) -> (budget: u64)
    requires
        finalize_budget_spec(script_timeout_ms, upload_timeout_ms) <= u64::MAX,
    ensures
        budget == finalize_budget_spec(script_timeout_ms, upload_timeout_ms),
{
    DECLARATIONS_WRITER_FLUSH_TIMEOUT_MS + script_timeout_ms + upload_timeout_ms
        + FINALIZE_ACK_SLACK_MS
}

/// How long a finalizing caller waits for the acknowledgement: its budget
/// plus the slack, saturating at the largest duration.
pub fn finalize_ack_timeout(budget_ms: u64) -> (timeout: u64)
    ensures
        timeout == if budget_ms + FINALIZE_ACK_SLACK_MS <= u64::MAX {
            (budget_ms + FINALIZE_ACK_SLACK_MS) as u64
        } else {
            u64::MAX
        },
{
    budget_ms.saturating_add(FINALIZE_ACK_SLACK_MS)
}

/// A uniformly random number of milliseconds in `0..=max` (rand's
/// `gen_range` on the thread-local generator).
#[verifier::external_body]
fn random_millis_up_to(max: u64) -> (r: u64)
    ensures
        r <= max,
{
    rand::thread_rng().gen_range(0..=max)
}

/// `interval` plus up to `jitter` of additive random delay, so that agents
/// scheduled together do not checkpoint in lockstep. Without jitter the
/// interval is exact.
pub fn jittered_interval(interval_ms: u64, jitter_ms: u64) -> (r: u64)
    requires
        interval_ms + jitter_ms <= u64::MAX,
    ensures
        interval_ms <= r <= interval_ms + jitter_ms,
        jitter_ms == 0 ==> r == interval_ms,
{
    let extra = if jitter_ms == 0 {
        0
    } else {
        random_millis_up_to(jitter_ms)
    };
    interval_with_delay(interval_ms, jitter_ms, extra)
}

/// The interval after a random delay of `extra_ms` was drawn from
/// `0..=jitter_ms`: the interval plus that delay.
pub fn interval_with_delay(interval_ms: u64, jitter_ms: u64, extra_ms: u64) -> (r: u64)
    requires
        extra_ms <= jitter_ms,
        interval_ms + jitter_ms <= u64::MAX,
    ensures
        r == interval_ms + extra_ms,
{
    interval_ms + extra_ms
}

/// The minimum remaining budget a final attempt needs: the script and upload
/// timeouts, plus the writer flush when there is a declarations writer.
pub open spec fn final_attempt_floor_spec(
    script_timeout_ms: u64,
    upload_timeout_ms: u64,
    has_declarations_writer: bool,
) -> int {
    script_timeout_ms + upload_timeout_ms + if has_declarations_writer {
        DECLARATIONS_WRITER_FLUSH_TIMEOUT_MS as int
    } else {
        0
    }
}

/// What finalization does when no attempt is in flight.
#[derive(Debug, Clone, Copy, PartialEq, Eq)]
pub enum FinalAttemptDecision {
    /// The run never reached a checkpoint-safe boundary in time, or its
    /// driver is gone: acknowledge without an attempt.
    SkipUnsafeBoundary,
    /// The remaining budget does not exceed the floor: acknowledge without an
    /// attempt.
    SkipBelowFloor,
    /// Run one final attempt, cancelled after `timeout_ms`.
    Attempt { timeout_ms: u64 },
}

pub open spec fn final_attempt_spec(
    boundary: Option<Boundary>,
    remaining_ms: u64,
    script_timeout_ms: u64,
    upload_timeout_ms: u64,
    has_declarations_writer: bool,
) -> FinalAttemptDecision {
    match boundary {
        None => FinalAttemptDecision::SkipUnsafeBoundary,
        Some(Boundary::DriverGone) => FinalAttemptDecision::SkipUnsafeBoundary,
        Some(_) => if remaining_ms > final_attempt_floor_spec(
            script_timeout_ms,
            upload_timeout_ms,
            has_declarations_writer,
        ) {
            FinalAttemptDecision::Attempt { timeout_ms: remaining_ms }
        } else {
            FinalAttemptDecision::SkipBelowFloor
        },
    }
}

/// Decides whether finalization starts one last attempt. `boundary` is the
/// driver's answer, or `None` when no answer came before the deadline;
/// `remaining_ms` is what is left of the budget once it came.
pub fn final_attempt_decision(
    boundary: Option<Boundary>,
    remaining_ms: u64,
    script_timeout_ms: u64,
    upload_timeout_ms: u64,
    has_declarations_writer: bool,
) -> (d: FinalAttemptDecision)
    ensures
        d == final_attempt_spec(
            boundary,
            remaining_ms,
            script_timeout_ms,
            upload_timeout_ms,
            has_declarations_writer,
        ),
{
    match boundary {
        None => FinalAttemptDecision::SkipUnsafeBoundary,
        Some(Boundary::DriverGone) => FinalAttemptDecision::SkipUnsafeBoundary,
        Some(_) => {
            let floor: u128 = script_timeout_ms as u128 + upload_timeout_ms as u128 + if has_declarations_writer {
                DECLARATIONS_WRITER_FLUSH_TIMEOUT_MS as u128
            } else {
                0
            };
            if (remaining_ms as u128) > floor {
                FinalAttemptDecision::Attempt { timeout_ms: remaining_ms }
            } else {
                FinalAttemptDecision::SkipBelowFloor
            }
        },
    }
}

/// The outcome of one checkpoint attempt.
#[derive(Debug, Clone)]
pub enum CheckpointResult {
    /// The attempt committed a checkpoint under `generation`.
    Committed { generation: String },
    /// No usable declarations: nothing was staged.
    Skipped,
    /// The attempt failed; `generation` names what it may have staged.
    Failed { generation: Option<String>, reason: String },
}

/// Where the coordinator stands.
#[derive(Debug, Clone, Copy, PartialEq, Eq)]
pub enum CoordinatorState {
    /// Waiting out the interval.
    Idle,
    /// Waiting for a safe boundary since `due_since_ms`.
    Due { due_since_ms: u64 },
    /// Running exactly one attempt.
    InFlight,
    /// Finalized or abandoned; nothing more happens.
    Stopped,
}

/// What happened that the coordinator must react to.
#[derive(Debug, Clone)]
pub enum CoordinatorEvent {
    /// The (jittered) interval elapsed at `now_ms`.
    TimerFired { now_ms: u64 },
    /// The driver answered the safe-boundary check at `now_ms`.
    BoundaryChecked { boundary: Boundary, now_ms: u64 },
    /// The poll interval between two boundary checks elapsed.
    PollTimerFired,
    /// The in-flight attempt resolved.
    AttemptFinished { result: CheckpointResult },
    /// The driver asked for finalization.
    FinalizeRequested,
    /// Every handle was dropped without asking for finalization; the
    /// periodic attempts go on, and no finalization can come any more.
    FinalizeChannelClosed,
}

/// What the caller does next.
#[derive(Debug, Clone, PartialEq, Eq)]
pub enum CoordinatorAction {
    /// Wait for the jittered interval (see [`jittered_interval`]).
    WaitForInterval,
    /// Ask the driver for the boundary now.
    CheckBoundary,
    /// Wait [`SAFE_BOUNDARY_POLL_INTERVAL_MS`], then check again.
    WaitForPoll,
    /// Run one attempt, retrying under `generation` when it is given.
    StartAttempt { generation: Option<String> },
    /// Finalize with one new best-effort attempt (see
    /// [`final_attempt_decision`]), retrying under `generation`, then stop.
    FinalizeWithNewAttempt { generation: Option<String> },
    /// Finalize by awaiting the in-flight attempt until the deadline, then stop.
    FinalizeInFlightAttempt,
    /// Keep waiting for the in-flight attempt to resolve.
    AwaitAttempt,
    /// Stop without further work.
    Stop,
    /// The event does not apply in this state.
    Ignore,
}

/// The coordinator's state and the generation to retry under.
#[derive(Debug, Clone)]
pub struct CheckpointCoordinator {
    pub state: CoordinatorState,
    /// The generation of the last attempt that failed, if any: retrying under
    /// it overwrites that attempt's staged objects instead of staging a second
    /// set.
    pub pending_generation: Option<String>,
}

/// The generation to retry under after an attempt resolved: cleared once an
/// attempt commits or skips, kept from the failure otherwise.
pub open spec fn generation_after(result: CheckpointResult) -> Option<String> {
    match result {
        CheckpointResult::Committed { .. } => None,
        CheckpointResult::Skipped => None,
        CheckpointResult::Failed { generation, .. } => generation,
    }
}

/// Milliseconds from `since` to `now`, zero if `now` is earlier.
pub open spec fn elapsed_spec(since: u64, now: u64) -> int {
    if now >= since {
        now - since
    } else {
        0
    }
}

pub open spec fn step_spec(c: CheckpointCoordinator, event: CoordinatorEvent) -> (
    CheckpointCoordinator,
    CoordinatorAction,
) {
    let pending = c.pending_generation;
    let to = |state: CoordinatorState| CheckpointCoordinator { state, pending_generation: pending };
    match c.state {
        CoordinatorState::Stopped => (c, CoordinatorAction::Stop),
        CoordinatorState::Idle => match event {
            CoordinatorEvent::TimerFired { now_ms } => (
                to(CoordinatorState::Due { due_since_ms: now_ms }),
                CoordinatorAction::CheckBoundary,
            ),
            CoordinatorEvent::FinalizeRequested => (
                to(CoordinatorState::Stopped),
                CoordinatorAction::FinalizeWithNewAttempt { generation: pending },
            ),
            CoordinatorEvent::FinalizeChannelClosed => (c, CoordinatorAction::WaitForInterval),
            _ => (c, CoordinatorAction::Ignore),
        },
        CoordinatorState::Due { due_since_ms } => match event {
            CoordinatorEvent::BoundaryChecked { boundary, now_ms } => match boundary {
                Boundary::Safe => (
                    to(CoordinatorState::InFlight),
                    CoordinatorAction::StartAttempt { generation: pending },
                ),
                Boundary::DriverGone => (to(CoordinatorState::Stopped), CoordinatorAction::Stop),
                Boundary::Initializing => (
                    to(CoordinatorState::Due { due_since_ms: now_ms }),
                    CoordinatorAction::WaitForPoll,
                ),
                Boundary::Busy => if elapsed_spec(due_since_ms, now_ms)
                    >= MAX_BOUNDARY_DEFERRAL_MS {
                    (
                        to(CoordinatorState::InFlight),
                        CoordinatorAction::StartAttempt { generation: pending },
                    )
                } else {
                    (c, CoordinatorAction::WaitForPoll)
                },
            },
            CoordinatorEvent::PollTimerFired => (c, CoordinatorAction::CheckBoundary),
            CoordinatorEvent::FinalizeRequested => (
                to(CoordinatorState::Stopped),
                CoordinatorAction::FinalizeWithNewAttempt { generation: pending },
            ),
            CoordinatorEvent::FinalizeChannelClosed => (c, CoordinatorAction::WaitForPoll),
            _ => (c, CoordinatorAction::Ignore),
        },
        CoordinatorState::InFlight => match event {
            CoordinatorEvent::AttemptFinished { result } => (
                CheckpointCoordinator {
                    state: CoordinatorState::Idle,
                    pending_generation: generation_after(result),
                },
                CoordinatorAction::WaitForInterval,
            ),
            CoordinatorEvent::FinalizeRequested => (
                to(CoordinatorState::Stopped),
                CoordinatorAction::FinalizeInFlightAttempt,
            ),
            CoordinatorEvent::FinalizeChannelClosed => (c, CoordinatorAction::AwaitAttempt),
            _ => (c, CoordinatorAction::Ignore),
        },
    }
}

fn clone_opt_string(o: &Option<String>) -> (r: Option<String>)
    ensures
        r == *o,
{
    match o {
        Some(s) => Some(s.clone()),
        None => None,
    }
}

impl CheckpointCoordinator {
    /// A coordinator that starts out idle, with nothing to retry; the caller
    /// then waits for the first interval.
    pub fn new() -> (c: Self)
        ensures
            c.state == CoordinatorState::Idle,
            c.pending_generation is None,
    {
        CheckpointCoordinator { state: CoordinatorState::Idle, pending_generation: None }
    }

    /// Reacts to `event`: moves to the next state and returns the action the
    /// caller performs (see [`step_spec`] for the full table).
    pub fn step(&mut self, event: CoordinatorEvent) -> (action: CoordinatorAction)
        ensures
            (*final(self), action) == step_spec(*old(self), event),
    {
        let pending = clone_opt_string(&self.pending_generation);
        match self.state {
            CoordinatorState::Stopped => CoordinatorAction::Stop,
            CoordinatorState::Idle => match event {
                CoordinatorEvent::TimerFired { now_ms } => {
                    self.state = CoordinatorState::Due { due_since_ms: now_ms };
                    CoordinatorAction::CheckBoundary
                },
                CoordinatorEvent::FinalizeRequested => {
                    self.state = CoordinatorState::Stopped;
                    CoordinatorAction::FinalizeWithNewAttempt { generation: pending }
                },
                CoordinatorEvent::FinalizeChannelClosed => CoordinatorAction::WaitForInterval,
                _ => CoordinatorAction::Ignore,
            },
            CoordinatorState::Due { due_since_ms } => match event {
                CoordinatorEvent::BoundaryChecked { boundary, now_ms } => match boundary {
                    Boundary::Safe => {
                        self.state = CoordinatorState::InFlight;
                        CoordinatorAction::StartAttempt { generation: pending }
                    },
                    Boundary::DriverGone => {
                        self.state = CoordinatorState::Stopped;
                        CoordinatorAction::Stop
                    },
                    Boundary::Initializing => {
                        self.state = CoordinatorState::Due { due_since_ms: now_ms };
                        CoordinatorAction::WaitForPoll
                    },
                    Boundary::Busy => {
                        let elapsed = if now_ms >= due_since_ms {
                            now_ms - due_since_ms
                        } else {
                            0
                        };
                        if elapsed >= MAX_BOUNDARY_DEFERRAL_MS {
                            self.state = CoordinatorState::InFlight;
                            CoordinatorAction::StartAttempt { generation: pending }
                        } else {
                            CoordinatorAction::WaitForPoll
                        }
                    },
                },
                CoordinatorEvent::PollTimerFired => CoordinatorAction::CheckBoundary,
                CoordinatorEvent::FinalizeRequested => {
                    self.state = CoordinatorState::Stopped;
                    CoordinatorAction::FinalizeWithNewAttempt { generation: pending }
                },
                CoordinatorEvent::FinalizeChannelClosed => CoordinatorAction::WaitForPoll,
                _ => CoordinatorAction::Ignore,
            },
            CoordinatorState::InFlight => match event {
                CoordinatorEvent::AttemptFinished { result } => {
                    self.state = CoordinatorState::Idle;
                    self.pending_generation = match result {
                        CheckpointResult::Committed { .. } => None,
                        CheckpointResult::Skipped => None,
                        CheckpointResult::Failed { generation, .. } => generation,
                    };
                    CoordinatorAction::WaitForInterval
                },
                CoordinatorEvent::FinalizeRequested => {
                    self.state = CoordinatorState::Stopped;
                    CoordinatorAction::FinalizeInFlightAttempt
                },
                CoordinatorEvent::FinalizeChannelClosed => CoordinatorAction::AwaitAttempt,
                _ => CoordinatorAction::Ignore,
            },
        }
    }
}


/// Attempts never overlap: an attempt is started only from `Due`, and the
/// coordinator is then `InFlight`; while `InFlight`, no event starts another
/// attempt, periodic or final.
pub proof fn lemma_attempts_never_overlap(c: CheckpointCoordinator, event: CoordinatorEvent)
    ensures
        step_spec(c, event).1 is StartAttempt ==> c.state is Due && step_spec(c, event).0.state
            is InFlight,
        c.state is InFlight ==> !(step_spec(c, event).1 is StartAttempt) && !(step_spec(
            c,
            event,
        ).1 is FinalizeWithNewAttempt),
{
}

/// The timer only ever moves `Idle` to `Due`; in every other state it
/// changes nothing.
pub proof fn lemma_timer_only_moves_idle_to_due(c: CheckpointCoordinator, now_ms: u64)
    ensures
        c.state is Idle ==> step_spec(c, (CoordinatorEvent::TimerFired { now_ms })).0.state
            == (CoordinatorState::Due { due_since_ms: now_ms }),
        !(c.state is Idle) ==> step_spec(c, (CoordinatorEvent::TimerFired { now_ms })).0 == c,
{
}

/// Finalization stops the coordinator from `Idle`, `Due` and `InFlight`, and
/// does exactly one of two things, never both: a new final attempt when none
/// is in flight, or awaiting the one in flight.
pub proof fn lemma_finalize_stops_with_one_final_step(c: CheckpointCoordinator)
    requires
        !(c.state is Stopped),
    ensures
        step_spec(c, CoordinatorEvent::FinalizeRequested).0.state is Stopped,
        step_spec(c, CoordinatorEvent::FinalizeRequested).1 is FinalizeWithNewAttempt <==> !(
        c.state is InFlight),
        step_spec(c, CoordinatorEvent::FinalizeRequested).1 is FinalizeInFlightAttempt
            <==> c.state is InFlight,
{
}

/// Once stopped, the coordinator stays stopped and does no more work.
pub proof fn lemma_stopped_is_final(c: CheckpointCoordinator, event: CoordinatorEvent)
    requires
        c.state is Stopped,
    ensures
        step_spec(c, event).0 == c,
        step_spec(c, event).1 == CoordinatorAction::Stop,
{
}

/// Dropping every handle without finalizing leaves the coordinator running
/// its periodic attempts: nothing changes, and it goes on with what it was
/// doing (waiting for the interval, polling for a boundary, or awaiting the
/// attempt in flight). Only a stopped coordinator stays stopped.
pub proof fn lemma_closed_channel_keeps_running(c: CheckpointCoordinator)
    ensures
        step_spec(c, CoordinatorEvent::FinalizeChannelClosed).0 == c,
        c.state is Idle ==> step_spec(c, CoordinatorEvent::FinalizeChannelClosed).1
            == CoordinatorAction::WaitForInterval,
        c.state is Due ==> step_spec(c, CoordinatorEvent::FinalizeChannelClosed).1
            == CoordinatorAction::WaitForPoll,
        c.state is InFlight ==> step_spec(c, CoordinatorEvent::FinalizeChannelClosed).1
            == CoordinatorAction::AwaitAttempt,
        c.state is Stopped <==> step_spec(c, CoordinatorEvent::FinalizeChannelClosed).1
            == CoordinatorAction::Stop,
{
}

/// After a failed attempt, the next periodic attempt retries under the failed
/// attempt's generation, so that it overwrites what that attempt staged.
pub proof fn lemma_failed_attempt_is_retried_under_its_generation(
    c: CheckpointCoordinator,
    generation: Option<String>,
    reason: String,
    timer_ms: u64,
    check_ms: u64,
)
    requires
        c.state is InFlight,
    ensures
        ({
            let c1 = step_spec(
                c,
                CoordinatorEvent::AttemptFinished {
                    result: CheckpointResult::Failed { generation, reason },
                },
            ).0;
            let c2 = step_spec(c1, CoordinatorEvent::TimerFired { now_ms: timer_ms }).0;
            &&& c1.state is Idle
            &&& c1.pending_generation == generation
            &&& step_spec(
                c2,
                CoordinatorEvent::BoundaryChecked { boundary: Boundary::Safe, now_ms: check_ms },
            ).1 == CoordinatorAction::StartAttempt { generation }
        }),
{
}

/// An attempt that commits or skips leaves nothing to retry under.
pub proof fn lemma_commit_or_skip_clears_generation(c: CheckpointCoordinator, generation: String)
    requires
        c.state is InFlight,
    ensures
        step_spec(
            c,
            (CoordinatorEvent::AttemptFinished {
                result: (CheckpointResult::Committed { generation }),
            }),
        ).0.pending_generation is None,
        step_spec(
            c,
            (CoordinatorEvent::AttemptFinished { result: CheckpointResult::Skipped }),
        ).0.pending_generation is None,
{
}

/// A busy conversation defers an attempt by at most
/// [`MAX_BOUNDARY_DEFERRAL_MS`]: once that long has passed since the
/// coordinator became due, a busy answer starts the attempt anyway.
pub proof fn lemma_busy_deferral_is_bounded(c: CheckpointCoordinator, now_ms: u64)
    requires
        c.state is Due,
        now_ms >= c.state->due_since_ms + MAX_BOUNDARY_DEFERRAL_MS,
    ensures
        step_spec(c, (CoordinatorEvent::BoundaryChecked { boundary: Boundary::Busy, now_ms })).1
            is StartAttempt,
{
}

/// A finalization granted exactly [`finalize_budget`] is enough for the final
/// attempt: unless the driver is gone or never answered, the attempt starts.
pub proof fn lemma_finalize_budget_admits_final_attempt(
    boundary: Boundary,
    script_timeout_ms: u64,
    upload_timeout_ms: u64,
    has_declarations_writer: bool,
)
    requires
        boundary != Boundary::DriverGone,
        finalize_budget_spec(script_timeout_ms, upload_timeout_ms) <= u64::MAX,
    ensures
        final_attempt_spec(
            Some(boundary),
            finalize_budget_spec(script_timeout_ms, upload_timeout_ms) as u64,
            script_timeout_ms,
            upload_timeout_ms,
            has_declarations_writer,
        ) is Attempt,
{
}

/// Finalizing a coordinator with no attempt in flight makes one new attempt
/// under the generation it would retry next, so that a failed attempt's
/// staged objects are overwritten rather than staged a second time.
pub proof fn law_final_attempt_uses_pending_generation(c: CheckpointCoordinator)
    requires
        c.state is Idle || c.state is Due,
    ensures
        step_spec(c, CoordinatorEvent::FinalizeRequested).1 == (CoordinatorAction::FinalizeWithNewAttempt {
            generation: c.pending_generation,
        }),
{
}

/// Finalizing right after an attempt failed retries under that attempt's
/// generation.
pub proof fn law_finalize_after_failure_reuses_its_generation(
    c: CheckpointCoordinator,
    generation: Option<String>,
    reason: String,
)
    requires
        c.state is InFlight,
    ensures
        ({
            let after = step_spec(
                c,
                CoordinatorEvent::AttemptFinished { result: CheckpointResult::Failed { generation, reason } },
            ).0;
            step_spec(after, CoordinatorEvent::FinalizeRequested).1 == (
            CoordinatorAction::FinalizeWithNewAttempt { generation })
        }),
{
}

} // verus!
