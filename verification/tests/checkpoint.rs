use warp_app::checkpoint::{
    classify_boundary, final_attempt_decision, finalize_ack_timeout, finalize_budget,
    interval_with_delay, jittered_interval, Boundary, CheckpointCoordinator, CheckpointResult, CoordinatorAction,
    CoordinatorEvent, CoordinatorState, DriverSnapshot, FinalAttemptDecision,
    CHECKPOINT_JITTER_MS, DEFAULT_CHECKPOINT_INTERVAL_MS, MAX_BOUNDARY_DEFERRAL_MS,
};
use warp_app::conversation::ConversationStatus;

fn snapshot(status: Option<ConversationStatus>, unfinished: bool) -> Option<DriverSnapshot> {
    Some(DriverSnapshot {
        checkpoint_ready: true,
        has_conversation_id: true,
        conversation_status: status,
        has_unfinished_actions: unfinished,
    })
}

#[test]
fn boundary_classification() {
    assert_eq!(classify_boundary(None), Boundary::DriverGone);
    assert_eq!(
        classify_boundary(Some(DriverSnapshot {
            checkpoint_ready: false,
            has_conversation_id: true,
            conversation_status: None,
            has_unfinished_actions: false,
        })),
        Boundary::Initializing
    );
    assert_eq!(
        classify_boundary(Some(DriverSnapshot {
            checkpoint_ready: true,
            has_conversation_id: false,
            conversation_status: None,
            has_unfinished_actions: true,
        })),
        Boundary::Initializing
    );
    assert_eq!(classify_boundary(snapshot(None, true)), Boundary::Safe);
    assert_eq!(classify_boundary(snapshot(Some(ConversationStatus::InProgress), true)), Boundary::Busy);
    assert_eq!(classify_boundary(snapshot(Some(ConversationStatus::InProgress), false)), Boundary::Safe);
    assert_eq!(classify_boundary(snapshot(Some(ConversationStatus::TransientError), true)), Boundary::Busy);
    for status in [
        ConversationStatus::WaitingForEvents,
        ConversationStatus::Blocked { blocked_action: "rm".to_string() },
        ConversationStatus::Success,
        ConversationStatus::Error,
        ConversationStatus::Cancelled,
    ] {
        assert_eq!(classify_boundary(snapshot(Some(status), true)), Boundary::Safe);
    }
}

#[test]
fn finalize_budget_adds_flush_and_ack_slack() {
    assert_eq!(finalize_budget(60_000, 30_000), 10_000 + 60_000 + 30_000 + 10_000);
    assert_eq!(finalize_ack_timeout(5_000), 15_000);
    assert_eq!(finalize_ack_timeout(u64::MAX - 1), u64::MAX);
}

#[test]
fn jitter_stays_within_its_window() {
    for _ in 0..100 {
        let r = jittered_interval(DEFAULT_CHECKPOINT_INTERVAL_MS, CHECKPOINT_JITTER_MS);
        assert!(r >= DEFAULT_CHECKPOINT_INTERVAL_MS);
        assert!(r <= DEFAULT_CHECKPOINT_INTERVAL_MS + CHECKPOINT_JITTER_MS);
    }
    assert_eq!(jittered_interval(1_000, 0), 1_000);
}

#[test]
fn final_attempt_needs_a_safe_driver_and_enough_time() {
    assert_eq!(
        final_attempt_decision(None, 100_000, 1, 1, false),
        FinalAttemptDecision::SkipUnsafeBoundary
    );
    assert_eq!(
        final_attempt_decision(Some(Boundary::DriverGone), 100_000, 1, 1, false),
        FinalAttemptDecision::SkipUnsafeBoundary
    );
    assert_eq!(
        final_attempt_decision(Some(Boundary::Busy), 100_000, 40_000, 50_000, true),
        FinalAttemptDecision::SkipBelowFloor
    );
    assert_eq!(
        final_attempt_decision(Some(Boundary::Busy), 100_000, 40_000, 50_000, false),
        FinalAttemptDecision::Attempt { timeout_ms: 100_000 }
    );
    assert_eq!(
        final_attempt_decision(Some(Boundary::Safe), 90_000, 40_000, 50_000, false),
        FinalAttemptDecision::SkipBelowFloor
    );
}

#[test]
fn coordinator_runs_an_attempt_when_the_boundary_is_safe() {
    let mut c = CheckpointCoordinator::new();
    assert_eq!(c.state, CoordinatorState::Idle);
    assert_eq!(c.step(CoordinatorEvent::TimerFired { now_ms: 1_000 }), CoordinatorAction::CheckBoundary);
    assert_eq!(c.state, CoordinatorState::Due { due_since_ms: 1_000 });
    assert_eq!(
        c.step(CoordinatorEvent::BoundaryChecked { boundary: Boundary::Busy, now_ms: 2_000 }),
        CoordinatorAction::WaitForPoll
    );
    assert_eq!(c.step(CoordinatorEvent::PollTimerFired), CoordinatorAction::CheckBoundary);
    assert_eq!(
        c.step(CoordinatorEvent::BoundaryChecked { boundary: Boundary::Safe, now_ms: 3_000 }),
        CoordinatorAction::StartAttempt { generation: None }
    );
    assert_eq!(c.state, CoordinatorState::InFlight);
    assert_eq!(
        c.step(CoordinatorEvent::AttemptFinished {
            result: CheckpointResult::Failed { generation: Some("gen-1".to_string()), reason: "x".to_string() }
        }),
        CoordinatorAction::WaitForInterval
    );
    assert_eq!(c.pending_generation, Some("gen-1".to_string()));
    c.step(CoordinatorEvent::TimerFired { now_ms: 10_000 });
    assert_eq!(
        c.step(CoordinatorEvent::BoundaryChecked { boundary: Boundary::Safe, now_ms: 10_001 }),
        CoordinatorAction::StartAttempt { generation: Some("gen-1".to_string()) }
    );
    c.step(CoordinatorEvent::AttemptFinished {
        result: CheckpointResult::Committed { generation: "gen-1".to_string() },
    });
    assert_eq!(c.pending_generation, None);
    assert_eq!(c.state, CoordinatorState::Idle);
}

#[test]
fn coordinator_forces_an_attempt_after_the_maximum_deferral() {
    let mut c = CheckpointCoordinator::new();
    c.step(CoordinatorEvent::TimerFired { now_ms: 0 });
    assert_eq!(
        c.step(CoordinatorEvent::BoundaryChecked {
            boundary: Boundary::Busy,
            now_ms: MAX_BOUNDARY_DEFERRAL_MS - 1
        }),
        CoordinatorAction::WaitForPoll
    );
    assert_eq!(
        c.step(CoordinatorEvent::BoundaryChecked {
            boundary: Boundary::Busy,
            now_ms: MAX_BOUNDARY_DEFERRAL_MS
        }),
        CoordinatorAction::StartAttempt { generation: None }
    );
}

#[test]
fn coordinator_initializing_restarts_the_deferral_clock() {
    let mut c = CheckpointCoordinator::new();
    c.step(CoordinatorEvent::TimerFired { now_ms: 0 });
    assert_eq!(
        c.step(CoordinatorEvent::BoundaryChecked { boundary: Boundary::Initializing, now_ms: 500 }),
        CoordinatorAction::WaitForPoll
    );
    assert_eq!(c.state, CoordinatorState::Due { due_since_ms: 500 });
    assert_eq!(
        c.step(CoordinatorEvent::BoundaryChecked {
            boundary: Boundary::Busy,
            now_ms: MAX_BOUNDARY_DEFERRAL_MS
        }),
        CoordinatorAction::WaitForPoll
    );
}

#[test]
fn coordinator_finalize_and_stop() {
    let mut idle = CheckpointCoordinator::new();
    assert_eq!(
        idle.step(CoordinatorEvent::FinalizeRequested),
        CoordinatorAction::FinalizeWithNewAttempt { generation: None }
    );
    assert_eq!(idle.state, CoordinatorState::Stopped);
    assert_eq!(idle.step(CoordinatorEvent::TimerFired { now_ms: 1 }), CoordinatorAction::Stop);

    let mut in_flight = CheckpointCoordinator::new();
    in_flight.step(CoordinatorEvent::TimerFired { now_ms: 0 });
    in_flight.step(CoordinatorEvent::BoundaryChecked { boundary: Boundary::Safe, now_ms: 1 });
    assert_eq!(in_flight.step(CoordinatorEvent::FinalizeRequested), CoordinatorAction::FinalizeInFlightAttempt);

    let mut gone = CheckpointCoordinator::new();
    gone.step(CoordinatorEvent::TimerFired { now_ms: 0 });
    assert_eq!(
        gone.step(CoordinatorEvent::BoundaryChecked { boundary: Boundary::DriverGone, now_ms: 1 }),
        CoordinatorAction::Stop
    );
    assert_eq!(gone.state, CoordinatorState::Stopped);

    // Dropping every handle leaves the periodic attempts running.
    let mut closed = CheckpointCoordinator::new();
    assert_eq!(closed.step(CoordinatorEvent::FinalizeChannelClosed), CoordinatorAction::WaitForInterval);
    assert_eq!(closed.state, CoordinatorState::Idle);
    assert_eq!(closed.step(CoordinatorEvent::TimerFired { now_ms: 5 }), CoordinatorAction::CheckBoundary);
    assert_eq!(closed.step(CoordinatorEvent::FinalizeChannelClosed), CoordinatorAction::WaitForPoll);
    assert_eq!(closed.state, CoordinatorState::Due { due_since_ms: 5 });
    assert_eq!(
        closed.step(CoordinatorEvent::BoundaryChecked { boundary: Boundary::Safe, now_ms: 6 }),
        CoordinatorAction::StartAttempt { generation: None }
    );
    assert_eq!(closed.step(CoordinatorEvent::FinalizeChannelClosed), CoordinatorAction::AwaitAttempt);
    assert_eq!(closed.state, CoordinatorState::InFlight);
    assert_eq!(
        closed.step(CoordinatorEvent::AttemptFinished { result: CheckpointResult::Skipped }),
        CoordinatorAction::WaitForInterval
    );

    let mut ignored = CheckpointCoordinator::new();
    assert_eq!(ignored.step(CoordinatorEvent::PollTimerFired), CoordinatorAction::Ignore);
    assert_eq!(ignored.state, CoordinatorState::Idle);
}

#[test]
fn drawn_delay_is_added_to_the_interval() {
    assert_eq!(interval_with_delay(1_000, 250, 0), 1_000);
    assert_eq!(interval_with_delay(1_000, 250, 250), 1_250);
    assert_eq!(interval_with_delay(600_000, 60_000, 12_345), 612_345);
}
