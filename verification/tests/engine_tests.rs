use rustbot::backoff::{backoff_decision, BackoffVerdict, RetryState, RETRY_CAP};
use rustbot::classify::{EngineUpdate, ErrorCause, FetchEvent};
use rustbot::cursor::CursorTracker;
use rustbot::driver::run_scripted;
use rustbot::poll::poll_windows;
use rustbot::shutdown::{Registration, Shutdown};
use rustbot::task_tracker::{wait_drain, TaskCounter, TaskState};
use rustbot::telegram::{classify_response, TransportOutcome};

fn recoverable(recovered: Option<i64>) -> FetchEvent<u32> {
    FetchEvent::Recoverable {
        cause: ErrorCause::SchemaMismatch,
        recovered,
    }
}

#[test]
fn backoff_controller_doubles() {
    assert_eq!(backoff_decision(0), BackoffVerdict::Delay(1));
    assert_eq!(backoff_decision(5), BackoffVerdict::Delay(32));
    assert_eq!(backoff_decision(12), BackoffVerdict::Delay(4096));
    assert_eq!(backoff_decision(13), BackoffVerdict::Exhausted);
    assert_eq!(backoff_decision(100), BackoffVerdict::Exhausted);
}

#[test]
fn retry_state_resets_and_counts() {
    let mut r = RetryState::new();
    assert_eq!(r.on_recoverable(), BackoffVerdict::Delay(1));
    assert_eq!(r.on_recoverable(), BackoffVerdict::Delay(2));
    r.reset();
    assert_eq!(r.count, 0);
    assert_eq!(r.on_recoverable(), BackoffVerdict::Delay(1));
}

#[test]
fn cursor_never_decreases() {
    let mut c = CursorTracker::new();
    c.advance(12);
    assert_eq!(c.offset, 13);
    c.advance(5);
    assert_eq!(c.offset, 13);
    c.recover(42);
    assert_eq!(c.offset, 43);
}

#[test]
fn backoff_sequence_of_five() {
    // Five consecutive recoverable errors sleep the doubling delays and
    // the retry count resets on the batch that follows.
    let mut script: Vec<FetchEvent<u32>> = Vec::new();
    for _ in 0..5 {
        script.push(recoverable(None));
    }
    script.push(FetchEvent::Batch(vec![]));
    let trace = run_scripted(script, None);
    assert_eq!(trace.delays, vec![1, 2, 4, 8, 16]);
    assert_eq!(trace.final_retry, 0);
    assert!(trace.failure.is_none());
}

#[test]
fn timeout_resets_retry_state() {
    let script: Vec<FetchEvent<u32>> = vec![
        recoverable(None),
        recoverable(None),
        FetchEvent::Timeout,
        recoverable(None),
    ];
    let trace = run_scripted(script, None);
    assert_eq!(trace.delays, vec![1, 2, 1]);
    assert_eq!(trace.final_retry, 1);
}

#[test]
fn retry_budget_cap_is_fatal() {
    // The error after thirteen retries is terminal and sleeps no delay.
    let mut script: Vec<FetchEvent<u32>> = Vec::new();
    for _ in 0..14 {
        script.push(recoverable(None));
    }
    script.push(FetchEvent::Batch(vec![EngineUpdate { id: 1, body: 0 }]));
    let trace = run_scripted(script, None);
    assert_eq!(trace.failure, Some(ErrorCause::RetryBudgetExhausted));
    assert_eq!(trace.delays.len(), RETRY_CAP as usize);
    assert_eq!(trace.offsets.len(), 14);
    // Nothing after the terminal error is dispatched.
    assert_eq!(trace.dispatched.len(), 0);
}

#[test]
fn end_to_end_scenario() {
    let script: Vec<FetchEvent<u32>> = vec![
        FetchEvent::Batch(vec![
            EngineUpdate { id: 10, body: 1 },
            EngineUpdate { id: 11, body: 2 },
            EngineUpdate { id: 12, body: 3 },
        ]),
        FetchEvent::Timeout,
        recoverable(Some(15)),
        FetchEvent::Fatal(ErrorCause::Transport),
    ];
    let trace = run_scripted(script, None);
    assert_eq!(trace.offsets, vec![0, 13, 13, 16]);
    assert_eq!(trace.dispatched.len(), 3);
    let ids: Vec<i64> = trace.dispatched.iter().map(|e| e.id).collect();
    assert_eq!(ids, vec![10, 11, 12]);
    assert_eq!(trace.delays, vec![1]);
    assert_eq!(trace.final_retry, 1);
    assert_eq!(trace.failure, Some(ErrorCause::Transport));
    assert_eq!(
        trace.reported,
        vec![ErrorCause::SchemaMismatch, ErrorCause::Transport]
    );
    // The offsets never decrease.
    for w in trace.offsets.windows(2) {
        assert!(w[0] <= w[1]);
    }
}

#[test]
fn shutdown_run_confirms_at_cursor() {
    let script: Vec<FetchEvent<u32>> = vec![
        FetchEvent::Batch(vec![EngineUpdate { id: 7, body: 0 }]),
        FetchEvent::Timeout,
        FetchEvent::Timeout,
    ];
    let trace = run_scripted(script, Some(1));
    assert_eq!(trace.offsets, vec![0]);
    assert_eq!(trace.final_cursor, 8);
    assert_eq!(trace.confirm_offset, Some(8));
    assert!(trace.failure.is_none());
}

#[test]
fn drain_waits_for_all_ten() {
    // Ten tasks spawned, then completing in whatever order: the waiter
    // completes exactly with the tenth completion, never fewer.
    let mut msgs: Vec<TaskState> = Vec::new();
    for _ in 0..10 {
        msgs.push(TaskState::Starting);
    }
    for _ in 0..10 {
        msgs.push(TaskState::Ended);
    }
    assert_eq!(wait_drain(&msgs), Some(19));
    // With one completion missing the waiter still blocks.
    let mut partial = msgs.clone();
    partial.pop();
    assert_eq!(wait_drain(&partial), None);
}

#[test]
fn drain_interleaved_batches() {
    let msgs = vec![
        TaskState::Starting,
        TaskState::Starting,
        TaskState::Ended,
        TaskState::Starting,
        TaskState::Ended,
        TaskState::Ended,
    ];
    assert_eq!(wait_drain(&msgs), Some(5));
}

#[test]
fn task_counter_tracks_outstanding() {
    let mut c = TaskCounter::new();
    assert!(c.is_drained());
    c.on_spawn();
    c.on_spawn();
    assert!(!c.is_drained());
    c.on_task_end();
    c.on_task_end();
    assert!(c.is_drained());
}

#[test]
fn shutdown_idempotence_and_no_missed_wakeup() {
    let mut s = Shutdown::create();
    let a = s.register();
    let b = s.register();
    assert_eq!(a, Registration::Pending(0));
    assert_eq!(b, Registration::Pending(1));
    let woken = s.shutdown();
    assert_eq!(woken, vec![0, 1]);
    // The second call is a no-op that wakes nobody.
    let woken_again = s.shutdown();
    assert!(woken_again.is_empty());
    // A waiter registered after the fact resolves immediately.
    assert_eq!(s.register(), Registration::ReadyNow);
}

#[test]
fn poll_window_client_timeout_covers_server_window() {
    let (server, client) = poll_windows();
    assert!(server > 0);
    assert!(client >= server as u64);
}

#[test]
fn classify_transport_and_timeout() {
    let ev = classify_response(TransportOutcome::Failed);
    assert!(matches!(ev, FetchEvent::Fatal(ErrorCause::Transport)));
    let ev = classify_response(TransportOutcome::TimedOut);
    assert!(matches!(ev, FetchEvent::Timeout));
}

#[test]
fn classify_batch_body() {
    let body = br#"{"ok":true,"result":[{"update_id":10},{"update_id":11}]}"#.to_vec();
    let ev = classify_response(TransportOutcome::Body(body));
    match ev {
        FetchEvent::Batch(evs) => {
            let ids: Vec<i64> = evs.iter().map(|e| e.id).collect();
            assert_eq!(ids, vec![10, 11]);
        }
        _ => panic!("expected a batch"),
    }
}

#[test]
fn classify_rejected_body() {
    let body = br#"{"ok":false,"error_code":401,"description":"denied"}"#.to_vec();
    let ev = classify_response(TransportOutcome::Body(body));
    match ev {
        FetchEvent::Recoverable { cause, recovered } => {
            assert_eq!(cause, ErrorCause::UpstreamRejected);
            assert_eq!(recovered, None);
        }
        _ => panic!("expected a recoverable error"),
    }
}

#[test]
fn recovery_advances_cursor_despite_decode_failure() {
    // The first element fails the typed decode; the generic parse still
    // salvages the trailing id, so the cursor moves to one past it and
    // the error is still reported.
    let body = br#"{"ok":true,"result":[{"foo":1},{"update_id":42}]}"#.to_vec();
    let ev = classify_response(TransportOutcome::Body(body));
    match &ev {
        FetchEvent::Recoverable { cause, recovered } => {
            assert_eq!(*cause, ErrorCause::SchemaMismatch);
            assert_eq!(*recovered, Some(42));
        }
        _ => panic!("expected a recoverable error"),
    }
    let trace = run_scripted(vec![ev], None);
    assert_eq!(trace.final_cursor, 43);
    assert_eq!(trace.reported, vec![ErrorCause::SchemaMismatch]);
}

#[test]
fn recovery_needs_the_success_flag() {
    let body = br#"{"ok":false,"result":[{"update_id":42},{"broken":true}]}"#.to_vec();
    let ev = classify_response(TransportOutcome::Body(body));
    match ev {
        FetchEvent::Recoverable { recovered, .. } => assert_eq!(recovered, None),
        _ => panic!("expected a recoverable error"),
    }
}

#[test]
fn recovery_ignores_unparseable_bodies() {
    let body = b"not json at all".to_vec();
    let ev = classify_response(TransportOutcome::Body(body));
    match ev {
        FetchEvent::Recoverable { cause, recovered } => {
            assert_eq!(cause, ErrorCause::SchemaMismatch);
            assert_eq!(recovered, None);
        }
        _ => panic!("expected a recoverable error"),
    }
}
