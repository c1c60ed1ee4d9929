use usbfly::control::{open_step, stop_retry_step, QueueAction, RetryStep, StopAction, StopSequence, TransferState};

#[test]
fn transfer_state_keeps_queue_filled_until_stop() {
    let mut s = TransferState::new(0x8000);
    assert!(s.needs_transfer(0));
    assert!(!s.needs_transfer(2));
    assert_eq!(s.on_data(vec![1, 2, 3]), (vec![1, 2, 3], QueueAction::Submit(0x8000)));
    assert_eq!(s.on_data(vec![]), (vec![], QueueAction::Submit(0x8000)));
    s.request_stop();
    assert!(s.is_stopping());
    assert!(!s.needs_transfer(0));
    assert_eq!(s.on_data(vec![9]), (vec![9], QueueAction::Wait));
    assert_eq!(s.on_cancelled(2, "transfer was cancelled"), QueueAction::Wait);
    assert_eq!(s.on_cancelled(0, "transfer was cancelled"), QueueAction::Done);
    assert_eq!(s.errors(), 0);
}

#[test]
fn transfer_state_recovers_by_error_kind() {
    let mut s = TransferState::new(64);
    assert_eq!(s.on_error("resource busy"), QueueAction::Submit(32));
    assert_eq!(s.errors(), 1);
    assert_eq!(s.on_error("timeout"), QueueAction::Submit(64));
    assert_eq!(s.on_error("broken pipe"), QueueAction::Fail);
    assert_eq!(s.errors(), 3);
    assert_eq!(s.on_cancelled(1, "transfer was cancelled"), QueueAction::Fail);
    assert_eq!(s.errors(), 4);
    assert_eq!(s.on_error("timeout"), QueueAction::Fail);
    assert_eq!(s.on_error("other"), QueueAction::Fail);
}

#[test]
fn device_retries_pause_and_give_up() {
    assert_eq!(open_step(0, false), RetryStep::Attempt { pause_ms: 100 });
    assert_eq!(open_step(1, true), RetryStep::Succeeded);
    assert_eq!(open_step(1, false), RetryStep::Attempt { pause_ms: 300 });
    assert_eq!(open_step(2, false), RetryStep::GaveUp);
    assert_eq!(open_step(2, true), RetryStep::Succeeded);
    assert_eq!(stop_retry_step(0, 3, false), RetryStep::Attempt { pause_ms: 0 });
    assert_eq!(stop_retry_step(1, 3, false), RetryStep::Attempt { pause_ms: 300 });
    assert_eq!(stop_retry_step(2, 3, false), RetryStep::Attempt { pause_ms: 600 });
    assert_eq!(stop_retry_step(3, 3, false), RetryStep::GaveUp);
    assert_eq!(stop_retry_step(2, 3, true), RetryStep::Succeeded);
}

fn stop_run(has_queue: bool, active: bool, outs: &[bool]) -> Vec<StopAction> {
    let mut seq = StopSequence::new(has_queue, active);
    let mut actions = Vec::new();
    let mut last = false;
    let mut sent = 0;
    loop {
        let a = seq.next_action(last);
        actions.push(a);
        match a {
            StopAction::SendStop => {
                last = outs.get(sent).copied().unwrap_or(false);
                sent += 1;
            },
            StopAction::Finish(_) => return actions,
            _ => {},
        }
    }
}

#[test]
fn stop_sequence_shuts_queue_and_confirms() {
    assert_eq!(stop_run(true, false, &[]), vec![StopAction::ShutdownQueue, StopAction::Finish(true)]);
    assert_eq!(stop_run(false, false, &[]), vec![StopAction::Finish(true)]);
    assert_eq!(
        stop_run(true, true, &[true, true]),
        vec![StopAction::ShutdownQueue, StopAction::SendStop, StopAction::Pause(50), StopAction::SendStop, StopAction::Finish(true)]
    );
    assert_eq!(
        stop_run(false, true, &[true, false, false]),
        vec![
            StopAction::SendStop,
            StopAction::Pause(50),
            StopAction::SendStop,
            StopAction::Pause(100),
            StopAction::SendStop,
            StopAction::Finish(false)
        ]
    );
    assert_eq!(stop_run(false, true, &[false, false, true]).last(), Some(&StopAction::Finish(true)));
}
