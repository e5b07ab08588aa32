use std::sync::{Arc, Mutex};
use std::time::{Duration, Instant};

use overwatch::state::{NoOperator, OperatorError, StateHandle, StateOperator};

struct RecordingOperator {
    persisted: Arc<Mutex<Vec<u64>>>,
    fail_on: Option<u64>,
    delay: Duration,
}

impl StateOperator<u64> for RecordingOperator {
    fn from_settings<Settings>(_settings: Settings) -> Self {
        RecordingOperator {
            persisted: Arc::new(Mutex::new(Vec::new())),
            fail_on: None,
            delay: Duration::from_millis(0),
        }
    }

    fn persist(&mut self, state: u64) -> Result<(), OperatorError> {
        let started = Instant::now();
        while started.elapsed() < self.delay {}
        if self.fail_on == Some(state) {
            return Err(OperatorError { reason: "refused by the test operator".to_string() });
        }
        self.persisted.lock().unwrap().push(state);
        Ok(())
    }
}

#[test]
fn pipeline_persists_in_push_order() {
    let persisted = Arc::new(Mutex::new(Vec::new()));
    let operator = RecordingOperator {
        persisted: persisted.clone(),
        fail_on: None,
        delay: Duration::from_millis(2),
    };
    let (mut state_handle, updater) = StateHandle::new(10u64, operator);
    updater.update(1u64);
    updater.update(2u64);
    updater.update(3u64);
    while let Some(outcome) = state_handle.drain_once() {
        assert!(outcome.is_ok());
    }
    assert_eq!(persisted.lock().unwrap().clone(), vec![10u64, 1u64, 2u64, 3u64]);
}

#[test]
fn pipeline_failure_does_not_halt_later_persists() {
    let persisted = Arc::new(Mutex::new(Vec::new()));
    let operator = RecordingOperator {
        persisted: persisted.clone(),
        fail_on: Some(2u64),
        delay: Duration::from_millis(0),
    };
    let (mut state_handle, updater) = StateHandle::new(1u64, operator);
    updater.update(2u64);
    updater.update(3u64);

    assert!(matches!(state_handle.drain_once(), Some(Ok(()))));
    match state_handle.drain_once() {
        Some(Err(failure)) => assert_eq!(failure.reason.as_str(), "refused by the test operator"),
        _ => panic!("the operator must report the failed persist"),
    }
    assert!(matches!(state_handle.drain_once(), Some(Ok(()))));
    assert!(state_handle.drain_once().is_none());
    assert_eq!(persisted.lock().unwrap().clone(), vec![1u64, 3u64]);
}

#[test]
fn pipeline_pusher_clone_feeds_the_same_queue() {
    let persisted = Arc::new(Mutex::new(Vec::new()));
    let operator = RecordingOperator {
        persisted: persisted.clone(),
        fail_on: None,
        delay: Duration::from_millis(0),
    };
    let (mut state_handle, updater) = StateHandle::new(0u64, operator);
    let second_pusher = updater.clone();
    updater.update(1u64);
    second_pusher.update(2u64);
    while state_handle.drain_once().is_some() {}
    assert_eq!(persisted.lock().unwrap().clone(), vec![0u64, 1u64, 2u64]);
}

#[test]
fn no_operator_accepts_every_snapshot() {
    let operator: NoOperator<u64> = NoOperator::from_settings("anything");
    let (mut state_handle, updater) = StateHandle::new(5u64, operator);
    updater.update(6u64);
    assert!(matches!(state_handle.drain_once(), Some(Ok(()))));
    assert!(matches!(state_handle.drain_once(), Some(Ok(()))));
    assert!(state_handle.drain_once().is_none());
}
