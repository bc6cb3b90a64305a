//! Tests of forwarding statuses to several reporters.
use std::sync::{Arc, Mutex};

use transonic::models::playback::PlaybackStatus;
use transonic::playback::reporting::{CompositePlaybackReporter, PlaybackReporter};

struct CountingReporter {
    calls: Arc<Mutex<Vec<&'static str>>>,
    name: &'static str,
    fails: bool,
}

impl PlaybackReporter for CountingReporter {
    fn report_state(&mut self, _status: &PlaybackStatus) -> Result<(), String> {
        self.calls.lock().unwrap().push(self.name);
        if self.fails {
            Err(format!("{} failed", self.name))
        } else {
            Ok(())
        }
    }
}

#[test]
fn composite_reporter_calls_each_reporter_in_order_and_returns_the_last_failure() {
    let calls = Arc::new(Mutex::new(Vec::new()));
    let reporters: Vec<Box<dyn PlaybackReporter>> = vec![
        Box::new(CountingReporter { calls: calls.clone(), name: "a", fails: true }),
        Box::new(CountingReporter { calls: calls.clone(), name: "b", fails: false }),
        Box::new(CountingReporter { calls: calls.clone(), name: "c", fails: true }),
    ];
    let mut composite = CompositePlaybackReporter::new(reporters);
    let result = composite.report_state(&PlaybackStatus::empty());
    assert_eq!(result, Err("c failed".to_string()));
    assert_eq!(*calls.lock().unwrap(), vec!["a", "b", "c"]);
}

#[test]
fn composite_reporter_without_reporters_succeeds() {
    let mut composite = CompositePlaybackReporter::new(Vec::new());
    assert_eq!(composite.report_state(&PlaybackStatus::empty()), Ok(()));
}
