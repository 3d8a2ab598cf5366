use uvmon::engine::Engine;
use uvmon::status_log::{StatusChange, StatusLog};

#[test]
fn debounce_records_transitions_only() {
    let outcomes = [true, true, false, false, true];
    let mut engine = Engine::new();
    let mut log = StatusLog::new();
    for (i, &up) in outcomes.iter().enumerate() {
        engine.observe(up, i as u64, &mut log);
    }
    let got = log.iter();
    assert_eq!(got.len(), 3);
    assert_eq!(got[0], StatusChange { up: true, time: 0 });
    assert_eq!(got[1], StatusChange { up: false, time: 2 });
    assert_eq!(got[2], StatusChange { up: true, time: 4 });
}

#[test]
fn first_outcome_is_always_recorded() {
    let mut engine = Engine::new();
    let mut log = StatusLog::new();
    let recorded = engine.observe(false, 100, &mut log);
    assert!(recorded);
    let got = log.iter();
    assert_eq!(got.len(), 1);
    assert_eq!(got[0], StatusChange { up: false, time: 100 });
}

#[test]
fn steady_state_repeat_is_not_recorded() {
    let mut engine = Engine::new();
    let mut log = StatusLog::new();
    assert!(engine.observe(true, 1, &mut log));
    assert!(!engine.observe(true, 2, &mut log));
    assert!(!engine.observe(true, 3, &mut log));
    assert_eq!(log.iter().len(), 1);
}
