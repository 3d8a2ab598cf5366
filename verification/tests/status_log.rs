use uvmon::status_log::{StatusChange, StatusLog, LOG_SIZE};

fn entry(up: bool, time: u64) -> StatusChange {
    StatusChange { up, time }
}

#[test]
fn empty_log_iterates_nothing() {
    let log = StatusLog::new();
    assert_eq!(log.iter().len(), 0);
}

#[test]
fn short_sequence_kept_in_order() {
    let mut log = StatusLog::new();
    for t in 0..5u64 {
        log.push(entry(t % 2 == 0, t));
    }
    let got = log.iter();
    assert_eq!(got.len(), 5);
    for (i, e) in got.iter().enumerate() {
        assert_eq!(e.time, i as u64);
        assert_eq!(e.up, i % 2 == 0);
    }
}

#[test]
fn overfull_log_keeps_newest_only() {
    let mut log = StatusLog::new();
    let n = 70u64;
    for t in 0..n {
        log.push(entry(true, t));
    }
    let got = log.iter();
    assert_eq!(got.len(), LOG_SIZE);
    for (i, e) in got.iter().enumerate() {
        assert_eq!(e.time, n - LOG_SIZE as u64 + i as u64);
    }
}

#[test]
fn exactly_full_log_keeps_everything() {
    let mut log = StatusLog::new();
    for t in 0..LOG_SIZE as u64 {
        log.push(entry(false, t));
    }
    let got = log.iter();
    assert_eq!(got.len(), LOG_SIZE);
    assert_eq!(got[0].time, 0);
    assert_eq!(got[LOG_SIZE - 1].time, LOG_SIZE as u64 - 1);
}

#[test]
fn log_does_not_deduplicate() {
    let mut log = StatusLog::new();
    let e = entry(true, 7);
    log.push(e);
    log.push(e);
    let got = log.iter();
    assert_eq!(got.len(), 2);
    assert_eq!(got[0], e);
    assert_eq!(got[1], e);
}

#[test]
fn non_decreasing_times_stay_in_insertion_order() {
    let mut log = StatusLog::new();
    let times = [3u64, 3, 4, 9, 9, 12];
    for (i, &t) in times.iter().enumerate() {
        log.push(entry(i % 2 == 0, t));
    }
    let got = log.iter();
    assert_eq!(got.len(), times.len());
    for (i, e) in got.iter().enumerate() {
        assert_eq!(e.time, times[i]);
    }
}
