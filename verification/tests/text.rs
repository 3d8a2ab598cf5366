use uvmon::addr::{expand_ipv6, withfallback_domain};
use uvmon::check::{classify_attempt, ProbeAttempt, StreamEvent};
use uvmon::engine::Engine;
use uvmon::render::render_log;
use uvmon::router::{route, str_eq, Route};
use uvmon::status_log::{StatusChange, StatusLog};

#[test]
fn render_empty_log_is_empty() {
    assert_eq!(render_log(&vec![]), "");
}

#[test]
fn render_single_entry() {
    let entries = vec![StatusChange { up: true, time: 5 }];
    assert_eq!(render_log(&entries), "5: UP");
}

#[test]
fn render_lines_oldest_first() {
    let entries = vec![
        StatusChange { up: true, time: 1700000000 },
        StatusChange { up: false, time: 1700000123 },
    ];
    assert_eq!(render_log(&entries), "1700000000: UP\n1700000123: DOWN");
}

#[test]
fn render_zero_timestamp() {
    let entries = vec![StatusChange { up: false, time: 0 }];
    assert_eq!(render_log(&entries), "0: DOWN");
}

#[test]
fn healthy_then_degraded_responder_scenario() {
    let mut engine = Engine::new();
    let mut log = StatusLog::new();

    // A healthy responder trickles one byte per second, thirty in all.
    let healthy: Vec<StreamEvent> = (0..30).map(|_| StreamEvent::Data(1)).collect();
    let up = classify_attempt(&ProbeAttempt::Responded(healthy.clone()));
    assert!(up);
    engine.observe(up, 30, &mut log);
    assert_eq!(log.iter().len(), 1);
    assert!(log.iter()[0].up);

    // The second warm-up probe completes with the same outcome: no new entry.
    let up = classify_attempt(&ProbeAttempt::Responded(healthy));
    engine.observe(up, 45, &mut log);
    assert_eq!(log.iter().len(), 1);

    // The responder degrades to ten bytes before closing: one new entry.
    let degraded: Vec<StreamEvent> = (0..10).map(|_| StreamEvent::Data(1)).collect();
    let up = classify_attempt(&ProbeAttempt::Responded(degraded));
    assert!(!up);
    engine.observe(up, 75, &mut log);
    assert_eq!(log.iter().len(), 2);
    assert!(!log.iter()[1].up);

    // The log endpoint now renders two lines, oldest first.
    assert_eq!(render_log(&log.iter()), "30: UP\n75: DOWN");
}

#[test]
fn up_then_degraded_scenario_renders_two_lines() {
    let mut engine = Engine::new();
    let mut log = StatusLog::new();
    engine.observe(true, 30, &mut log);
    assert_eq!(render_log(&log.iter()), "30: UP");
    engine.observe(false, 75, &mut log);
    let text = render_log(&log.iter());
    assert_eq!(text, "30: UP\n75: DOWN");
    assert_eq!(log.iter().len(), 2);
}

#[test]
fn expand_pads_each_segment_to_four_hex_digits() {
    let segments = vec![0x2001u16, 0x0db8, 0, 0, 0, 0, 0, 1];
    assert_eq!(
        expand_ipv6(&segments),
        "2001-0db8-0000-0000-0000-0000-0000-0001"
    );
}

#[test]
fn expand_uses_lowercase_hex() {
    let segments = vec![0xabcdu16, 0xef01, 0xffff, 0x1234, 0x5678, 0x9abc, 0xdef0, 0x000f];
    assert_eq!(
        expand_ipv6(&segments),
        "abcd-ef01-ffff-1234-5678-9abc-def0-000f"
    );
}

#[test]
fn domain_appends_fallback_suffix() {
    let segments = vec![0u16, 0, 0, 0, 0, 0, 0, 1];
    assert_eq!(
        withfallback_domain(&segments),
        "0000-0000-0000-0000-0000-0000-0000-0001.withfallback.com"
    );
}

#[test]
fn routing_is_exact_match_on_get() {
    assert_eq!(route(true, "/trickle"), Route::Trickle);
    assert_eq!(route(true, "/log"), Route::Log);
    assert_eq!(route(true, "/"), Route::NotFound);
    assert_eq!(route(true, "/trickle/"), Route::NotFound);
    assert_eq!(route(true, "/logs"), Route::NotFound);
    assert_eq!(route(false, "/trickle"), Route::NotFound);
    assert_eq!(route(false, "/log"), Route::NotFound);
}

#[test]
fn str_eq_compares_contents() {
    assert!(str_eq("/log", "/log"));
    assert!(!str_eq("/log", "/Log"));
    assert!(!str_eq("/log", "/logg"));
    assert!(str_eq("", ""));
}
