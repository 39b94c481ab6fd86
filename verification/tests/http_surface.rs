use kagiyama::ConditionSet;
use kagiyama::ContentType;
use kagiyama::StopServerError;
use kagiyama::Watcher;

use prometheus_client::metrics::counter::Counter;

#[test]
fn ready_scenario_two_conditions() {
    let set = ConditionSet::new(vec!["A".to_string(), "B".to_string()]);
    let watcher = Watcher::new(set);
    let mut probe = watcher.readiness_probe();

    assert!(!probe.is_ready());
    let resp = watcher.respond("/ready").unwrap();
    assert_eq!(resp.status, 503);
    assert_eq!(resp.body, "{\"A\":false,\"B\":false}");
    assert!(matches!(resp.content_type, ContentType::ApplicationJson));

    probe.mark_ready(0);
    let resp = watcher.respond("/ready").unwrap();
    assert_eq!(resp.status, 503);
    assert_eq!(resp.body, "{\"A\":true,\"B\":false}");

    probe.mark_ready(1);
    assert!(probe.is_ready());
    let resp = watcher.respond("/ready").unwrap();
    assert_eq!(resp.status, 200);
    assert_eq!(resp.body, "{\"A\":true,\"B\":true}");

    probe.mark_not_ready(0);
    assert!(!probe.is_ready());
    let resp = watcher.respond("/ready").unwrap();
    assert_eq!(resp.status, 503);
    assert_eq!(resp.body, "{\"A\":false,\"B\":true}");
}

#[test]
fn ready_empty_set_reports_empty_object() {
    let watcher = Watcher::new(ConditionSet::always_ready());
    let resp = watcher.respond("/ready").unwrap();
    assert_eq!(resp.status, 200);
    assert_eq!(resp.body, "{}");
    assert!(matches!(resp.content_type, ContentType::ApplicationJson));
}

#[test]
fn ready_escapes_condition_names() {
    let set = ConditionSet::new(vec!["a\"b\\c\nd".to_string()]);
    let watcher = Watcher::new(set);
    let resp = watcher.respond("/ready").unwrap();
    assert_eq!(resp.status, 503);
    assert_eq!(resp.body, "{\"a\\\"b\\\\c\\u000ad\":false}");
}

#[test]
fn alive_always_succeeds() {
    let set = ConditionSet::new(vec!["pending".to_string()]);
    let watcher = Watcher::new(set);

    let resp = watcher.respond("/alive").unwrap();
    assert_eq!(resp.status, 200);
    assert_eq!(resp.body, "alive");
    assert!(matches!(resp.content_type, ContentType::TextPlain));

    let mut probe = watcher.readiness_probe();
    probe.mark_ready(0);
    let resp = watcher.respond("/alive").unwrap();
    assert_eq!(resp.status, 200);
    assert_eq!(resp.body, "alive");

    probe.mark_not_ready(0);
    let resp = watcher.respond("/alive").unwrap();
    assert_eq!(resp.status, 200);
    assert_eq!(resp.body, "alive");
}

#[test]
fn unknown_paths_are_not_found() {
    let watcher = Watcher::new(ConditionSet::always_ready());
    for path in ["/", "/metric", "/readyz", "/health", ""] {
        let resp = watcher.respond(path).unwrap();
        assert_eq!(resp.status, 404);
        assert_eq!(resp.body, "Not found");
        assert!(matches!(resp.content_type, ContentType::TextPlain));
    }
}

#[test]
fn metrics_exposition_tracks_up_gauge() {
    let set = ConditionSet::new(vec!["db".to_string()]);
    let watcher = Watcher::new(set);

    let resp = watcher.respond("/metrics").unwrap();
    assert_eq!(resp.status, 200);
    assert!(matches!(resp.content_type, ContentType::TextPlain));
    assert!(resp.body.contains("# TYPE up gauge"));
    assert!(resp.body.contains("up 0"));

    let mut probe = watcher.readiness_probe();
    probe.mark_ready(0);
    let resp = watcher.respond("/metrics").unwrap();
    assert!(resp.body.contains("up 1"));
}

#[test]
fn extra_metrics_appear_in_exposition() {
    let watcher = Watcher::new(ConditionSet::always_ready());
    let ticks: Counter = Counter::default();
    {
        let mut registry = watcher.metrics_registry();
        registry.register("ticks", "A demo metric", ticks.clone());
    }
    ticks.inc();
    let resp = watcher.respond("/metrics").unwrap();
    assert_eq!(resp.status, 200);
    assert!(resp.body.contains("ticks_total 1"));
}

#[test]
fn metrics_still_render_after_stop_request() {
    let mut watcher = Watcher::new(ConditionSet::always_ready());
    let _rx = watcher.subscribe_termination();
    let r = watcher.stop_server();
    assert!(r.is_ok());
    let resp = watcher.respond("/metrics").unwrap();
    assert_eq!(resp.status, 200);
    assert!(resp.body.contains("# TYPE up gauge"));
}

#[test]
fn stop_without_server_reports_nothing_to_stop() {
    let mut watcher = Watcher::new(ConditionSet::always_ready());
    let r = watcher.stop_server();
    assert!(matches!(r, Err(StopServerError::NoActiveServers)));
}

#[test]
fn stop_reaches_every_subscriber() {
    let mut watcher = Watcher::new(ConditionSet::always_ready());
    let mut first = watcher.subscribe_termination();
    let mut second = watcher.subscribe_termination();
    let r = watcher.stop_server();
    assert_eq!(r, Ok(2));
    assert!(first.try_recv().is_ok());
    assert!(second.try_recv().is_ok());
    assert!(first.try_recv().is_err());
}
