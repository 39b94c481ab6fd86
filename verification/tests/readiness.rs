use kagiyama::AlwaysReady;
use kagiyama::ConditionSet;
use kagiyama::ReadinessProbe;

#[test]
fn test_basic() {
    let set = ConditionSet::new(vec![
        "One".to_string(),
        "Two".to_string(),
        "Three".to_string(),
    ]);
    let mut rc = ReadinessProbe::new(set);
    assert!(!rc.is_ready());
    assert_eq!(rc.up_metric(), 0);

    rc.mark_ready(0);
    assert!(!rc.is_ready());
    assert_eq!(rc.up_metric(), 0);

    rc.mark_ready(1);
    assert!(!rc.is_ready());
    assert_eq!(rc.up_metric(), 0);

    rc.mark_ready(2);
    assert!(rc.is_ready());
    assert_eq!(rc.up_metric(), 1);

    rc.mark_not_ready(1);
    assert!(!rc.is_ready());
    assert_eq!(rc.up_metric(), 0);
}

#[test]
fn test_always_ready() {
    let rc = ReadinessProbe::new(ConditionSet::always_ready());
    assert!(rc.is_ready());
    assert_eq!(rc.up_metric(), 1);
}

#[test]
fn always_ready_marker_converts_to_empty_set() {
    let set = ConditionSet::from(AlwaysReady::AlwaysReady);
    assert_eq!(set.count(), 0);
    let rc = ReadinessProbe::new(set);
    assert!(rc.is_ready());
    assert_eq!(rc.up(), 1);
}

#[test]
fn up_value_tracks_readiness() {
    let set = ConditionSet::new(vec!["only".to_string()]);
    let mut rc = ReadinessProbe::new(set);
    assert_eq!(rc.up(), 0);
    rc.mark_ready(0);
    assert_eq!(rc.up(), 1);
    rc.mark_not_ready(0);
    assert_eq!(rc.up(), 0);
}

#[test]
fn clones_share_backing_state() {
    let set = ConditionSet::new(vec!["a".to_string(), "b".to_string()]);
    let mut first = ReadinessProbe::new(set);
    let mut second = first.clone();
    first.mark_ready(0);
    second.mark_ready(1);
    assert!(first.is_ready());
    assert!(second.is_ready());
    second.mark_not_ready(0);
    assert!(!first.is_ready());
    assert_eq!(first.up_metric(), 0);
}

#[test]
fn marking_same_condition_twice_keeps_state() {
    let set = ConditionSet::new(vec!["x".to_string(), "y".to_string()]);
    let mut rc = ReadinessProbe::new(set);
    rc.mark_ready(0);
    rc.mark_ready(0);
    assert!(!rc.is_ready());
    rc.mark_ready(1);
    assert!(rc.is_ready());
    rc.mark_ready(1);
    assert!(rc.is_ready());
    assert_eq!(rc.up(), 1);
}
