use tracing_forest::Level;
use tracing_forest::Shared;
use tracing_forest::Span;
use tracing_forest::Tree;

fn info_shared() -> Shared {
    Shared { uuid: None, timestamp: None, level: Level::Info }
}

#[test]
fn empty_span_has_zero_durations() {
    let span = Span::new(info_shared(), String::from("empty"));
    assert_eq!(span.total_duration(), 0);
    assert_eq!(span.inner_duration(), 0);
    assert_eq!(span.base_duration(), 0);
    assert_eq!(span.children().len(), 0);
}

#[test]
fn total_decomposes_into_inner_plus_base() {
    let mut span = Span::new(info_shared(), String::from("work"));
    span.set_total_duration(100);
    span.set_inner_duration(30);
    assert_eq!(span.total_duration(), span.inner_duration() + span.base_duration());
    assert_eq!(span.base_duration(), 70);
}

#[test]
fn zero_inner_means_base_equals_total() {
    let mut span = Span::new(info_shared(), String::from("leafish"));
    span.set_total_duration(250);
    assert_eq!(span.inner_duration(), 0);
    assert_eq!(span.base_duration(), 250);
}

#[test]
fn inner_duration_stays_within_total_with_children() {
    let mut outer = Span::new(info_shared(), String::from("outer"));
    outer.set_total_duration(90);
    let mut child = Span::new(info_shared(), String::from("child"));
    child.set_total_duration(35);
    outer.append_child(Tree::Span(child));
    outer.set_inner_duration(35);
    assert!(outer.inner_duration() <= outer.total_duration());
    assert_eq!(outer.base_duration(), 55);
}

#[test]
fn inner_equal_to_total_gives_zero_base() {
    let mut span = Span::new(info_shared(), String::from("all_nested"));
    span.set_total_duration(40);
    span.set_inner_duration(40);
    assert_eq!(span.base_duration(), 0);
}

#[test]
fn outer_100ms_child_40ms_leaves_60ms_base() {
    let mut outer = Span::new(info_shared(), String::from("outer"));
    outer.set_total_duration(100_000_000);
    let mut inner = Span::new(info_shared(), String::from("inner"));
    inner.set_total_duration(40_000_000);
    outer.append_child(Tree::Span(inner));
    outer.set_inner_duration(40_000_000);
    assert_eq!(outer.base_duration(), 60_000_000);
}

#[test]
fn setting_durations_keeps_the_rest_of_the_span() {
    let shared = Shared { uuid: Some(7), timestamp: Some(1_700_000_000_000_000_000), level: Level::Warn };
    let mut span = Span::new(shared, String::from("steady"));
    span.set_total_duration(10);
    span.set_inner_duration(4);
    assert_eq!(span.name(), "steady");
    assert_eq!(span.level(), Level::Warn);
    assert_eq!(span.uuid(), Some(7));
    assert_eq!(span.timestamp(), Some(1_700_000_000_000_000_000));
    assert_eq!(span.children().len(), 0);
}

#[test]
fn largest_total_duration_is_representable() {
    let mut span = Span::new(info_shared(), String::from("huge"));
    span.set_total_duration(u64::MAX);
    span.set_inner_duration(u64::MAX);
    assert_eq!(span.base_duration(), 0);
    span.set_inner_duration(0);
    assert_eq!(span.base_duration(), u64::MAX);
}
