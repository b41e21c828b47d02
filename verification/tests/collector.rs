use std::time::Duration;
use trident::collector::{
    round_to_minute, Collector, CollectorThread, FlowAggrThread, QuadrupleGeneratorThread,
};

#[test]
fn minutes_are_rounded_down() {
    assert_eq!(round_to_minute(Duration::from_secs(0)), Duration::from_secs(0));
    assert_eq!(round_to_minute(Duration::from_secs(59)), Duration::from_secs(0));
    assert_eq!(round_to_minute(Duration::from_secs(60)), Duration::from_secs(60));
    assert_eq!(round_to_minute(Duration::from_secs(61)), Duration::from_secs(60));
    assert_eq!(round_to_minute(Duration::from_secs(125)), Duration::from_secs(120));
    assert_eq!(
        round_to_minute(Duration::from_secs(1_650_000_019)),
        Duration::from_secs(1_650_000_000)
    );
}

#[test]
fn parts_of_a_second_are_dropped() {
    assert_eq!(round_to_minute(Duration::new(125, 999_999_999)), Duration::from_secs(120));
    assert_eq!(round_to_minute(Duration::from_millis(59_999)), Duration::from_secs(0));
    assert_eq!(round_to_minute(Duration::new(60, 1)).subsec_nanos(), 0);
}

#[test]
fn largest_duration_is_rounded_without_overflow() {
    let minute = round_to_minute(Duration::new(u64::MAX, 999_999_999));
    assert_eq!(minute, Duration::from_secs(u64::MAX - u64::MAX % 60));
}

#[test]
fn stage_starts_and_stops() {
    let mut stage = Collector::new();
    assert!(!stage.is_running());
    stage.start();
    assert!(stage.is_running());
    stage.start();
    assert!(stage.is_running());
    stage.stop();
    assert!(!stage.is_running());
    stage.stop();
    assert!(!stage.is_running());
}

#[test]
fn pipeline_with_every_stage() {
    let mut thread = CollectorThread::new(
        QuadrupleGeneratorThread::new(),
        Some(FlowAggrThread::new()),
        Some(Collector::new()),
        Some(Collector::new()),
    );
    assert!(!thread.quadruple_generator.is_running());
    assert_eq!(thread.running_stages(), 0);
    thread.start();
    assert!(thread.quadruple_generator.is_running());
    assert_eq!(thread.running_stages(), 4);
    thread.stop();
    assert!(!thread.quadruple_generator.is_running());
    assert_eq!(thread.running_stages(), 0);
}

#[test]
fn pipeline_without_optional_stages() {
    let mut thread = CollectorThread::new(QuadrupleGeneratorThread::new(), None, None, None);
    thread.start();
    assert!(thread.quadruple_generator.is_running());
    assert_eq!(thread.running_stages(), 1);
    thread.stop();
    assert_eq!(thread.running_stages(), 0);
}

#[test]
fn pipeline_takes_stages_as_they_are() {
    let mut running = Collector::new();
    running.start();
    let mut thread =
        CollectorThread::new(QuadrupleGeneratorThread::new(), None, Some(running), None);
    assert_eq!(thread.running_stages(), 1);
    thread.start();
    assert_eq!(thread.running_stages(), 2);
    thread.stop();
    assert_eq!(thread.running_stages(), 0);
}
