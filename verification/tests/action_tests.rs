use rust_droid::action::{
    KeyeventBuilder, REPEAT_PAUSE_MS, SwipeBuilder, TAP_MAX_DURATION_MS, TextBuilder,
    TouchBuilder, WaitBuilder, pause_after_repeat, touch_primitive_command,
};
use rust_droid::config::DroidConfig;
use rust_droid::geometry::{Point, RelativeRect};
use rust_droid::models::{KeyCode, Target};

#[test]
fn short_touch_is_a_tap() {
    let p = Point { x: 7, y: 9 };
    assert_eq!(touch_primitive_command(p, 100).as_str(), "input tap 7 9");
    assert_eq!(touch_primitive_command(p, 200).as_str(), "input tap 7 9");
}

#[test]
fn long_touch_is_a_hold_in_place() {
    let p = Point { x: 7, y: 9 };
    assert_eq!(touch_primitive_command(p, 201).as_str(), "input swipe 7 9 7 9 201");
    assert_eq!(touch_primitive_command(p, 1500).as_str(), "input swipe 7 9 7 9 1500");
    assert_eq!(TAP_MAX_DURATION_MS, 200);
}

#[test]
fn pause_policy_skips_the_last_repeat() {
    assert!(!pause_after_repeat(0, 1));
    assert!(pause_after_repeat(0, 3));
    assert!(pause_after_repeat(1, 3));
    assert!(!pause_after_repeat(2, 3));
    assert_eq!(REPEAT_PAUSE_MS, 50);
}

#[test]
fn touch_builder_defaults_and_setters() {
    let t = Target::Point(Point { x: 1, y: 2 });
    let b = TouchBuilder::new(t.clone());
    assert_eq!(b.times, 1);
    assert_eq!(b.duration_ms, 100);
    assert_eq!(b.threshold, None);
    assert_eq!(b.search_rect, None);
    assert_eq!(b.target, t);

    let rect = RelativeRect::new(0, 0, 500_000, 500_000);
    let b = b.times(3).duration(400).threshold(900_000).search_in(rect);
    assert_eq!(b.times, 3);
    assert_eq!(b.duration_ms, 400);
    assert_eq!(b.threshold, Some(900_000));
    assert_eq!(b.search_rect, Some(rect));
}

#[test]
fn swipe_builder_defaults_and_setters() {
    let a = Target::Point(Point { x: 1, y: 2 });
    let z = Target::Image(String::from("z.png"));
    let b = SwipeBuilder::new(a.clone(), z.clone());
    assert_eq!(b.duration_ms, 300);
    assert_eq!(b.threshold, None);
    let rect = RelativeRect::new(0, 0, 1_000_000, 500_000);
    let b = b.duration(800).threshold(700_000).search_start_in(rect).search_end_in(rect);
    assert_eq!(b.duration_ms, 800);
    assert_eq!(b.threshold, Some(700_000));
    assert_eq!(b.start_search_rect, Some(rect));
    assert_eq!(b.end_search_rect, Some(rect));
    assert_eq!(b.start, a);
    assert_eq!(b.end, z);
}

#[test]
fn keyevent_builder_repeats() {
    let b = KeyeventBuilder::new(KeyCode::Back);
    assert_eq!(b.times, 1);
    let b = b.times(5);
    assert_eq!(b.times, 5);
    assert_eq!(b.key_code, KeyCode::Back);
}

#[test]
fn text_builder_keeps_the_text() {
    let b = TextBuilder::new("hello world");
    assert_eq!(b.text.as_str(), "hello world");
}

#[test]
fn wait_builder_takes_defaults_from_config() {
    let config = DroidConfig::default();
    let b = WaitBuilder::new(Target::Image(String::from("x.png")), &config);
    assert_eq!(b.timeout_ms, 20_000);
    assert_eq!(b.interval_ms, 500);
    let b = b.timeout(1_000).interval(50).threshold(600_000);
    assert_eq!(b.timeout_ms, 1_000);
    assert_eq!(b.interval_ms, 50);
    assert_eq!(b.threshold, Some(600_000));
}

#[test]
fn effective_threshold_prefers_the_override() {
    let config = DroidConfig::default();
    let b = TouchBuilder::new(Target::Point(Point { x: 0, y: 0 }));
    assert_eq!(b.effective_threshold(&config), 800_000);
    let b = b.threshold(950_000);
    assert_eq!(b.effective_threshold(&config), 950_000);
}

#[test]
fn config_clamps_confidence_into_range() {
    let config = DroidConfig::default().confidence(1_500_000);
    assert_eq!(config.default_confidence, 1_000_000);
    let config = config.confidence(300_000);
    assert_eq!(config.default_confidence, 300_000);
}

#[test]
fn config_setters_accumulate() {
    let config = DroidConfig::default()
        .address(String::from("10.0.0.5:5037"))
        .serial(String::from("emulator-5554"))
        .timeout(60_000)
        .interval(250);
    assert_eq!(config.adb_server_addr.as_str(), "10.0.0.5:5037");
    assert_eq!(config.device_serial.as_deref(), Some("emulator-5554"));
    assert_eq!(config.default_timeout_ms, 60_000);
    assert_eq!(config.default_interval_ms, 250);
    assert_eq!(config.default_confidence, 800_000);
}

#[test]
fn targets_convert_from_points_and_paths() {
    let p = Point { x: 3, y: 4 };
    assert_eq!(Target::from(p), Target::Point(p));
    assert_eq!(
        Target::from(String::from("icon.png")),
        Target::Image(String::from("icon.png"))
    );
}
