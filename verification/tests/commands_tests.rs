use rust_droid::commands::{
    classify_launch_output, contains_str, escape_spaces, keyevent_command, launch_command,
    swipe_command, tap_command, text_command, trim_str,
};
use rust_droid::error::DroidError;
use rust_droid::geometry::Point;
use rust_droid::models::{AppPackages, KeyCode};

#[test]
fn tap_command_text() {
    let s = tap_command(Point { x: 120, y: 70 });
    assert_eq!(s.as_str(), "input tap 120 70");
    let s = tap_command(Point { x: 0, y: 4_294_967_295 });
    assert_eq!(s.as_str(), "input tap 0 4294967295");
}

#[test]
fn swipe_command_text() {
    let s = swipe_command(Point { x: 10, y: 20 }, Point { x: 30, y: 40 }, 300);
    assert_eq!(s.as_str(), "input swipe 10 20 30 40 300");
}

#[test]
fn text_command_escapes_spaces() {
    assert_eq!(text_command("hello world").as_str(), "input text hello%sworld");
    assert_eq!(text_command("a b c").as_str(), "input text a%sb%sc");
    assert_eq!(text_command("nospace").as_str(), "input text nospace");
    assert_eq!(text_command("  ").as_str(), "input text %s%s");
}

#[test]
fn escape_spaces_alone() {
    assert_eq!(escape_spaces("").as_str(), "");
    assert_eq!(escape_spaces(" x ").as_str(), "%sx%s");
}

#[test]
fn keyevent_command_text() {
    assert_eq!(keyevent_command(4).as_str(), "input keyevent 4");
    assert_eq!(keyevent_command(66).as_str(), "input keyevent 66");
}

#[test]
fn key_codes_match_the_device_table() {
    assert_eq!(KeyCode::Home.code(), 3);
    assert_eq!(KeyCode::Back.code(), 4);
    assert_eq!(KeyCode::Enter.code(), 66);
}

#[test]
fn launch_command_text() {
    assert_eq!(
        launch_command("com.android.settings").as_str(),
        "monkey -p com.android.settings -c android.intent.category.LAUNCHER 1"
    );
}

#[test]
fn package_names_are_fixed() {
    assert_eq!(AppPackages::Settings.package_name().as_str(), "com.android.settings");
    assert_eq!(AppPackages::Chrome.package_name().as_str(), "com.android.chrome");
    assert_eq!(AppPackages::Tiktok.package_name().as_str(), "com.zhiliaoapp.musically");
}

#[test]
fn unresolved_intent_is_package_not_found() {
    let out = "Error: Activity not started, Unable to resolve Intent { ... }";
    let r = classify_launch_output("com.example.missing", out);
    assert_eq!(r, Err(DroidError::PackageNotFound(String::from("com.example.missing"))));
}

#[test]
fn no_activities_is_package_not_found() {
    let out = "** No activities found to run, monkey aborted.";
    let r = classify_launch_output("com.example.missing", out);
    assert_eq!(r, Err(DroidError::PackageNotFound(String::from("com.example.missing"))));
}

#[test]
fn aborted_output_is_launch_failure_with_trimmed_output() {
    let out = "  monkey aborted \n";
    let r = classify_launch_output("com.example.app", out);
    assert_eq!(
        r,
        Err(DroidError::AppLaunchFailed {
            package: String::from("com.example.app"),
            output: String::from("monkey aborted"),
        })
    );
}

#[test]
fn generic_error_output_is_launch_failure() {
    let out = "** Error: injection failed";
    let r = classify_launch_output("com.example.app", out);
    assert!(matches!(r, Err(DroidError::AppLaunchFailed { .. })));
}

#[test]
fn quiet_output_is_success() {
    let out = "Events injected: 1\n## Network stats: elapsed time=20ms";
    assert_eq!(classify_launch_output("com.example.app", out), Ok(()));
}

#[test]
fn empty_output_is_success() {
    assert_eq!(classify_launch_output("com.example.app", ""), Ok(()));
}

#[test]
fn contains_str_finds_substrings() {
    assert!(contains_str("hello world", "lo wo"));
    assert!(contains_str("abc", ""));
    assert!(contains_str("abc", "abc"));
    assert!(!contains_str("abc", "abcd"));
    assert!(!contains_str("hello", "world"));
}

#[test]
fn trim_str_strips_both_ends() {
    assert_eq!(trim_str(" \n\t abc \r\n").as_str(), "abc");
    assert_eq!(trim_str("abc").as_str(), "abc");
    assert_eq!(trim_str("   ").as_str(), "");
    assert_eq!(trim_str("").as_str(), "");
    assert_eq!(trim_str("a b").as_str(), "a b");
}

#[test]
fn escaping_preserves_multibyte_characters() {
    assert_eq!(text_command("héllo wörld").as_str(), "input text héllo%swörld");
}
