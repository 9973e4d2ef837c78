use wfinfo::text::{decimal_string, normalize_string, trim_string};
use wfinfo::triggers::{line_signals_reward_screen, lines_signal_reward_screen, screenshot_file_name};

#[test]
fn normalize_keeps_ascii_letters_only() {
    assert_eq!(normalize_string("Octavia Prime\nBlueprint 2x!"), "OctaviaPrimeBlueprintx");
    assert_eq!(normalize_string("Ärger Ω"), "rger");
    assert_eq!(normalize_string(""), "");
    let once = normalize_string("a-b c");
    assert_eq!(normalize_string(&once), once);
}

#[test]
fn trimming_matches_std() {
    for s in ["  a b  ", "\u{2003}x\u{3000}", "\n\t", "", "q"] {
        assert_eq!(trim_string(s), s.trim());
    }
}

#[test]
fn decimal_notation() {
    assert_eq!(decimal_string(0), "0");
    assert_eq!(decimal_string(304), "304");
    assert_eq!(decimal_string(u64::MAX), u64::MAX.to_string());
}

#[test]
fn reward_screen_lines() {
    assert!(line_signals_reward_screen("123.4 Script [Info]: Pause countdown done"));
    assert!(line_signals_reward_screen("Got rewards"));
    assert!(line_signals_reward_screen(
        "x Created /Lotus/Interface/ProjectionRewardChoice.swf y"
    ));
    assert!(!line_signals_reward_screen("Got reward"));
    let lines = vec!["nothing".to_string(), "Got rewards!".to_string()];
    assert!(lines_signal_reward_screen(&lines));
    assert!(!lines_signal_reward_screen(&vec!["a".to_string()]));
}

#[test]
fn screenshot_names() {
    assert_eq!(
        screenshot_file_name("2026-02-25 22-36-26255760907"),
        "FullScreenShot2026-02-25 22-36-26255760907.png"
    );
}
