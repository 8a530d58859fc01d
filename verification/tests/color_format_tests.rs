use worktrunk::error_format::{
    bold, format_error, format_error_with_bold, format_hint, format_warning,
    should_use_color_with_env,
};

#[test]
fn test_should_use_color_force_color() {
    assert!(should_use_color_with_env(false, true, false));
    assert!(should_use_color_with_env(true, true, false));
}

#[test]
fn test_should_use_color_no_color() {
    assert!(!should_use_color_with_env(true, false, true));
    assert!(!should_use_color_with_env(true, false, false));
}

#[test]
fn test_should_use_color_terminal() {
    assert!(should_use_color_with_env(false, false, true));
    assert!(!should_use_color_with_env(false, false, false));
}

#[test]
fn format_error_plain_has_emoji_only() {
    assert_eq!(format_error("boom", false), "\u{274c} boom");
}

#[test]
fn format_error_colored_wraps_in_red() {
    let s = format_error("boom", true);
    assert!(s.starts_with("\u{1b}[31m"));
    assert!(s.contains("\u{274c} boom"));
    assert!(s.ends_with("\u{1b}[0m"));
    assert_ne!(s, format_error("boom", false));
}

#[test]
fn format_warning_colored_wraps_in_yellow() {
    let s = format_warning("careful", true);
    assert!(s.starts_with("\u{1b}[33m"));
    assert!(s.contains("\u{1f7e1} careful"));
    assert_eq!(format_warning("careful", false), "\u{1f7e1} careful");
}

#[test]
fn format_hint_colored_is_dimmed() {
    let s = format_hint("try this", true);
    assert!(s.starts_with("\u{1b}[2m"));
    assert!(s.contains("\u{1f4a1} try this"));
    assert_eq!(format_hint("try this", false), "\u{1f4a1} try this");
}

#[test]
fn bold_colored_and_plain() {
    assert_eq!(bold("x", false), "x");
    let s = bold("x", true);
    assert!(s.starts_with("\u{1b}[1m"));
    assert!(s.ends_with("\u{1b}[0m"));
}

#[test]
fn format_error_with_bold_plain_concatenates() {
    assert_eq!(
        format_error_with_bold("Branch '", "feature-x", "' already exists", false),
        "\u{274c} Branch 'feature-x' already exists"
    );
}

#[test]
fn format_error_with_bold_colored_emphasizes_middle() {
    let s = format_error_with_bold("Branch '", "feature-x", "' already exists", true);
    assert!(s.starts_with("\u{1b}[31m"));
    assert!(s.contains("\u{1b}[1m\u{1b}[31mfeature-x"));
    assert!(s.contains("' already exists"));
}
