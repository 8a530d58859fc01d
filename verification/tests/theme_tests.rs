use worktrunk::style::{FgColor, Theme};

#[test]
fn test_theme_creation() {
    let theme = Theme::new();
    let _ = theme.error;
    let _ = theme.primary;
}

#[test]
fn test_theme_default() {
    let theme = Theme::default();
    let _ = theme.warning;
}

#[test]
fn theme_roles_carry_expected_colors() {
    let theme = Theme::new();
    assert_eq!(theme.error.fg, Some(FgColor::Red));
    assert!(!theme.error.bold);
    assert_eq!(theme.success.fg, Some(FgColor::Green));
    assert!(theme.hint.dimmed);
    assert!(theme.error_bold.bold);
    assert_eq!(theme.error_bold.fg, Some(FgColor::Red));
    assert_eq!(theme.current.fg, Some(FgColor::Magenta));
    assert!(theme.current.bold);
}

#[test]
fn styles_render_to_exact_escapes_in_messages() {
    assert_eq!(
        worktrunk::error_format::format_error("m", true),
        "\u{1b}[31m\u{274c} m\u{1b}[0m"
    );
    assert_eq!(
        worktrunk::error_format::format_hint("h", true),
        "\u{1b}[2m\u{1f4a1} h\u{1b}[0m"
    );
    assert_eq!(worktrunk::error_format::bold("b", true), "\u{1b}[1mb\u{1b}[0m");
    assert_eq!(
        worktrunk::error_format::format_error_with_bold("a", "b", "c", true),
        "\u{1b}[31m\u{274c} a\u{1b}[1m\u{1b}[31mb\u{1b}[31mc\u{1b}[0m"
    );
}
