//! Themed message formatting: errors, warnings, hints, and emphasis,
//! plus the color-on/off decision.

use crate::strings::no_nul;
use crate::style::{ansi_prefix, ansi_reset, default_theme, render_prefix, render_reset, Theme};
use vstd::prelude::*;

verus! {

/// The color decision: force wins over disable, disable wins over the
/// terminal default.
pub open spec fn color_decision(no_color: bool, force_color: bool, is_terminal: bool) -> bool {
    force_color || (!no_color && is_terminal)
}

/// Determines if colored output should be used, from the environment
/// signals and the terminal state.
pub fn should_use_color_with_env(no_color: bool, force_color: bool, is_terminal: bool) -> (r:
    bool)
    ensures
        r == color_decision(no_color, force_color, is_terminal),
{
    if force_color {
        return true;
    }
    if no_color {
        return false;
    }
    is_terminal
}

/// The error message view: red when colored, always with the error
/// emoji in front.
pub open spec fn spec_format_error(msg: Seq<char>, use_color: bool) -> Seq<char> {
    if use_color {
        ansi_prefix(default_theme().error) + "\u{274c} "@ + msg + ansi_reset(
            default_theme().error,
        )
    } else {
        "\u{274c} "@ + msg
    }
}

/// Format an error message with red color and an error emoji.
pub fn format_error(msg: &str, use_color: bool) -> (r: String)
    ensures
        r@ == spec_format_error(msg@, use_color),
        no_nul(msg@) ==> no_nul(r@),
{
    proof {
        reveal_strlit("\u{274c} ");
    }
    if use_color {
        let theme = Theme::new();
        let mut r = render_prefix(&theme.error);
        r.append("\u{274c} ");
        r.append(msg);
        let reset = render_reset(&theme.error);
        r.append(reset.as_str());
        assert(r@ =~= spec_format_error(msg@, true));
        r
    } else {
        let mut r = String::new();
        r.append("\u{274c} ");
        r.append(msg);
        assert(r@ =~= spec_format_error(msg@, false));
        r
    }
}

/// The warning message view: yellow when colored, with the warning
/// emoji in front.
pub open spec fn spec_format_warning(msg: Seq<char>, use_color: bool) -> Seq<char> {
    if use_color {
        ansi_prefix(default_theme().warning) + "\u{1f7e1} "@ + msg + ansi_reset(
            default_theme().warning,
        )
    } else {
        "\u{1f7e1} "@ + msg
    }
}

/// Format a warning message with yellow color and a warning emoji.
pub fn format_warning(msg: &str, use_color: bool) -> (r: String)
    ensures
        r@ == spec_format_warning(msg@, use_color),
        no_nul(msg@) ==> no_nul(r@),
{
    proof {
        reveal_strlit("\u{1f7e1} ");
    }
    if use_color {
        let theme = Theme::new();
        let mut r = render_prefix(&theme.warning);
        r.append("\u{1f7e1} ");
        r.append(msg);
        let reset = render_reset(&theme.warning);
        r.append(reset.as_str());
        assert(r@ =~= spec_format_warning(msg@, true));
        r
    } else {
        let mut r = String::new();
        r.append("\u{1f7e1} ");
        r.append(msg);
        assert(r@ =~= spec_format_warning(msg@, false));
        r
    }
}

/// The hint message view: dimmed when colored, with the hint emoji in
/// front.
pub open spec fn spec_format_hint(msg: Seq<char>, use_color: bool) -> Seq<char> {
    if use_color {
        ansi_prefix(default_theme().hint) + "\u{1f4a1} "@ + msg + ansi_reset(default_theme().hint)
    } else {
        "\u{1f4a1} "@ + msg
    }
}

/// Format a hint message with dim color and a hint emoji.
pub fn format_hint(msg: &str, use_color: bool) -> (r: String)
    ensures
        r@ == spec_format_hint(msg@, use_color),
        no_nul(msg@) ==> no_nul(r@),
{
    proof {
        reveal_strlit("\u{1f4a1} ");
    }
    if use_color {
        let theme = Theme::new();
        let mut r = render_prefix(&theme.hint);
        r.append("\u{1f4a1} ");
        r.append(msg);
        let reset = render_reset(&theme.hint);
        r.append(reset.as_str());
        assert(r@ =~= spec_format_hint(msg@, true));
        r
    } else {
        let mut r = String::new();
        r.append("\u{1f4a1} ");
        r.append(msg);
        assert(r@ =~= spec_format_hint(msg@, false));
        r
    }
}

/// The bold text view: wrapped in the bold escape when colored,
/// unchanged otherwise.
pub open spec fn spec_bold(text: Seq<char>, use_color: bool) -> Seq<char> {
    if use_color {
        ansi_prefix(default_theme().bold) + text + ansi_reset(default_theme().bold)
    } else {
        text
    }
}

/// Format text with bold styling.
pub fn bold(text: &str, use_color: bool) -> (r: String)
    ensures
        r@ == spec_bold(text@, use_color),
        no_nul(text@) ==> no_nul(r@),
{
    if use_color {
        let theme = Theme::new();
        let mut r = render_prefix(&theme.bold);
        r.append(text);
        let reset = render_reset(&theme.bold);
        r.append(reset.as_str());
        assert(r@ =~= spec_bold(text@, true));
        r
    } else {
        let mut r = String::new();
        r.append(text);
        r
    }
}

/// The emphasized error view: the emphasized part switches to bold red
/// and back to regular red before the suffix.
pub open spec fn spec_format_error_with_bold(
    prefix: Seq<char>,
    emphasized: Seq<char>,
    suffix: Seq<char>,
    use_color: bool,
) -> Seq<char> {
    if use_color {
        ansi_prefix(default_theme().error) + "\u{274c} "@ + prefix + ansi_prefix(
            default_theme().error_bold,
        ) + emphasized + ansi_prefix(default_theme().error) + suffix + ansi_reset(
            default_theme().error,
        )
    } else {
        "\u{274c} "@ + prefix + emphasized + suffix
    }
}

/// Format an error message with bold emphasis on a specific part.
pub fn format_error_with_bold(prefix: &str, emphasized: &str, suffix: &str, use_color: bool) -> (r:
    String)
    ensures
        r@ == spec_format_error_with_bold(prefix@, emphasized@, suffix@, use_color),
        no_nul(prefix@) && no_nul(emphasized@) && no_nul(suffix@) ==> no_nul(r@),
{
    proof {
        reveal_strlit("\u{274c} ");
    }
    if use_color {
        let theme = Theme::new();
        let mut r = render_prefix(&theme.error);
        r.append("\u{274c} ");
        r.append(prefix);
        let emph = render_prefix(&theme.error_bold);
        r.append(emph.as_str());
        r.append(emphasized);
        let back = render_prefix(&theme.error);
        r.append(back.as_str());
        r.append(suffix);
        let reset = render_reset(&theme.error);
        r.append(reset.as_str());
        assert(r@ =~= spec_format_error_with_bold(prefix@, emphasized@, suffix@, true));
        r
    } else {
        let mut r = String::new();
        r.append("\u{274c} ");
        r.append(prefix);
        r.append(emphasized);
        r.append(suffix);
        assert(r@ =~= spec_format_error_with_bold(prefix@, emphasized@, suffix@, false));
        r
    }
}

} // verus!
