//! Terminal styles as plain data, and the theme that maps semantic
//! roles to styles.
//!
//! A [`Style`] records a foreground color and the bold/dimmed effects.
//! Turning a style into its ANSI escape sequence is delegated to the
//! `anstyle` crate; the sequences it produces are short ASCII
//! constants, so the wrappers' contracts state them exactly.

use crate::strings::no_nul;
use anstyle::{AnsiColor, Color};
use vstd::prelude::*;

verus! {

/// The ANSI foreground colors the theme uses.
#[derive(Clone, Copy, Debug, PartialEq, Eq, Structural)]
pub enum FgColor {
    Red,
    Green,
    Yellow,
    Magenta,
    Cyan,
}

/// A renderable terminal style: an optional foreground color plus the
/// bold and dimmed effects.
#[derive(Clone, Copy, Debug)]
pub struct Style {
    pub fg: Option<FgColor>,
    pub bold: bool,
    pub dimmed: bool,
}

/// The escape that turns on the bold effect.
pub open spec fn esc_bold() -> Seq<char> {
    seq!['\u{1b}', '[', '1', 'm']
}

/// The escape that turns on the dimmed effect.
pub open spec fn esc_dimmed() -> Seq<char> {
    seq!['\u{1b}', '[', '2', 'm']
}

/// The final digit of the foreground escape for `c`.
pub open spec fn fg_code_char(c: FgColor) -> char {
    match c {
        FgColor::Red => '1',
        FgColor::Green => '2',
        FgColor::Yellow => '3',
        FgColor::Magenta => '5',
        FgColor::Cyan => '6',
    }
}

/// The escape that sets the foreground color `c`.
pub open spec fn esc_fg(c: FgColor) -> Seq<char> {
    seq!['\u{1b}', '[', '3', fg_code_char(c), 'm']
}

/// The escape prefix rendered for `s`: the bold escape, then the
/// dimmed escape, then the foreground escape, each only when present.
pub open spec fn ansi_prefix(s: Style) -> Seq<char> {
    (if s.bold {
        esc_bold()
    } else {
        Seq::<char>::empty()
    }) + (if s.dimmed {
        esc_dimmed()
    } else {
        Seq::<char>::empty()
    }) + (match s.fg {
        Some(c) => esc_fg(c),
        None => Seq::<char>::empty(),
    })
}

/// A style with no color and no effects renders to nothing.
pub open spec fn is_plain(s: Style) -> bool {
    s.fg is None && !s.bold && !s.dimmed
}

/// The reset escape rendered after `s`, elided for a plain style.
pub open spec fn ansi_reset(s: Style) -> Seq<char> {
    if is_plain(s) {
        Seq::<char>::empty()
    } else {
        seq!['\u{1b}', '[', '0', 'm']
    }
}

/// A body wrapped in a style: escape prefix, body, reset.
pub open spec fn st(s: Style, body: Seq<char>) -> Seq<char> {
    ansi_prefix(s) + body + ansi_reset(s)
}

/// The escape prefix of `s` when color is on, nothing when off.
pub open spec fn pre_if(use_color: bool, s: Style) -> Seq<char> {
    if use_color {
        ansi_prefix(s)
    } else {
        Seq::<char>::empty()
    }
}

/// The reset escape of `s` when color is on, nothing when off.
pub open spec fn rst_if(use_color: bool, s: Style) -> Seq<char> {
    if use_color {
        ansi_reset(s)
    } else {
        Seq::<char>::empty()
    }
}

/// A body wrapped in a style when color is on, the bare body when
/// off.
pub open spec fn st_if(use_color: bool, s: Style, body: Seq<char>) -> Seq<char> {
    pre_if(use_color, s) + body + rst_if(use_color, s)
}

/// Neither the prefix nor the reset escape of a style contains the
/// sentinel byte, so styled text stays sentinel-free.
pub proof fn lemma_style_no_nul(s: Style)
    ensures
        no_nul(ansi_prefix(s)),
        no_nul(ansi_reset(s)),
{
}

/// Relies on `anstyle::Style::render`: the escape prefix is the effect
/// escapes in declaration order (bold, dimmed) followed by the
/// foreground escape, each a short ASCII constant.
#[verifier::external_body]
pub(crate) fn render_prefix(s: &Style) -> (r: String)
    ensures
        r@ == ansi_prefix(*s),
{
    let mut st = anstyle::Style::new();
    if s.bold { st = st.bold(); }
    if s.dimmed { st = st.dimmed(); }
    st = match s.fg {
        None => st,
        Some(FgColor::Red) => st.fg_color(Some(Color::Ansi(AnsiColor::Red))),
        Some(FgColor::Green) => st.fg_color(Some(Color::Ansi(AnsiColor::Green))),
        Some(FgColor::Yellow) => st.fg_color(Some(Color::Ansi(AnsiColor::Yellow))),
        Some(FgColor::Magenta) => st.fg_color(Some(Color::Ansi(AnsiColor::Magenta))),
        Some(FgColor::Cyan) => st.fg_color(Some(Color::Ansi(AnsiColor::Cyan))),
    };
    format!("{}", st.render())
}

/// Relies on `anstyle::Style::render_reset`: the reset escape
/// `ESC [ 0 m`, elided when the style is plain.
#[verifier::external_body]
pub(crate) fn render_reset(s: &Style) -> (r: String)
    ensures
        r@ == ansi_reset(*s),
{
    let mut st = anstyle::Style::new();
    if s.bold { st = st.bold(); }
    if s.dimmed { st = st.dimmed(); }
    st = match s.fg {
        None => st,
        Some(FgColor::Red) => st.fg_color(Some(Color::Ansi(AnsiColor::Red))),
        Some(FgColor::Green) => st.fg_color(Some(Color::Ansi(AnsiColor::Green))),
        Some(FgColor::Yellow) => st.fg_color(Some(Color::Ansi(AnsiColor::Yellow))),
        Some(FgColor::Magenta) => st.fg_color(Some(Color::Ansi(AnsiColor::Magenta))),
        Some(FgColor::Cyan) => st.fg_color(Some(Color::Ansi(AnsiColor::Cyan))),
    };
    format!("{:#}", st)
}

/// A styled run: escape prefix, the text, reset.
pub(crate) fn styled_run(style: &Style, text: &str) -> (r: String)
    ensures
        r@ == st(*style, text@),
{
    let mut r = render_prefix(style);
    r.append(text);
    let reset = render_reset(style);
    r.append(reset.as_str());
    r
}

/// The escape prefix of `style`, or nothing when color is off.
pub(crate) fn prefix_str(use_color: bool, style: &Style) -> (r: String)
    ensures
        r@ == pre_if(use_color, *style),
{
    if use_color {
        render_prefix(style)
    } else {
        let r = String::new();
        r
    }
}

/// The reset escape of `style`, or nothing when color is off.
pub(crate) fn reset_str(use_color: bool, style: &Style) -> (r: String)
    ensures
        r@ == rst_if(use_color, *style),
{
    if use_color {
        render_reset(style)
    } else {
        let r = String::new();
        r
    }
}

/// A styled run when color is on, the bare text when off.
pub(crate) fn styled_run_if(use_color: bool, style: &Style, text: &str) -> (r: String)
    ensures
        r@ == st_if(use_color, *style, text@),
{
    let mut r = prefix_str(use_color, style);
    r.append(text);
    let reset = reset_str(use_color, style);
    r.append(reset.as_str());
    r
}

/// Centralized theme: maps semantic roles to styles.
#[derive(Clone, Copy, Debug)]
pub struct Theme {
    pub error: Style,
    pub warning: Style,
    pub hint: Style,
    pub success: Style,
    pub bold: Style,
    pub dim: Style,
    pub error_bold: Style,
    pub primary: Style,
    pub current: Style,
    pub addition: Style,
    pub deletion: Style,
    pub neutral: Style,
}

/// The theme with the default color assignments.
pub open spec fn default_theme() -> Theme {
    Theme {
        error: Style { fg: Some(FgColor::Red), bold: false, dimmed: false },
        warning: Style { fg: Some(FgColor::Yellow), bold: false, dimmed: false },
        hint: Style { fg: None, bold: false, dimmed: true },
        success: Style { fg: Some(FgColor::Green), bold: false, dimmed: false },
        bold: Style { fg: None, bold: true, dimmed: false },
        dim: Style { fg: None, bold: false, dimmed: true },
        error_bold: Style { fg: Some(FgColor::Red), bold: true, dimmed: false },
        primary: Style { fg: Some(FgColor::Cyan), bold: false, dimmed: false },
        current: Style { fg: Some(FgColor::Magenta), bold: true, dimmed: false },
        addition: Style { fg: Some(FgColor::Green), bold: false, dimmed: false },
        deletion: Style { fg: Some(FgColor::Red), bold: false, dimmed: false },
        neutral: Style { fg: Some(FgColor::Yellow), bold: false, dimmed: false },
    }
}

impl Theme {
    /// Create a new theme with the default colors.
    pub fn new() -> (t: Theme)
        ensures
            t == default_theme(),
    {
        Theme {
            error: Style { fg: Some(FgColor::Red), bold: false, dimmed: false },
            warning: Style { fg: Some(FgColor::Yellow), bold: false, dimmed: false },
            hint: Style { fg: None, bold: false, dimmed: true },
            success: Style { fg: Some(FgColor::Green), bold: false, dimmed: false },
            bold: Style { fg: None, bold: true, dimmed: false },
            dim: Style { fg: None, bold: false, dimmed: true },
            error_bold: Style { fg: Some(FgColor::Red), bold: true, dimmed: false },
            primary: Style { fg: Some(FgColor::Cyan), bold: false, dimmed: false },
            current: Style { fg: Some(FgColor::Magenta), bold: true, dimmed: false },
            addition: Style { fg: Some(FgColor::Green), bold: false, dimmed: false },
            deletion: Style { fg: Some(FgColor::Red), bold: false, dimmed: false },
            neutral: Style { fg: Some(FgColor::Yellow), bold: false, dimmed: false },
        }
    }
}

impl Default for Theme {
    fn default() -> (t: Theme)
        ensures
            t == default_theme(),
    {
        Theme::new()
    }
}

} // verus!
