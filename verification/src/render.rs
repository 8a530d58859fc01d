//! The list renderer: truncation, cell padding, header and row
//! lines, and the streaming driver that emits them through the
//! output context one line at a time.

use crate::layout::{
    item_label, item_path_cell, spec_layout,
    calculate_responsive_layout, label_string, path_cell_string, Layout,
};
use crate::list::{spec_display_summary, display_summary, ListItem};
use crate::output::OutputContext;
use crate::strings::{
    count_occ, lemma_count_occ_concat, lemma_count_occ_zero, lemma_dec_rep_no_nul, no_nul, spaces,
};
use crate::style::{ansi_prefix, ansi_reset, default_theme, render_prefix, render_reset, st, Theme};
use vstd::prelude::*;

verus! {

/// A string truncated in the middle to exactly `w` characters: a
/// prefix of `s`, one ellipsis, and a suffix of `s`.
pub open spec fn spec_truncate_middle(s: Seq<char>, w: int) -> Seq<char>
    recommends
        w >= 1,
        s.len() > w,
{
    let p = (w - 1) / 2;
    let suf = w - 1 - p;
    s.take(p) + seq!['\u{2026}'] + s.skip(s.len() - suf)
}

/// A string truncated at the end to exactly `w` characters: a prefix
/// of `s` and one ellipsis.
pub open spec fn spec_truncate_end(s: Seq<char>, w: int) -> Seq<char>
    recommends
        w >= 1,
        s.len() > w,
{
    s.take(w - 1) + seq!['\u{2026}']
}

/// Truncate `s` in the middle, keeping a prefix and a suffix around
/// one ellipsis; the result is exactly `w` characters.
pub fn truncate_middle(s: &str, w: usize) -> (r: String)
    requires
        s@.len() > w,
        w >= 1,
    ensures
        r@ == spec_truncate_middle(s@, w as int),
        r@.len() == w,
        no_nul(s@) ==> no_nul(r@),
{
    let n = s.unicode_len();
    let p = (w - 1) / 2;
    let suf = w - 1 - p;
    let mut r = String::new();
    let pre = s.substring_char(0, p);
    r.append(pre);
    r.append("\u{2026}");
    let tail = s.substring_char(n - suf, n);
    r.append(tail);
    proof {
        reveal_strlit("\u{2026}");
        assert("\u{2026}"@ =~= seq!['\u{2026}']);
        assert(s@.subrange(0, p as int) =~= s@.take(p as int));
        assert(s@.subrange(n - suf, n as int) =~= s@.skip(s@.len() - suf));
        assert(r@ =~= spec_truncate_middle(s@, w as int));
    }
    r
}

/// Truncate `s` at the end with one ellipsis; the result is exactly
/// `w` characters.
pub fn truncate_end(s: &str, w: usize) -> (r: String)
    requires
        s@.len() > w,
        w >= 1,
    ensures
        r@ == spec_truncate_end(s@, w as int),
        r@.len() == w,
        no_nul(s@) ==> no_nul(r@),
{
    let mut r = String::new();
    let pre = s.substring_char(0, w - 1);
    r.append(pre);
    r.append("\u{2026}");
    proof {
        reveal_strlit("\u{2026}");
        assert("\u{2026}"@ =~= seq!['\u{2026}']);
        assert(s@.subrange(0, w - 1) =~= s@.take(w - 1));
        assert(r@ =~= spec_truncate_end(s@, w as int));
    }
    r
}

/// A truncated path/stats string holds exactly one ellipsis, with
/// the prefix and suffix of the original around it, provided the
/// original held none.
pub proof fn lemma_truncate_middle_single_ellipsis(s: Seq<char>, w: int)
    requires
        w >= 1,
        s.len() > w,
        count_occ(s, '\u{2026}') == 0,
    ensures
        spec_truncate_middle(s, w).len() == w,
        count_occ(spec_truncate_middle(s, w), '\u{2026}') == 1,
        spec_truncate_middle(s, w).take((w - 1) / 2) == s.take((w - 1) / 2),
        spec_truncate_middle(s, w).skip(w - (w - 1 - (w - 1) / 2)) == s.skip(
            s.len() - (w - 1 - (w - 1) / 2),
        ),
{
    let p = (w - 1) / 2;
    let suf = w - 1 - p;
    let r = spec_truncate_middle(s, w);
    lemma_count_occ_zero(s, '\u{2026}');
    lemma_count_occ_zero(s.take(p), '\u{2026}');
    lemma_count_occ_zero(s.skip(s.len() - suf), '\u{2026}');
    lemma_count_occ_concat(s.take(p), seq!['\u{2026}'], '\u{2026}');
    lemma_count_occ_concat(s.take(p) + seq!['\u{2026}'], s.skip(s.len() - suf), '\u{2026}');
    assert(seq!['\u{2026}'].drop_last() =~= Seq::<char>::empty());
    assert(seq!['\u{2026}'].last() == '\u{2026}');
    assert(count_occ(seq!['\u{2026}'], '\u{2026}') == count_occ(Seq::<char>::empty(), '\u{2026}') + 1);
    assert(r.take(p) =~= s.take(p));
    assert(r.skip(w - suf) =~= s.skip(s.len() - suf));
}

/// A cell cut or padded at the end to exactly `w` characters.
pub open spec fn spec_cell_end(s: Seq<char>, w: int) -> Seq<char> {
    if s.len() > w {
        spec_truncate_end(s, w)
    } else {
        s + Seq::new((w - s.len()) as nat, |i: int| ' ')
    }
}

/// A cell cut in the middle or padded at the end to exactly `w`
/// characters.
pub open spec fn spec_cell_middle(s: Seq<char>, w: int) -> Seq<char> {
    if s.len() > w {
        spec_truncate_middle(s, w)
    } else {
        s + Seq::new((w - s.len()) as nat, |i: int| ' ')
    }
}

/// Fit `s` into a cell of exactly `w` characters, truncating at the
/// end when it is too long.
pub fn cell_end(s: &str, w: usize) -> (r: String)
    requires
        w >= 1,
    ensures
        r@ == spec_cell_end(s@, w as int),
        r@.len() == w,
        no_nul(s@) ==> no_nul(r@),
{
    let n = s.unicode_len();
    if n > w {
        truncate_end(s, w)
    } else {
        let mut r = String::new();
        r.append(s);
        let pad = spaces(w - n);
        r.append(pad.as_str());
        r
    }
}

/// Fit `s` into a cell of exactly `w` characters, truncating in the
/// middle when it is too long.
pub fn cell_middle(s: &str, w: usize) -> (r: String)
    requires
        w >= 1,
    ensures
        r@ == spec_cell_middle(s@, w as int),
        r@.len() == w,
        no_nul(s@) ==> no_nul(r@),
{
    let n = s.unicode_len();
    if n > w {
        truncate_middle(s, w)
    } else {
        let mut r = String::new();
        r.append(s);
        let pad = spaces(w - n);
        r.append(pad.as_str());
        r
    }
}

/// The header line of the table.
pub open spec fn spec_header_line(l: Layout) -> Seq<char> {
    Seq::new(l.marker_w as nat, |i: int| ' ') + "  "@ + spec_cell_end("BRANCH"@, l.branch_w as int)
        + "  "@ + spec_cell_end("PATH"@, l.path_w as int) + (if l.show_ci {
        "  "@ + spec_cell_end("CI"@, l.ci_w as int)
    } else {
        Seq::<char>::empty()
    })
}

/// Format the header line: blank marker cell, then the column
/// headers, each padded to its column width.
pub fn format_header_line(layout: &Layout) -> (r: String)
    requires
        layout.branch_w >= 1,
        layout.path_w >= 1,
        layout.show_ci ==> layout.ci_w >= 1,
    ensures
        r@ == spec_header_line(*layout),
        no_nul(r@),
{
    let mut r = spaces(layout.marker_w);
    r.append("  ");
    let b = cell_end("BRANCH", layout.branch_w);
    r.append(b.as_str());
    r.append("  ");
    let p = cell_end("PATH", layout.path_w);
    r.append(p.as_str());
    if layout.show_ci {
        r.append("  ");
        let c = cell_end("CI", layout.ci_w);
        r.append(c.as_str());
    }
    proof {
        reveal_strlit("  ");
        reveal_strlit("BRANCH");
        reveal_strlit("PATH");
        reveal_strlit("CI");
        assert(r@ =~= spec_header_line(*layout));
    }
    r
}

/// Every text of the item is free of the sentinel character.
pub open spec fn item_clean(item: ListItem) -> bool {
    match item {
        ListItem::WorktreeEntry(info) => no_nul(info.path@) && no_nul(info.branch@) && (match info
            .ci_status {
            Some(ci) => no_nul(ci@),
            None => true,
        }),
        ListItem::BranchEntry(b) => no_nul(b.name@),
    }
}

/// A clean item's derived column texts are sentinel-free too.
pub proof fn lemma_item_texts_no_nul(item: ListItem)
    requires
        item_clean(item),
    ensures
        no_nul(item_label(item)),
        no_nul(item_path_cell(item)),
{
    reveal_strlit(" +");
    reveal_strlit(" -");
    match item {
        ListItem::WorktreeEntry(info) => {
            lemma_dec_rep_no_nul(info.counts.ahead as nat);
            lemma_dec_rep_no_nul(info.counts.behind as nat);
            lemma_dec_rep_no_nul(info.working_tree_diff.0 as nat);
            lemma_dec_rep_no_nul(info.working_tree_diff.1 as nat);
        },
        ListItem::BranchEntry(b) => {
            lemma_dec_rep_no_nul(b.counts.ahead as nat);
            lemma_dec_rep_no_nul(b.counts.behind as nat);
        },
    }
}

/// The view of an optional current path.
pub open spec fn opt_path_view(p: Option<&String>) -> Option<Seq<char>> {
    match p {
        Some(s) => Some(s@),
        None => None,
    }
}

/// Whether the item is the worktree the user currently stands in,
/// under comparison of the (already canonicalized) path strings.
pub open spec fn is_current(item: ListItem, current: Option<Seq<char>>) -> bool {
    match (item, current) {
        (ListItem::WorktreeEntry(info), Some(p)) => info.path@ == p,
        _ => false,
    }
}

/// The CI cell text of an item.
pub open spec fn item_ci_text(item: ListItem) -> Seq<char> {
    match item {
        ListItem::WorktreeEntry(info) => match info.ci_status {
            Some(ci) => ci@,
            None => Seq::<char>::empty(),
        },
        ListItem::BranchEntry(_) => Seq::<char>::empty(),
    }
}

/// The unstyled body of one table row.
pub open spec fn spec_row_core(item: ListItem, l: Layout, current: Option<Seq<char>>) -> Seq<
    char,
> {
    (if is_current(item, current) {
        "* "@
    } else {
        "  "@
    }) + "  "@ + spec_cell_end(item_label(item), l.branch_w as int) + "  "@ + spec_cell_middle(
        item_path_cell(item),
        l.path_w as int,
    ) + (if l.show_ci {
        "  "@ + spec_cell_end(item_ci_text(item), l.ci_w as int)
    } else {
        Seq::<char>::empty()
    })
}

/// One table row: the row body, highlighted when it is the current
/// worktree and color is on.
pub open spec fn spec_row_line(
    item: ListItem,
    l: Layout,
    current: Option<Seq<char>>,
    use_color: bool,
) -> Seq<char> {
    if use_color && is_current(item, current) {
        st(default_theme().current, spec_row_core(item, l, current))
    } else {
        spec_row_core(item, l, current)
    }
}

/// Format one row of the listing: marker, branch, path/stats, and CI
/// cells, each at its column width, highlighted when the row is the
/// current worktree.
#[verifier::rlimit(60)]
pub fn format_list_item_line(
    item: &ListItem,
    layout: &Layout,
    current_path: Option<&String>,
    use_color: bool,
) -> (r: String)
    requires
        layout.branch_w >= 1,
        layout.path_w >= 1,
        layout.show_ci ==> layout.ci_w >= 1,
    ensures
        r@ == spec_row_line(*item, *layout, opt_path_view(current_path), use_color),
        item_clean(*item) ==> no_nul(r@),
{
    proof {
        reveal_strlit("* ");
        reveal_strlit("  ");
        reveal_strlit("");
        if item_clean(*item) {
            lemma_item_texts_no_nul(*item);
        }
    }
    let here = match (item, current_path) {
        (ListItem::WorktreeEntry(info), Some(p)) => info.path == *p,
        _ => false,
    };
    let mut body = String::new();
    if here {
        body.append("* ");
    } else {
        body.append("  ");
    }
    body.append("  ");
    let lbl = label_string(item);
    let bcell = cell_end(lbl.as_str(), layout.branch_w);
    body.append(bcell.as_str());
    body.append("  ");
    let pc = path_cell_string(item);
    let pcell = cell_middle(pc.as_str(), layout.path_w);
    body.append(pcell.as_str());
    if layout.show_ci {
        body.append("  ");
        let ci: &str = match item {
            ListItem::WorktreeEntry(info) => match &info.ci_status {
                Some(ci) => ci.as_str(),
                None => "",
            },
            ListItem::BranchEntry(_) => "",
        };
        let ccell = cell_end(ci, layout.ci_w);
        body.append(ccell.as_str());
    }
    assert(body@ =~= spec_row_core(*item, *layout, opt_path_view(current_path)));
    if use_color && here {
        let th = Theme::new();
        let styled = crate::style::styled_run(&th.current, body.as_str());
        styled
    } else {
        body
    }
}

/// A block of lines, each followed by one newline.
pub open spec fn lines_block(lines: Seq<Seq<char>>) -> Seq<char>
    decreases lines.len(),
{
    if lines.len() == 0 {
        Seq::<char>::empty()
    } else {
        lines_block(lines.drop_last()) + lines.last() + seq!['\n']
    }
}

/// The first `n` table rows, each followed by one newline.
pub open spec fn rows_block(
    items: Seq<ListItem>,
    l: Layout,
    current: Option<Seq<char>>,
    use_color: bool,
    n: int,
) -> Seq<char>
    decreases n,
{
    if n <= 0 {
        Seq::<char>::empty()
    } else {
        rows_block(items, l, current, use_color, n - 1) + spec_row_line(
            items[n - 1],
            l,
            current,
            use_color,
        ) + seq!['\n']
    }
}

/// The full table output: for an empty listing only the hint lines
/// and zero rows; otherwise the header, one row per item in order,
/// and the summary lines.
pub open spec fn spec_render_list(
    items: Seq<ListItem>,
    include_branches: bool,
    tw: int,
    current: Option<Seq<char>>,
    use_color: bool,
) -> Seq<char> {
    if items.len() == 0 {
        lines_block(spec_display_summary(items, include_branches, use_color))
    } else {
        let l = spec_layout(items, tw);
        spec_header_line(l) + seq!['\n'] + rows_block(
            items,
            l,
            current,
            use_color,
            items.len() as int,
        ) + lines_block(spec_display_summary(items, include_branches, use_color))
    }
}

/// Render the whole listing through the output context, one line at
/// a time: header, rows in enumeration order, then the summary. An
/// empty listing yields no header and no rows, only the hints.
pub fn render_list(
    ctx: &mut OutputContext,
    items: &Vec<ListItem>,
    include_branches: bool,
    terminal_width: usize,
    current_path: Option<&String>,
    use_color: bool,
)
    requires
        old(ctx).wf(),
        !old(ctx).terminated,
        forall|i: int| 0 <= i < items@.len() ==> item_clean(#[trigger] items@[i]),
    ensures
        final(ctx).wf(),
        final(ctx).mode == old(ctx).mode,
        final(ctx).terminated == old(ctx).terminated,
        final(ctx).stream() == old(ctx).stream() + spec_render_list(
            items@,
            include_branches,
            terminal_width as int,
            opt_path_view(current_path),
            use_color,
        ),
{
    let ghost start = ctx.stream();
    if items.len() > 0 {
        let layout = calculate_responsive_layout(items, terminal_width);
        let header = format_header_line(&layout);
        ctx.emit_line(header.as_str());
        let ghost current = opt_path_view(current_path);
        let mut i: usize = 0;
        while i < items.len()
            invariant
                0 <= i <= items@.len(),
                items@.len() > 0,
                forall|j: int| 0 <= j < items@.len() ==> item_clean(#[trigger] items@[j]),
                layout == spec_layout(items@, terminal_width as int),
                layout.branch_w >= 1,
                layout.path_w >= 1,
                layout.show_ci ==> layout.ci_w >= 1,
                ctx.wf(),
                !ctx.terminated,
                ctx.mode == old(ctx).mode,
                current == opt_path_view(current_path),
                ctx.stream() == start + spec_header_line(layout) + seq!['\n'] + rows_block(
                    items@,
                    layout,
                    current,
                    use_color,
                    i as int,
                ),
            decreases items@.len() - i,
        {
            let row = format_list_item_line(&items[i], &layout, current_path, use_color);
            ctx.emit_line(row.as_str());
            i = i + 1;
            assert(ctx.stream() =~= start + spec_header_line(layout) + seq!['\n'] + rows_block(
                items@,
                layout,
                current,
                use_color,
                i as int,
            ));
        }
    }
    let summary = display_summary(items, include_branches, use_color);
    proof {
        crate::list::lemma_summary_lines_no_nul(items@, include_branches, use_color);
    }
    let ghost mid = ctx.stream();
    let mut j: usize = 0;
    while j < summary.len()
        invariant
            0 <= j <= summary@.len(),
            summary.deep_view() == spec_display_summary(items@, include_branches, use_color),
            summary.deep_view().len() == summary@.len(),
            forall|k: int| 0 <= k < summary@.len() ==> summary.deep_view()[k] == summary@[k]@,
            forall|k: int|
                0 <= k < summary.deep_view().len() ==> crate::strings::no_nul(
                    #[trigger] summary.deep_view()[k],
                ),
            ctx.wf(),
            !ctx.terminated,
            ctx.mode == old(ctx).mode,
            ctx.stream() == mid + lines_block(summary.deep_view().take(j as int)),
        decreases summary@.len() - j,
    {
        proof {
            assert(lines_block(summary.deep_view().take(0int)) =~= Seq::<char>::empty());
        }
        ctx.emit_line(summary[j].as_str());
        j = j + 1;
        proof {
            assert(summary.deep_view().take(j as int).drop_last() =~= summary.deep_view().take(
                j - 1,
            ));
            assert(ctx.stream() =~= mid + lines_block(summary.deep_view().take(j as int)));
        }
    }
    proof {
        assert(summary.deep_view().take(summary@.len() as int) =~= summary.deep_view());
        assert(lines_block(summary.deep_view().take(0int)) =~= Seq::<char>::empty());
        assert(final(ctx).stream() =~= old(ctx).stream() + spec_render_list(
            items@,
            include_branches,
            terminal_width as int,
            opt_path_view(current_path),
            use_color,
        ));
    }
}

} // verus!
