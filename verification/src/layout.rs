//! The responsive layout engine: computes column widths and the
//! truncation plan for the listing table.
//!
//! Widths are counted in characters (Unicode scalar values; a
//! double-width East-Asian character counts as one). The natural
//! width of a column is
//! the widest cell it would ever show (its header included); when the
//! naturals do not fit the terminal, the path/stats column shrinks
//! first (down to its floor), then the branch column. The marker and
//! CI-status columns are fixed and never shrink.

use crate::list::{spec_counts, ListItem};
use crate::strings::{dec_rep, u32_to_string, usize_to_string};
use vstd::prelude::*;

verus! {

/// Width of the current-worktree marker column.
pub const MARKER_W: usize = 2;

/// Width of the separator between adjacent columns.
pub const SEP_W: usize = 2;

/// The branch column never shrinks below this width.
pub const BRANCH_MIN: usize = 8;

/// The path/stats column never shrinks below this width.
pub const PATH_MIN: usize = 12;

/// The branch-column text of an item: its name, then signed markers
/// for non-zero ahead/behind counts.
pub open spec fn item_label(item: ListItem) -> Seq<char> {
    let name = match item {
        ListItem::WorktreeEntry(info) => info.branch@,
        ListItem::BranchEntry(b) => b.name@,
    };
    let c = spec_counts(item);
    name + (if c.ahead > 0 {
        " +"@ + dec_rep(c.ahead as nat)
    } else {
        Seq::<char>::empty()
    }) + (if c.behind > 0 {
        " -"@ + dec_rep(c.behind as nat)
    } else {
        Seq::<char>::empty()
    })
}

/// The path/stats-column text of an item: the worktree path, then a
/// dirty indicator with the added/deleted counts; empty for a plain
/// branch.
pub open spec fn item_path_cell(item: ListItem) -> Seq<char> {
    match item {
        ListItem::WorktreeEntry(info) => info.path@ + (if info.working_tree_diff.0 > 0
            || info.working_tree_diff.1 > 0 {
            " +"@ + dec_rep(info.working_tree_diff.0 as nat) + " -"@ + dec_rep(
                info.working_tree_diff.1 as nat,
            )
        } else {
            Seq::<char>::empty()
        }),
        ListItem::BranchEntry(_) => Seq::<char>::empty(),
    }
}

/// The CI-status text of an item, empty when absent.
pub open spec fn item_ci_len(item: ListItem) -> int {
    match item {
        ListItem::WorktreeEntry(info) => match info.ci_status {
            Some(ci) => ci@.len() as int,
            None => 0,
        },
        ListItem::BranchEntry(_) => 0,
    }
}

/// Whether an item carries a CI status.
pub open spec fn item_has_ci(item: ListItem) -> bool {
    item matches ListItem::WorktreeEntry(info) && info.ci_status is Some
}

/// The widest branch-column text among the first `n` items.
pub open spec fn max_label_len(items: Seq<ListItem>, n: int) -> int
    decreases n,
{
    if n <= 0 {
        0
    } else {
        let prev = max_label_len(items, n - 1);
        let cur = item_label(items[n - 1]).len() as int;
        if cur > prev {
            cur
        } else {
            prev
        }
    }
}

/// The widest path-column text among the first `n` items.
pub open spec fn max_path_len(items: Seq<ListItem>, n: int) -> int
    decreases n,
{
    if n <= 0 {
        0
    } else {
        let prev = max_path_len(items, n - 1);
        let cur = item_path_cell(items[n - 1]).len() as int;
        if cur > prev {
            cur
        } else {
            prev
        }
    }
}

/// The widest CI-status text among the first `n` items.
pub open spec fn max_ci_len(items: Seq<ListItem>, n: int) -> int
    decreases n,
{
    if n <= 0 {
        0
    } else {
        let prev = max_ci_len(items, n - 1);
        let cur = item_ci_len(items[n - 1]);
        if cur > prev {
            cur
        } else {
            prev
        }
    }
}

/// Whether any of the first `n` items carries a CI status.
pub open spec fn any_ci(items: Seq<ListItem>, n: int) -> bool
    decreases n,
{
    if n <= 0 {
        false
    } else {
        any_ci(items, n - 1) || item_has_ci(items[n - 1])
    }
}

/// The natural branch-column width: the widest label, but never
/// narrower than the column header.
pub open spec fn natural_branch(items: Seq<ListItem>) -> int {
    let raw = max_label_len(items, items.len() as int);
    if raw < 6 {
        6
    } else {
        raw
    }
}

/// The natural path-column width: the widest cell, but never narrower
/// than the column header.
pub open spec fn natural_path(items: Seq<ListItem>) -> int {
    let raw = max_path_len(items, items.len() as int);
    if raw < 4 {
        4
    } else {
        raw
    }
}

/// The CI column width: fixed to its widest cell (or header) when the
/// column is shown at all, zero otherwise.
pub open spec fn ci_width(items: Seq<ListItem>) -> int {
    if any_ci(items, items.len() as int) {
        let raw = max_ci_len(items, items.len() as int);
        if raw < 2 {
            2
        } else {
            raw
        }
    } else {
        0
    }
}

/// Total separator width: one separator between each pair of adjacent
/// visible columns.
pub open spec fn sep_total(show_ci: bool) -> int {
    if show_ci {
        3 * SEP_W
    } else {
        2 * SEP_W
    }
}

/// The full line width of a layout with the given column widths.
pub open spec fn total_of(bw: int, pw: int, cw: int, show_ci: bool) -> int {
    MARKER_W + bw + pw + cw + sep_total(show_ci)
}

/// Shrink a column of natural width `nat_w` by `slack`, but never
/// below its floor `min_w`; a column already at or under the floor
/// keeps its natural width.
pub open spec fn shrink(nat_w: int, min_w: int, slack: int) -> int {
    if nat_w <= min_w {
        nat_w
    } else if nat_w - slack >= min_w {
        nat_w - slack
    } else {
        min_w
    }
}

/// The computed table layout: column widths and which columns are
/// visible.
#[derive(Clone, Copy, Debug, PartialEq, Eq, Structural)]
pub struct Layout {
    pub marker_w: usize,
    pub branch_w: usize,
    pub path_w: usize,
    pub ci_w: usize,
    pub show_ci: bool,
}

/// The layout for an item set and a terminal width: natural widths
/// when they fit, else the path column shrinks first, then the branch
/// column.
pub open spec fn spec_layout(items: Seq<ListItem>, tw: int) -> Layout {
    let bn = natural_branch(items);
    let pn = natural_path(items);
    let cw = ci_width(items);
    let show = any_ci(items, items.len() as int);
    let t0 = total_of(bn, pn, cw, show);
    if t0 <= tw {
        Layout {
            marker_w: MARKER_W,
            branch_w: bn as usize,
            path_w: pn as usize,
            ci_w: cw as usize,
            show_ci: show,
        }
    } else {
        let pw = shrink(pn, PATH_MIN as int, t0 - tw);
        let t1 = t0 - pn + pw;
        let bw = if t1 <= tw {
            bn
        } else {
            shrink(bn, BRANCH_MIN as int, t1 - tw)
        };
        Layout {
            marker_w: MARKER_W,
            branch_w: bw as usize,
            path_w: pw as usize,
            ci_w: cw as usize,
            show_ci: show,
        }
    }
}

/// The full line width a layout occupies, separators included.
pub open spec fn layout_total(l: Layout) -> int {
    l.marker_w + l.branch_w + l.path_w + l.ci_w + sep_total(l.show_ci)
}

/// The defined minimum line width for an item set: every shrinkable
/// column at its floor.
pub open spec fn min_viable(items: Seq<ListItem>) -> int {
    let bn = natural_branch(items);
    let pn = natural_path(items);
    let bmin = if bn <= BRANCH_MIN as int {
        bn
    } else {
        BRANCH_MIN as int
    };
    let pmin = if pn <= PATH_MIN as int {
        pn
    } else {
        PATH_MIN as int
    };
    total_of(bmin, pmin, ci_width(items), any_ci(items, items.len() as int))
}

proof fn lemma_max_lens_nonneg(items: Seq<ListItem>, n: int)
    ensures
        max_label_len(items, n) >= 0,
        max_path_len(items, n) >= 0,
        max_ci_len(items, n) >= 0,
    decreases n,
{
    if n > 0 {
        lemma_max_lens_nonneg(items, n - 1);
    }
}

/// The layout always fits the terminal, or the defined minimum width
/// when the terminal is narrower than that; together with
/// `calculate_responsive_layout`'s contract this also makes the
/// layout a function of the item set and terminal width alone.
pub proof fn lemma_layout_fits(items: Seq<ListItem>, tw: int)
    ensures
        layout_total(spec_layout(items, tw)) <= (if tw >= min_viable(items) {
            tw
        } else {
            min_viable(items)
        }),
{
    lemma_max_lens_nonneg(items, items.len() as int);
}

proof fn lemma_max_ci_covers(items: Seq<ListItem>, i: int, n: int)
    requires
        0 <= i < n,
    ensures
        item_ci_len(items[i]) <= max_ci_len(items, n),
        item_has_ci(items[i]) ==> any_ci(items, n),
    decreases n,
{
    if i < n - 1 {
        lemma_max_ci_covers(items, i, n - 1);
    }
}

/// The fixed CI column is wide enough for every CI status it shows:
/// it is never truncated.
pub proof fn lemma_ci_fits(items: Seq<ListItem>, tw: int, i: int)
    requires
        0 <= i < items.len(),
        item_has_ci(items[i]),
        max_ci_len(items, items.len() as int) <= usize::MAX,
    ensures
        spec_layout(items, tw).show_ci,
        item_ci_len(items[i]) <= spec_layout(items, tw).ci_w as int,
    decreases items.len() - i,
{
    lemma_max_ci_covers(items, i, items.len() as int);
    lemma_max_lens_nonneg(items, items.len() as int);
}

/// The branch-column text of an item.
pub fn label_string(item: &ListItem) -> (r: String)
    ensures
        r@ == item_label(*item),
{
    let mut r = String::new();
    match item {
        ListItem::WorktreeEntry(info) => r.append(info.branch.as_str()),
        ListItem::BranchEntry(b) => r.append(b.name.as_str()),
    }
    let c = item.counts();
    if c.ahead > 0 {
        r.append(" +");
        let d = u32_to_string(c.ahead);
        r.append(d.as_str());
    }
    if c.behind > 0 {
        r.append(" -");
        let d = u32_to_string(c.behind);
        r.append(d.as_str());
    }
    assert(r@ =~= item_label(*item));
    r
}

/// The path/stats-column text of an item.
pub fn path_cell_string(item: &ListItem) -> (r: String)
    ensures
        r@ == item_path_cell(*item),
{
    let mut r = String::new();
    match item {
        ListItem::WorktreeEntry(info) => {
            r.append(info.path.as_str());
            let (added, deleted) = info.working_tree_diff;
            if added > 0 || deleted > 0 {
                r.append(" +");
                let a = usize_to_string(added);
                r.append(a.as_str());
                r.append(" -");
                let d = usize_to_string(deleted);
                r.append(d.as_str());
            }
        },
        ListItem::BranchEntry(_) => {},
    }
    assert(r@ =~= item_path_cell(*item));
    r
}

/// Shrink a width by `slack` with a floor, in machine arithmetic.
fn shrink_width(nat_w: usize, min_w: usize, slack: u128) -> (w: usize)
    ensures
        w as int == shrink(nat_w as int, min_w as int, slack as int),
{
    if nat_w <= min_w {
        nat_w
    } else if (nat_w - min_w) as u128 >= slack {
        (nat_w as u128 - slack) as usize
    } else {
        min_w
    }
}

/// Compute the table layout for the items and the terminal width.
/// Identical items and width always give the identical layout.
pub fn calculate_responsive_layout(items: &Vec<ListItem>, terminal_width: usize) -> (l: Layout)
    ensures
        l == spec_layout(items@, terminal_width as int),
        l.marker_w == MARKER_W,
        l.branch_w >= 6,
        l.path_w >= 4,
        l.show_ci ==> l.ci_w >= 2,
        !l.show_ci ==> l.ci_w == 0,
{
    let n = items.len();
    let mut raw_b: usize = 0;
    let mut raw_p: usize = 0;
    let mut raw_c: usize = 0;
    let mut show: bool = false;
    let mut i: usize = 0;
    while i < n
        invariant
            0 <= i <= n,
            n == items@.len(),
            raw_b as int == max_label_len(items@, i as int),
            raw_p as int == max_path_len(items@, i as int),
            raw_c as int == max_ci_len(items@, i as int),
            show == any_ci(items@, i as int),
        decreases n - i,
    {
        let lbl = label_string(&items[i]);
        let l = lbl.as_str().unicode_len();
        if l > raw_b {
            raw_b = l;
        }
        let pc = path_cell_string(&items[i]);
        let pl = pc.as_str().unicode_len();
        if pl > raw_p {
            raw_p = pl;
        }
        match &items[i] {
            ListItem::WorktreeEntry(info) => {
                match &info.ci_status {
                    Some(ci) => {
                        show = true;
                        let cl = ci.as_str().unicode_len();
                        if cl > raw_c {
                            raw_c = cl;
                        }
                    },
                    None => {},
                }
            },
            ListItem::BranchEntry(_) => {},
        }
        i = i + 1;
    }
    let bn: usize = if raw_b < 6 {
        6
    } else {
        raw_b
    };
    let pn: usize = if raw_p < 4 {
        4
    } else {
        raw_p
    };
    let cw: usize = if show {
        if raw_c < 2 {
            2
        } else {
            raw_c
        }
    } else {
        0
    };
    let seps: u128 = if show {
        3 * SEP_W as u128
    } else {
        2 * SEP_W as u128
    };
    let t0: u128 = MARKER_W as u128 + bn as u128 + pn as u128 + cw as u128 + seps;
    let twu: u128 = terminal_width as u128;
    if t0 <= twu {
        Layout { marker_w: MARKER_W, branch_w: bn, path_w: pn, ci_w: cw, show_ci: show }
    } else {
        let pw = shrink_width(pn, PATH_MIN, t0 - twu);
        let t1: u128 = t0 - pn as u128 + pw as u128;
        let bw = if t1 <= twu {
            bn
        } else {
            shrink_width(bn, BRANCH_MIN, t1 - twu)
        };
        Layout { marker_w: MARKER_W, branch_w: bw, path_w: pw, ci_w: cw, show_ci: show }
    }
}

} // verus!
