//! The listing data model: worktree and branch entries, the summary
//! metrics folded over them, and the one-line listing summary.

use crate::strings::{dec_rep, join_with, join_strings, usize_to_string};
use crate::style::{default_theme, prefix_str, reset_str, st_if, Theme};
use vstd::prelude::*;

verus! {

/// Ahead/behind commit counts of an entry relative to its upstream.
#[derive(Clone, Copy, Debug, PartialEq, Eq, Structural)]
pub struct Counts {
    pub ahead: u32,
    pub behind: u32,
}

/// A worktree entry: its path, the working-tree diff size, an
/// optional CI status, and its commit counts.
#[derive(Debug)]
pub struct WorktreeInfo {
    /// Absolute path, held as the string under which it is displayed.
    pub path: String,
    pub branch: String,
    /// Added and deleted line counts of the working-tree diff.
    pub working_tree_diff: (usize, usize),
    pub ci_status: Option<String>,
    pub counts: Counts,
}

/// A branch without a worktree of its own.
#[derive(Debug)]
pub struct BranchInfo {
    pub name: String,
    pub counts: Counts,
}

/// One row of the listing, in repository enumeration order.
#[derive(Debug)]
pub enum ListItem {
    WorktreeEntry(WorktreeInfo),
    BranchEntry(BranchInfo),
}

impl ListItem {
    /// The worktree data of this item, when it is a worktree entry.
    pub fn worktree_info(&self) -> (r: Option<&WorktreeInfo>)
        ensures
            *self matches ListItem::WorktreeEntry(info) ==> (r matches Some(i) && *i == info),
            *self matches ListItem::BranchEntry(_) ==> r is None,
    {
        match self {
            ListItem::WorktreeEntry(info) => Some(info),
            ListItem::BranchEntry(_) => None,
        }
    }

    /// The ahead/behind counts of this item.
    pub fn counts(&self) -> (r: Counts)
        ensures
            r == spec_counts(*self),
    {
        match self {
            ListItem::WorktreeEntry(info) => info.counts,
            ListItem::BranchEntry(b) => b.counts,
        }
    }
}

/// The ahead/behind counts of an item.
pub open spec fn spec_counts(item: ListItem) -> Counts {
    match item {
        ListItem::WorktreeEntry(info) => info.counts,
        ListItem::BranchEntry(b) => b.counts,
    }
}

/// A worktree entry whose working tree has changes.
pub open spec fn is_dirty(item: ListItem) -> bool {
    match item {
        ListItem::WorktreeEntry(info) => info.working_tree_diff.0 > 0
            || info.working_tree_diff.1 > 0,
        ListItem::BranchEntry(_) => false,
    }
}

/// How many of the first `n` items are worktree entries.
pub open spec fn count_worktrees(items: Seq<ListItem>, n: int) -> int
    decreases n,
{
    if n <= 0 {
        0
    } else {
        count_worktrees(items, n - 1) + (if items[n - 1] matches ListItem::WorktreeEntry(_) {
            1int
        } else {
            0int
        })
    }
}

/// How many of the first `n` items are plain branch entries.
pub open spec fn count_branches(items: Seq<ListItem>, n: int) -> int
    decreases n,
{
    if n <= 0 {
        0
    } else {
        count_branches(items, n - 1) + (if items[n - 1] matches ListItem::BranchEntry(_) {
            1int
        } else {
            0int
        })
    }
}

/// How many of the first `n` items are dirty worktrees.
pub open spec fn count_dirty(items: Seq<ListItem>, n: int) -> int
    decreases n,
{
    if n <= 0 {
        0
    } else {
        count_dirty(items, n - 1) + (if is_dirty(items[n - 1]) {
            1int
        } else {
            0int
        })
    }
}

/// How many of the first `n` items are ahead of their upstream.
pub open spec fn count_ahead(items: Seq<ListItem>, n: int) -> int
    decreases n,
{
    if n <= 0 {
        0
    } else {
        count_ahead(items, n - 1) + (if spec_counts(items[n - 1]).ahead > 0 {
            1int
        } else {
            0int
        })
    }
}

/// How many of the first `n` items are behind their upstream.
pub open spec fn count_behind(items: Seq<ListItem>, n: int) -> int
    decreases n,
{
    if n <= 0 {
        0
    } else {
        count_behind(items, n - 1) + (if spec_counts(items[n - 1]).behind > 0 {
            1int
        } else {
            0int
        })
    }
}

/// Counters folded over the listing for the summary line.
#[derive(Clone, Copy, Debug)]
pub struct SummaryMetrics {
    pub worktrees: usize,
    pub branches: usize,
    pub dirty_worktrees: usize,
    pub ahead_items: usize,
    pub behind_items: usize,
}

impl Default for SummaryMetrics {
    /// All counters start at zero.
    fn default() -> (r: SummaryMetrics)
        ensures
            r.worktrees == 0 && r.branches == 0 && r.dirty_worktrees == 0 && r.ahead_items == 0
                && r.behind_items == 0,
    {
        SummaryMetrics {
            worktrees: 0,
            branches: 0,
            dirty_worktrees: 0,
            ahead_items: 0,
            behind_items: 0,
        }
    }
}

impl SummaryMetrics {
    /// Fold one item into the counters: it counts as a worktree or a
    /// branch, as dirty when its diff is non-empty, and as ahead or
    /// behind when the respective count is non-zero.
    pub fn update(&mut self, item: &ListItem)
        requires
            old(self).worktrees < usize::MAX,
            old(self).branches < usize::MAX,
            old(self).dirty_worktrees < usize::MAX,
            old(self).ahead_items < usize::MAX,
            old(self).behind_items < usize::MAX,
        ensures
            final(self).worktrees == old(self).worktrees + (if *item matches
                ListItem::WorktreeEntry(_) {
                1int
            } else {
                0int
            }),
            final(self).branches == old(self).branches + (if *item matches ListItem::BranchEntry(
                _,
            ) {
                1int
            } else {
                0int
            }),
            final(self).dirty_worktrees == old(self).dirty_worktrees + (if is_dirty(*item) {
                1int
            } else {
                0int
            }),
            final(self).ahead_items == old(self).ahead_items + (if spec_counts(*item).ahead > 0 {
                1int
            } else {
                0int
            }),
            final(self).behind_items == old(self).behind_items + (if spec_counts(*item).behind
                > 0 {
                1int
            } else {
                0int
            }),
    {
        match item.worktree_info() {
            Some(info) => {
                self.worktrees = self.worktrees + 1;
                let (added, deleted) = info.working_tree_diff;
                if added > 0 || deleted > 0 {
                    self.dirty_worktrees = self.dirty_worktrees + 1;
                }
            },
            None => {
                self.branches = self.branches + 1;
            },
        }
        let counts = item.counts();
        if counts.ahead > 0 {
            self.ahead_items = self.ahead_items + 1;
        }
        if counts.behind > 0 {
            self.behind_items = self.behind_items + 1;
        }
    }
}

proof fn lemma_counts_bounded(items: Seq<ListItem>, n: int)
    requires
        0 <= n <= items.len(),
    ensures
        0 <= count_worktrees(items, n) <= n,
        0 <= count_branches(items, n) <= n,
        count_worktrees(items, n) + count_branches(items, n) == n,
        0 <= count_dirty(items, n) <= n,
        0 <= count_ahead(items, n) <= n,
        0 <= count_behind(items, n) <= n,
    decreases n,
{
    if n > 0 {
        lemma_counts_bounded(items, n - 1);
    }
}

/// The lines printed under an empty listing: a blank line, the
/// "no worktrees" hint, and the creation suggestion.
pub open spec fn spec_empty_summary(use_color: bool) -> Seq<Seq<char>> {
    let th = default_theme();
    seq![
        Seq::<char>::empty(),
        "\u{1f4a1} "@ + st_if(use_color, th.hint, "No worktrees found"@),
        "\u{1f4a1} "@ + st_if(use_color, th.hint, "Create one with: wt switch --create <branch>"@),
    ]
}

/// The parts of the summary sentence, in order.
pub open spec fn spec_summary_parts(items: Seq<ListItem>, include_branches: bool) -> Seq<
    Seq<char>,
> {
    let n = items.len() as int;
    let w = count_worktrees(items, n);
    let b = count_branches(items, n);
    let d = count_dirty(items, n);
    let a = count_ahead(items, n);
    let bh = count_behind(items, n);
    (if include_branches {
        seq![dec_rep(w as nat) + " worktrees"@] + (if b > 0 {
            seq![dec_rep(b as nat) + " branches"@]
        } else {
            Seq::<Seq<char>>::empty()
        })
    } else {
        seq![
            dec_rep(w as nat) + " worktree"@ + (if w == 1 {
                Seq::<char>::empty()
            } else {
                "s"@
            }),
        ]
    }) + (if d > 0 {
        seq![dec_rep(d as nat) + " with changes"@]
    } else {
        Seq::<Seq<char>>::empty()
    }) + (if a > 0 {
        seq![dec_rep(a as nat) + " ahead"@]
    } else {
        Seq::<Seq<char>>::empty()
    }) + (if bh > 0 {
        seq![dec_rep(bh as nat) + " behind"@]
    } else {
        Seq::<Seq<char>>::empty()
    })
}

/// The summary lines under a listing: for an empty listing the hints,
/// otherwise a blank line and the dimmed "Showing ..." sentence.
pub open spec fn spec_display_summary(
    items: Seq<ListItem>,
    include_branches: bool,
    use_color: bool,
) -> Seq<Seq<char>> {
    let th = default_theme();
    if items.len() == 0 {
        spec_empty_summary(use_color)
    } else {
        seq![
            Seq::<char>::empty(),
            st_if(use_color, 
                th.dim,
                "Showing "@ + join_with(spec_summary_parts(items, include_branches), ", "@),
            ),
        ]
    }
}

proof fn lemma_all_no_nul_concat(a: Seq<Seq<char>>, b: Seq<Seq<char>>)
    requires
        forall|i: int| 0 <= i < a.len() ==> crate::strings::no_nul(#[trigger] a[i]),
        forall|i: int| 0 <= i < b.len() ==> crate::strings::no_nul(#[trigger] b[i]),
    ensures
        forall|i: int| 0 <= i < (a + b).len() ==> crate::strings::no_nul(#[trigger] (a + b)[i]),
{
    assert forall|i: int| 0 <= i < (a + b).len() implies crate::strings::no_nul(
        #[trigger] (a + b)[i],
    ) by {
        if i < a.len() {
            assert((a + b)[i] == a[i]);
        } else {
            assert((a + b)[i] == b[i - a.len()]);
        }
    }
}

/// Every summary line is free of the sentinel character.
#[verifier::rlimit(100)]
pub proof fn lemma_summary_lines_no_nul(items: Seq<ListItem>, include_branches: bool, use_color: bool)
    ensures
        forall|i: int|
            0 <= i < spec_display_summary(items, include_branches, use_color).len()
                ==> crate::strings::no_nul(
                #[trigger] spec_display_summary(items, include_branches, use_color)[i],
            ),
{
    let th = default_theme();
    reveal_strlit("\u{1f4a1} ");
    reveal_strlit("No worktrees found");
    reveal_strlit("Create one with: wt switch --create <branch>");
    reveal_strlit("Showing ");
    reveal_strlit(", ");
    reveal_strlit(" worktrees");
    reveal_strlit(" branches");
    reveal_strlit(" worktree");
    reveal_strlit("s");
    reveal_strlit(" with changes");
    reveal_strlit(" ahead");
    reveal_strlit(" behind");
    crate::style::lemma_style_no_nul(th.hint);
    crate::style::lemma_style_no_nul(th.dim);
    if items.len() == 0 {
        let lines = spec_empty_summary(use_color);
        assert(crate::strings::no_nul(lines[0]));
        assert(crate::strings::no_nul(lines[1]));
        assert(crate::strings::no_nul(lines[2]));
        assert(forall|i: int|
            0 <= i < lines.len() ==> crate::strings::no_nul(#[trigger] lines[i]));
    } else {
        let n = items.len() as int;
        lemma_counts_bounded(items, n);
        let w = count_worktrees(items, n);
        let b = count_branches(items, n);
        let d = count_dirty(items, n);
        let a = count_ahead(items, n);
        let bh = count_behind(items, n);
        crate::strings::lemma_dec_rep_no_nul(w as nat);
        crate::strings::lemma_dec_rep_no_nul(b as nat);
        crate::strings::lemma_dec_rep_no_nul(d as nat);
        crate::strings::lemma_dec_rep_no_nul(a as nat);
        crate::strings::lemma_dec_rep_no_nul(bh as nat);
        let parts = spec_summary_parts(items, include_branches);
        let head: Seq<Seq<char>> = if include_branches {
            seq![dec_rep(w as nat) + " worktrees"@] + (if b > 0 {
                seq![dec_rep(b as nat) + " branches"@]
            } else {
                Seq::<Seq<char>>::empty()
            })
        } else {
            seq![
                dec_rep(w as nat) + " worktree"@ + (if w == 1 {
                    Seq::<char>::empty()
                } else {
                    "s"@
                }),
            ]
        };
        let dpart: Seq<Seq<char>> = if d > 0 {
            seq![dec_rep(d as nat) + " with changes"@]
        } else {
            Seq::<Seq<char>>::empty()
        };
        let apart: Seq<Seq<char>> = if a > 0 {
            seq![dec_rep(a as nat) + " ahead"@]
        } else {
            Seq::<Seq<char>>::empty()
        };
        let bpart: Seq<Seq<char>> = if bh > 0 {
            seq![dec_rep(bh as nat) + " behind"@]
        } else {
            Seq::<Seq<char>>::empty()
        };
        if include_branches {
            lemma_all_no_nul_concat(
                seq![dec_rep(w as nat) + " worktrees"@],
                if b > 0 {
                    seq![dec_rep(b as nat) + " branches"@]
                } else {
                    Seq::<Seq<char>>::empty()
                },
            );
        }
        lemma_all_no_nul_concat(head, dpart);
        lemma_all_no_nul_concat(head + dpart, apart);
        lemma_all_no_nul_concat(head + dpart + apart, bpart);
        assert(parts == head + dpart + apart + bpart);
        crate::strings::lemma_join_no_nul(parts, ", "@);
        let lines = spec_display_summary(items, include_branches, use_color);
        assert(crate::strings::no_nul(lines[0]));
        assert(crate::strings::no_nul(lines[1]));
        assert(forall|i: int|
            0 <= i < lines.len() ==> crate::strings::no_nul(#[trigger] lines[i]));
    }
}

/// The summary lines of a listing: counts of worktrees and branches,
/// dirty items, and ahead/behind items; an empty listing instead
/// yields the "no worktrees found" hint and a creation suggestion.
pub fn display_summary(items: &Vec<ListItem>, include_branches: bool, use_color: bool) -> (lines: Vec<String>)
    ensures
        lines.deep_view() == spec_display_summary(items@, include_branches, use_color),
{
    let th = Theme::new();
    let mut lines: Vec<String> = Vec::new();
    if items.len() == 0 {
        lines.push(String::new());
        let mut l1 = String::new();
        l1.append("\u{1f4a1} ");
        let h1 = crate::style::styled_run_if(use_color, &th.hint, "No worktrees found");
        l1.append(h1.as_str());
        lines.push(l1);
        let mut l2 = String::new();
        l2.append("\u{1f4a1} ");
        let h2 = crate::style::styled_run_if(
            use_color,
            &th.hint,
            "Create one with: wt switch --create <branch>",
        );
        l2.append(h2.as_str());
        lines.push(l2);
        assert(lines.deep_view() =~~= spec_display_summary(items@, include_branches, use_color));
        return lines;
    }
    let mut metrics = SummaryMetrics::default();
    let mut i: usize = 0;
    while i < items.len()
        invariant
            0 <= i <= items@.len(),
            metrics.worktrees == count_worktrees(items@, i as int),
            metrics.branches == count_branches(items@, i as int),
            metrics.dirty_worktrees == count_dirty(items@, i as int),
            metrics.ahead_items == count_ahead(items@, i as int),
            metrics.behind_items == count_behind(items@, i as int),
        decreases items@.len() - i,
    {
        proof {
            lemma_counts_bounded(items@, i as int);
        }
        metrics.update(&items[i]);
        i = i + 1;
    }
    let mut parts: Vec<String> = Vec::new();
    if include_branches {
        let mut p = usize_to_string(metrics.worktrees);
        p.append(" worktrees");
        parts.push(p);
        if metrics.branches > 0 {
            let mut q = usize_to_string(metrics.branches);
            q.append(" branches");
            parts.push(q);
        }
    } else {
        let mut p = usize_to_string(metrics.worktrees);
        p.append(" worktree");
        if metrics.worktrees != 1 {
            p.append("s");
        }
        parts.push(p);
    }
    if metrics.dirty_worktrees > 0 {
        let mut p = usize_to_string(metrics.dirty_worktrees);
        p.append(" with changes");
        parts.push(p);
    }
    if metrics.ahead_items > 0 {
        let mut p = usize_to_string(metrics.ahead_items);
        p.append(" ahead");
        parts.push(p);
    }
    if metrics.behind_items > 0 {
        let mut p = usize_to_string(metrics.behind_items);
        p.append(" behind");
        parts.push(p);
    }
    assert(parts.deep_view() =~~= spec_summary_parts(items@, include_branches));
    let summary = join_strings(&parts, ", ");
    let mut line = prefix_str(use_color, &th.dim);
    line.append("Showing ");
    line.append(summary.as_str());
    let reset = reset_str(use_color, &th.dim);
    line.append(reset.as_str());
    let mut lines: Vec<String> = Vec::new();
    lines.push(String::new());
    lines.push(line);
    assert(lines.deep_view() =~~= spec_display_summary(items@, include_branches, use_color));
    lines
}

} // verus!
