use worktrunk::layout::{calculate_responsive_layout, Layout};
use worktrunk::list::{display_summary, BranchInfo, Counts, ListItem, WorktreeInfo};
use worktrunk::output::{OutputContext, OutputMode};
use worktrunk::render::{
    format_header_line, format_list_item_line, render_list, truncate_end, truncate_middle,
};

fn sample_items() -> Vec<ListItem> {
    vec![
        ListItem::WorktreeEntry(WorktreeInfo {
            path: "/home/user/project-with-a-long-name".to_string(),
            branch: "feature/very-long-branch-name".to_string(),
            working_tree_diff: (3, 1),
            ci_status: None,
            counts: Counts { ahead: 2, behind: 0 },
        }),
        ListItem::BranchEntry(BranchInfo {
            name: "main".to_string(),
            counts: Counts { ahead: 0, behind: 0 },
        }),
    ]
}

fn total_width(l: &Layout) -> usize {
    let seps = if l.show_ci { 6 } else { 4 };
    l.marker_w + l.branch_w + l.path_w + l.ci_w + seps
}

#[test]
fn layout_is_deterministic() {
    let a = calculate_responsive_layout(&sample_items(), 40);
    let b = calculate_responsive_layout(&sample_items(), 40);
    assert_eq!(a, b);
}

#[test]
fn layout_fits_terminal_or_minimum() {
    // the minimum line width: both shrinkable columns at their floor
    let min_total = 2 + 8 + 12 + 4;
    for w in [10usize, 26, 40, 80, 200] {
        let l = calculate_responsive_layout(&sample_items(), w);
        let bound = if w >= min_total { w } else { min_total };
        assert!(total_width(&l) <= bound, "width {} gave total {}", w, total_width(&l));
    }
}

#[test]
fn layout_uses_natural_widths_when_they_fit() {
    let l = calculate_responsive_layout(&sample_items(), 200);
    // longest label: "feature/very-long-branch-name +2"
    assert_eq!(l.branch_w, 32);
    // longest path cell: path plus " +3 -1"
    assert_eq!(l.path_w, 41);
    assert!(!l.show_ci);
    assert_eq!(l.ci_w, 0);
}

#[test]
fn narrow_terminal_shrinks_path_first() {
    let l = calculate_responsive_layout(&sample_items(), 40);
    assert_eq!(l.path_w, 12);
    assert_eq!(l.branch_w, 22);
    assert_eq!(total_width(&l), 40);
}

#[test]
fn ci_column_appears_only_with_data() {
    let mut items = sample_items();
    assert!(!calculate_responsive_layout(&items, 100).show_ci);
    items.push(ListItem::WorktreeEntry(WorktreeInfo {
        path: "/w/ci".to_string(),
        branch: "ci".to_string(),
        working_tree_diff: (0, 0),
        ci_status: Some("ok".to_string()),
        counts: Counts { ahead: 0, behind: 0 },
    }));
    let l = calculate_responsive_layout(&items, 100);
    assert!(l.show_ci);
    assert_eq!(l.ci_w, 2);
}

#[test]
fn truncate_middle_exact_width_one_ellipsis() {
    let r = truncate_middle("abcdefghijklmnopqrstuvwxyz", 11);
    assert_eq!(r, "abcde\u{2026}vwxyz");
    assert_eq!(r.chars().count(), 11);
    assert_eq!(r.chars().filter(|c| *c == '\u{2026}').count(), 1);
    assert!(r.starts_with("abcde"));
    assert!(r.ends_with("vwxyz"));
}

#[test]
fn truncate_end_exact_width() {
    let r = truncate_end("abcdefgh", 5);
    assert_eq!(r, "abcd\u{2026}");
    assert_eq!(r.chars().count(), 5);
}

#[test]
fn header_and_rows_share_one_width() {
    let items = sample_items();
    let layout = calculate_responsive_layout(&items, 40);
    let header = format_header_line(&layout);
    assert_eq!(header.chars().count(), total_width(&layout));
    let current = "/home/user/project-with-a-long-name".to_string();
    for item in &items {
        let row = format_list_item_line(item, &layout, Some(&current), false);
        assert_eq!(row.chars().count(), total_width(&layout));
    }
}

#[test]
fn current_worktree_row_is_marked() {
    let items = sample_items();
    let layout = calculate_responsive_layout(&items, 200);
    let current = "/home/user/project-with-a-long-name".to_string();
    let row = format_list_item_line(&items[0], &layout, Some(&current), false);
    assert!(row.starts_with("* "));
    assert!(row.contains("feature/very-long-branch-name +2"));
    let other = format_list_item_line(&items[1], &layout, Some(&current), false);
    assert!(other.starts_with("  "));
    assert!(other.contains("main"));
}

#[test]
fn current_row_highlighted_when_colored() {
    let items = sample_items();
    let layout = calculate_responsive_layout(&items, 200);
    let current = "/home/user/project-with-a-long-name".to_string();
    let row = format_list_item_line(&items[0], &layout, Some(&current), true);
    assert!(row.starts_with("\u{1b}[1m\u{1b}[35m* "));
    assert!(row.ends_with("\u{1b}[0m"));
}

#[test]
fn empty_listing_prints_hints_and_no_rows() {
    let mut ctx = OutputContext::new(OutputMode::Interactive);
    let items: Vec<ListItem> = Vec::new();
    render_list(&mut ctx, &items, false, 80, None, false);
    let out = ctx.flush();
    assert!(out.contains("No worktrees found"));
    assert!(out.contains("Create one with: wt switch --create <branch>"));
    assert!(!out.contains("BRANCH"));
    assert_eq!(out.lines().count(), 3);
}

#[test]
fn listing_renders_header_rows_and_summary() {
    let mut ctx = OutputContext::new(OutputMode::Interactive);
    let items = sample_items();
    render_list(&mut ctx, &items, true, 200, None, false);
    let out = ctx.flush();
    let lines: Vec<&str> = out.lines().collect();
    // header, two rows, blank line, summary
    assert_eq!(lines.len(), 5);
    assert!(lines[0].contains("BRANCH"));
    assert!(lines[0].contains("PATH"));
    assert!(lines[1].contains("feature/very-long-branch-name"));
    assert!(lines[2].contains("main"));
    assert_eq!(lines[3], "");
    assert!(lines[4].contains("Showing 1 worktrees, 1 branches, 1 with changes, 1 ahead"));
}

#[test]
fn summary_counts_without_branches() {
    let items = sample_items();
    let lines = display_summary(&items, false, false);
    assert_eq!(lines.len(), 2);
    assert!(lines[1].contains("Showing 1 worktree, 1 with changes, 1 ahead"));
}
