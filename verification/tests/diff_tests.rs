use worktrunk::diff::{parse_diff_shortstat, DiffStats};

#[test]
fn parses_full_shortstat_line() {
    let stats = parse_diff_shortstat(" 3 files changed, 45 insertions(+), 12 deletions(-)");
    assert_eq!(stats.files, Some(3));
    assert_eq!(stats.insertions, Some(45));
    assert_eq!(stats.deletions, Some(12));
}

#[test]
fn parses_single_file_without_deletions() {
    let stats = parse_diff_shortstat(" 1 file changed, 2 insertions(+)");
    assert_eq!(stats.files, Some(1));
    assert_eq!(stats.insertions, Some(2));
    assert_eq!(stats.deletions, None);
}

#[test]
fn empty_line_yields_no_stats() {
    let stats = parse_diff_shortstat("");
    assert_eq!(stats.files, None);
    assert_eq!(stats.insertions, None);
    assert_eq!(stats.deletions, None);
}

#[test]
fn non_numeric_token_yields_none() {
    let stats = parse_diff_shortstat("many files changed");
    assert_eq!(stats.files, None);
}

#[test]
fn overflowing_count_yields_none() {
    let stats = parse_diff_shortstat("99999999999999999999999999 files changed");
    assert_eq!(stats.files, None);
}

#[test]
fn format_summary_styles_counts() {
    let stats = DiffStats { files: Some(3), insertions: Some(45), deletions: Some(12) };
    let parts = stats.format_summary(true);
    assert_eq!(parts.len(), 3);
    assert_eq!(parts[0], "3 files");
    assert_eq!(parts[1], "\u{1b}[32m+45\u{1b}[0m");
    assert_eq!(parts[2], "\u{1b}[31m-12\u{1b}[0m");
}

#[test]
fn format_summary_singular_file() {
    let stats = DiffStats { files: Some(1), insertions: None, deletions: None };
    let parts = stats.format_summary(true);
    assert_eq!(parts.len(), 1);
    assert_eq!(parts[0], "1 file");
}

#[test]
fn parses_count_at_usize_limit() {
    let stats = parse_diff_shortstat("18446744073709551615 files changed");
    assert_eq!(stats.files, Some(usize::MAX));
    let over = parse_diff_shortstat("18446744073709551616 files changed");
    assert_eq!(over.files, None);
}

#[test]
fn format_summary_plain_when_color_off() {
    let stats = DiffStats { files: Some(3), insertions: Some(45), deletions: Some(12) };
    let parts = stats.format_summary(false);
    assert_eq!(parts, vec!["3 files", "+45", "-12"]);
}

#[test]
fn token_with_leading_plus_parses() {
    let stats = parse_diff_shortstat("+3 files changed");
    assert_eq!(stats.files, Some(3));
    let bad = parse_diff_shortstat("++3 files changed");
    assert_eq!(bad.files, None);
    let bare = parse_diff_shortstat("+ files changed");
    assert_eq!(bare.files, None);
}

#[test]
fn unicode_whitespace_is_trimmed_like_the_standard_library() {
    let stats = parse_diff_shortstat("\u{a0} 3 files changed");
    assert_eq!(stats.files, Some(3));
    let stats = parse_diff_shortstat("\u{2028}1 file changed");
    assert_eq!(stats.files, Some(1));
}
