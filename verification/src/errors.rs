//! Typed errors and their styled rendering.
//!
//! Two tiers: [`GitError`] carries the structured data of a domain
//! error and renders an actionable, styled message; [`WorktrunkError`]
//! carries the semantic errors that need exit-code extraction or
//! silent handling. [`AppError`] is the closed union the top-level
//! dispatcher matches on.
//!
//! Paths are held as display strings: the renderer only ever shows
//! them.

use crate::strings::{
    format_with_gutter, join_strings, join_with, push_char, spec_trim, spec_with_gutter, trim_end,
    trim_end_str, trim_str,
};
use crate::style::{default_theme, pre_if, prefix_str, reset_str, rst_if, st_if, styled_run_if, Style, Theme};
use vstd::prelude::*;

verus! {

/// The bold style used to emphasize words inside hints.
pub open spec fn hint_bold_style() -> Style {
    Style { fg: None, bold: true, dimmed: true }
}

/// The kinds of hook commands the tool runs around worktree
/// operations.
#[derive(Clone, Copy, Debug, PartialEq, Eq, Structural)]
pub enum HookType {
    PostCreate,
    PostStart,
    PreCommit,
    PreMerge,
    PostMerge,
    PreRemove,
}

/// The display name of a hook type.
pub open spec fn spec_hook_name(h: HookType) -> Seq<char> {
    match h {
        HookType::PostCreate => "post-create"@,
        HookType::PostStart => "post-start"@,
        HookType::PreCommit => "pre-commit"@,
        HookType::PreMerge => "pre-merge"@,
        HookType::PostMerge => "post-merge"@,
        HookType::PreRemove => "pre-remove"@,
    }
}

impl HookType {
    /// The name under which this hook appears in messages.
    pub fn name(&self) -> (r: &'static str)
        ensures
            r@ == spec_hook_name(*self),
    {
        match self {
            HookType::PostCreate => "post-create",
            HookType::PostStart => "post-start",
            HookType::PreCommit => "pre-commit",
            HookType::PreMerge => "pre-merge",
            HookType::PostMerge => "post-merge",
            HookType::PreRemove => "pre-remove",
        }
    }
}

/// Domain errors for git and worktree operations. Each variant stores
/// the data needed to construct a user-facing message.
#[derive(Debug, Clone)]
pub enum GitError {
    DetachedHead { action: Option<String> },
    UncommittedChanges { action: Option<String> },
    BranchAlreadyExists { branch: String },
    WorktreeMissing { branch: String },
    NoWorktreeFound { branch: String },
    WorktreePathOccupied { branch: String, path: String, occupant: Option<String> },
    WorktreePathExists { path: String },
    WorktreeCreationFailed { branch: String, base_branch: Option<String>, error: String },
    WorktreeRemovalFailed { branch: String, path: String, error: String },
    ConflictingChanges { files: Vec<String>, worktree_path: String },
    NotFastForward { target_branch: String, commits_formatted: String, in_merge_context: bool },
    MergeCommitsFound,
    RebaseConflict { target_branch: String, git_output: String },
    PushFailed { error: String },
    NotInteractive,
    ParseError { message: String },
    LlmCommandFailed { command: String, error: String },
    ProjectConfigNotFound { config_path: String },
    CommandFailed { message: String },
    Other { message: String },
}

/// An error block: the header alone when the detail is blank, else
/// the header with the trimmed detail quoted behind a gutter.
pub open spec fn spec_error_block(header: Seq<char>, error: Seq<char>) -> Seq<char> {
    if spec_trim(error).len() == 0 {
        header
    } else {
        header + seq!['\n'] + spec_with_gutter(spec_trim(error))
    }
}

/// Format an error with a header and gutter-quoted detail content.
pub fn format_error_block(header: String, error: &str) -> (r: String)
    ensures
        r@ == spec_error_block(header@, error@),
{
    let trimmed = trim_str(error);
    if trimmed.is_empty() {
        header
    } else {
        let ghost h0 = header@;
        let mut r = header;
        push_char(&mut r, '\n');
        let g = format_with_gutter(trimmed);
        r.append(g.as_str());
        assert(r@ =~= spec_error_block(h0, error@));
        r
    }
}

/// The message of a domain error, exactly as rendered; escape
/// sequences appear only when `use_color` is set.
pub open spec fn spec_git_error(e: GitError, use_color: bool) -> Seq<char> {
    let th = default_theme();
    match e {
        GitError::DetachedHead { action } => {
            let msg = match action {
                Some(a) => "Cannot "@ + a@ + ": not on a branch (detached HEAD)"@,
                None => "Not on a branch (detached HEAD)"@,
            };
            "\u{274c} "@ + st_if(use_color, th.error, msg) + "\n\n\u{1f4a1} "@ + st_if(use_color, 
                th.hint,
                "Switch to a branch first with 'git switch <branch>'"@,
            )
        },
        GitError::UncommittedChanges { action } => {
            let msg = match action {
                Some(a) => "Cannot "@ + a@ + ": working tree has uncommitted changes"@,
                None => "Working tree has uncommitted changes"@,
            };
            "\u{274c} "@ + st_if(use_color, th.error, msg) + "\n\n\u{1f4a1} "@ + st_if(use_color, 
                th.hint,
                "Commit or stash them first"@,
            )
        },
        GitError::BranchAlreadyExists { branch } => {
            "\u{274c} "@ + pre_if(use_color, th.error) + "Branch "@ + st_if(use_color, th.error_bold, branch@)
                + pre_if(use_color, th.error) + " already exists"@ + rst_if(use_color, th.error)
                + "\n\n\u{1f4a1} "@ + st_if(use_color, th.hint, "Remove --create flag to switch to it"@)
        },
        GitError::WorktreeMissing { branch } => {
            "\u{274c} "@ + pre_if(use_color, th.error) + "Worktree directory missing for "@ + st_if(use_color, 
                th.error_bold,
                branch@,
            ) + rst_if(use_color, th.error) + "\n\n\u{1f4a1} "@ + st_if(use_color, 
                th.hint,
                "Run 'git worktree prune' to clean up"@,
            )
        },
        GitError::NoWorktreeFound { branch } => {
            "\u{274c} "@ + pre_if(use_color, th.error) + "No worktree found for branch "@ + st_if(use_color, 
                th.error_bold,
                branch@,
            ) + rst_if(use_color, th.error)
        },
        GitError::WorktreePathOccupied { branch, path, occupant } => {
            let occupant_note = match occupant {
                Some(b) => " (currently on "@ + st_if(use_color, hint_bold_style(), b@) + pre_if(use_color, th.hint)
                    + ")"@,
                None => Seq::<char>::empty(),
            };
            "\u{274c} "@ + pre_if(use_color, th.error) + "Cannot create worktree for "@ + st_if(use_color, 
                th.error_bold,
                branch@,
            ) + pre_if(use_color, th.error) + ": target path already exists"@ + rst_if(use_color, th.error)
                + "\n\n\u{1f4a1} "@ + pre_if(use_color, th.hint) + "Reuse the existing worktree at "@
                + path@ + occupant_note + " or remove it before retrying"@ + rst_if(use_color, th.hint)
        },
        GitError::WorktreePathExists { path } => {
            "\u{274c} "@ + pre_if(use_color, th.error) + "Directory already exists: "@ + st_if(use_color, 
                th.error_bold,
                path@,
            ) + rst_if(use_color, th.error) + "\n\n\u{1f4a1} "@ + st_if(use_color, 
                th.hint,
                "Remove the directory or use a different branch name"@,
            )
        },
        GitError::WorktreeCreationFailed { branch, base_branch, error } => {
            let base_suffix = match base_branch {
                Some(base) => pre_if(use_color, th.error) + " from base "@ + st_if(use_color, th.error_bold, base@)
                    + pre_if(use_color, th.error),
                None => Seq::<char>::empty(),
            };
            let header = "\u{274c} "@ + pre_if(use_color, th.error) + "Failed to create worktree for "@
                + st_if(use_color, th.error_bold, branch@) + base_suffix + rst_if(use_color, th.error);
            spec_error_block(header, error@)
        },
        GitError::WorktreeRemovalFailed { branch, path, error } => {
            let header = "\u{274c} "@ + pre_if(use_color, th.error) + "Failed to remove worktree for "@
                + st_if(use_color, th.error_bold, branch@) + pre_if(use_color, th.error) + " at "@ + st_if(use_color, 
                th.error_bold,
                path@,
            ) + rst_if(use_color, th.error);
            spec_error_block(header, error@)
        },
        GitError::ConflictingChanges { files, worktree_path } => {
            let listing = if files@.len() > 0 {
                spec_with_gutter(join_with(files.deep_view(), seq!['\n']))
            } else {
                Seq::<char>::empty()
            };
            "\u{274c} "@ + st_if(use_color, th.error, "Cannot push: conflicting uncommitted changes in:"@)
                + "\n\n"@ + listing + "\n\u{1f4a1} "@ + pre_if(use_color, th.hint)
                + "Commit or stash these changes in "@ + worktree_path@ + " first"@ + rst_if(use_color, 
                th.hint,
            )
        },
        GitError::NotFastForward { target_branch, commits_formatted, in_merge_context } => {
            let listing = if commits_formatted@.len() > 0 {
                seq!['\n'] + spec_with_gutter(commits_formatted@)
            } else {
                Seq::<char>::empty()
            };
            let hint = if in_merge_context {
                "Run 'wt merge' again to incorporate these changes"@
            } else {
                "Use 'wt step rebase' or 'wt merge' to rebase onto "@ + target_branch@
            };
            "\u{274c} "@ + pre_if(use_color, th.error) + "Can't push to local "@ + st_if(use_color, 
                th.error_bold,
                target_branch@,
            ) + pre_if(use_color, th.error) + " branch: it has newer commits"@ + rst_if(use_color, th.error)
                + listing + "\n\u{1f4a1} "@ + st_if(use_color, th.hint, hint)
        },
        GitError::MergeCommitsFound => {
            "\u{274c} "@ + st_if(use_color, th.error, "Found merge commits in push range"@) + "\n\n\u{1f4a1} "@
                + st_if(use_color, th.hint, "Use --allow-merge-commits to push non-linear history"@)
        },
        GitError::RebaseConflict { target_branch, git_output } => {
            let tail = if git_output@.len() > 0 {
                seq!['\n'] + spec_with_gutter(git_output@)
            } else {
                "\n\n\u{1f4a1} "@ + st_if(use_color, 
                    th.hint,
                    "Resolve conflicts and run 'git rebase --continue'"@,
                ) + "\n\u{1f4a1} "@ + st_if(use_color, th.hint, "Or abort with 'git rebase --abort'"@)
            };
            "\u{274c} "@ + pre_if(use_color, th.error) + "Rebase onto "@ + st_if(use_color, 
                th.error_bold,
                target_branch@,
            ) + pre_if(use_color, th.error) + " incomplete"@ + rst_if(use_color, th.error) + tail
        },
        GitError::PushFailed { error } => {
            spec_error_block("\u{274c} "@ + st_if(use_color, th.error, "Push failed"@), error@)
        },
        GitError::NotInteractive => {
            "\u{274c} "@ + st_if(use_color, 
                th.error,
                "Cannot prompt for approval in non-interactive environment"@,
            ) + "\n\n\u{1f4a1} "@ + st_if(use_color, 
                th.hint,
                "In CI/CD, use --force to skip prompts. To pre-approve commands, use 'wt config approvals add'"@,
            )
        },
        GitError::ParseError { message } => {
            "\u{274c} "@ + st_if(use_color, th.error, message@)
        },
        GitError::LlmCommandFailed { command, error } => {
            let block = spec_error_block(
                "\u{274c} "@ + st_if(use_color, th.error, "Commit generation command failed"@),
                error@,
            );
            trim_end(block) + "\n\n\u{26aa} Ran command:\n"@ + trim_end(spec_with_gutter(command@))
        },
        GitError::ProjectConfigNotFound { config_path } => {
            "\u{274c} "@ + st_if(use_color, th.error, "No project configuration found"@) + "\n\n\u{1f4a1} "@
                + pre_if(use_color, th.hint) + "Create a config file at: "@ + st_if(use_color, 
                hint_bold_style(),
                config_path@,
            ) + rst_if(use_color, th.hint)
        },
        GitError::CommandFailed { message } => {
            "\u{274c} "@ + st_if(use_color, th.error, message@)
        },
        GitError::Other { message } => {
            "\u{274c} "@ + st_if(use_color, th.error, message@)
        },
    }
}

impl GitError {
    /// The human-readable message for this error, with emoji, a
    /// remediation hint where one exists, and colors only when
    /// `use_color` is set.
    #[verifier::rlimit(100)]
    pub fn render(&self, use_color: bool) -> (r: String)
        ensures
            r@ == spec_git_error(*self, use_color),
    {
        let th = Theme::new();
        let e_on = prefix_str(use_color, &th.error);
        let e_off = reset_str(use_color, &th.error);
        let h_on = prefix_str(use_color, &th.hint);
        let h_off = reset_str(use_color, &th.hint);
        let mut r = String::new();
        r.append("\u{274c} ");
        match self {
            GitError::DetachedHead { action } => {
                r.append(e_on.as_str());
                match action {
                    Some(a) => {
                        r.append("Cannot ");
                        r.append(a.as_str());
                        r.append(": not on a branch (detached HEAD)");
                    },
                    None => {
                        r.append("Not on a branch (detached HEAD)");
                    },
                }
                r.append(e_off.as_str());
                r.append("\n\n\u{1f4a1} ");
                let s = styled_run_if(use_color, &th.hint, "Switch to a branch first with 'git switch <branch>'");
                r.append(s.as_str());
                assert(r@ =~= spec_git_error(*self, use_color));
            },
            GitError::UncommittedChanges { action } => {
                r.append(e_on.as_str());
                match action {
                    Some(a) => {
                        r.append("Cannot ");
                        r.append(a.as_str());
                        r.append(": working tree has uncommitted changes");
                    },
                    None => {
                        r.append("Working tree has uncommitted changes");
                    },
                }
                r.append(e_off.as_str());
                r.append("\n\n\u{1f4a1} ");
                let s = styled_run_if(use_color, &th.hint, "Commit or stash them first");
                r.append(s.as_str());
                assert(r@ =~= spec_git_error(*self, use_color));
            },
            GitError::BranchAlreadyExists { branch } => {
                r.append(e_on.as_str());
                r.append("Branch ");
                let b = styled_run_if(use_color, &th.error_bold, branch.as_str());
                r.append(b.as_str());
                r.append(e_on.as_str());
                r.append(" already exists");
                r.append(e_off.as_str());
                r.append("\n\n\u{1f4a1} ");
                let s = styled_run_if(use_color, &th.hint, "Remove --create flag to switch to it");
                r.append(s.as_str());
                assert(r@ =~= spec_git_error(*self, use_color));
            },
            GitError::WorktreeMissing { branch } => {
                r.append(e_on.as_str());
                r.append("Worktree directory missing for ");
                let b = styled_run_if(use_color, &th.error_bold, branch.as_str());
                r.append(b.as_str());
                r.append(e_off.as_str());
                r.append("\n\n\u{1f4a1} ");
                let s = styled_run_if(use_color, &th.hint, "Run 'git worktree prune' to clean up");
                r.append(s.as_str());
                assert(r@ =~= spec_git_error(*self, use_color));
            },
            GitError::NoWorktreeFound { branch } => {
                r.append(e_on.as_str());
                r.append("No worktree found for branch ");
                let b = styled_run_if(use_color, &th.error_bold, branch.as_str());
                r.append(b.as_str());
                r.append(e_off.as_str());
                assert(r@ =~= spec_git_error(*self, use_color));
            },
            GitError::WorktreePathOccupied { branch, path, occupant } => {
                r.append(e_on.as_str());
                r.append("Cannot create worktree for ");
                let b = styled_run_if(use_color, &th.error_bold, branch.as_str());
                r.append(b.as_str());
                r.append(e_on.as_str());
                r.append(": target path already exists");
                r.append(e_off.as_str());
                r.append("\n\n\u{1f4a1} ");
                r.append(h_on.as_str());
                r.append("Reuse the existing worktree at ");
                r.append(path.as_str());
                match occupant {
                    Some(b) => {
                        r.append(" (currently on ");
                        let hb = Style { fg: None, bold: true, dimmed: true };
                        let o = styled_run_if(use_color, &hb, b.as_str());
                        r.append(o.as_str());
                        r.append(h_on.as_str());
                        r.append(")");
                    },
                    None => {},
                }
                r.append(" or remove it before retrying");
                r.append(h_off.as_str());
                assert(r@ =~= spec_git_error(*self, use_color));
            },
            GitError::WorktreePathExists { path } => {
                r.append(e_on.as_str());
                r.append("Directory already exists: ");
                let b = styled_run_if(use_color, &th.error_bold, path.as_str());
                r.append(b.as_str());
                r.append(e_off.as_str());
                r.append("\n\n\u{1f4a1} ");
                let s = styled_run_if(use_color, &th.hint, "Remove the directory or use a different branch name");
                r.append(s.as_str());
                assert(r@ =~= spec_git_error(*self, use_color));
            },
            GitError::WorktreeCreationFailed { branch, base_branch, error } => {
                r.append(e_on.as_str());
                r.append("Failed to create worktree for ");
                let b = styled_run_if(use_color, &th.error_bold, branch.as_str());
                r.append(b.as_str());
                match base_branch {
                    Some(base) => {
                        r.append(e_on.as_str());
                        r.append(" from base ");
                        let bb = styled_run_if(use_color, &th.error_bold, base.as_str());
                        r.append(bb.as_str());
                        r.append(e_on.as_str());
                    },
                    None => {},
                }
                r.append(e_off.as_str());
                let out = format_error_block(r, error.as_str());
                assert(out@ =~= spec_git_error(*self, use_color));
                return out;
            },
            GitError::WorktreeRemovalFailed { branch, path, error } => {
                r.append(e_on.as_str());
                r.append("Failed to remove worktree for ");
                let b = styled_run_if(use_color, &th.error_bold, branch.as_str());
                r.append(b.as_str());
                r.append(e_on.as_str());
                r.append(" at ");
                let p = styled_run_if(use_color, &th.error_bold, path.as_str());
                r.append(p.as_str());
                r.append(e_off.as_str());
                let out = format_error_block(r, error.as_str());
                assert(out@ =~= spec_git_error(*self, use_color));
                return out;
            },
            GitError::ConflictingChanges { files, worktree_path } => {
                let s = styled_run_if(use_color, &th.error, "Cannot push: conflicting uncommitted changes in:");
                r.append(s.as_str());
                r.append("\n\n");
                if files.len() > 0 {
                    proof {
                        reveal_strlit("\n");
                        assert("\n"@ =~= seq!['\n']);
                    }
                    let joined = join_strings(files, "\n");
                    let g = format_with_gutter(joined.as_str());
                    r.append(g.as_str());
                }
                r.append("\n\u{1f4a1} ");
                r.append(h_on.as_str());
                r.append("Commit or stash these changes in ");
                r.append(worktree_path.as_str());
                r.append(" first");
                r.append(h_off.as_str());
                assert(r@ =~= spec_git_error(*self, use_color));
            },
            GitError::NotFastForward { target_branch, commits_formatted, in_merge_context } => {
                r.append(e_on.as_str());
                r.append("Can't push to local ");
                let b = styled_run_if(use_color, &th.error_bold, target_branch.as_str());
                r.append(b.as_str());
                r.append(e_on.as_str());
                r.append(" branch: it has newer commits");
                r.append(e_off.as_str());
                if !commits_formatted.as_str().is_empty() {
                    push_char(&mut r, '\n');
                    let g = format_with_gutter(commits_formatted.as_str());
                    r.append(g.as_str());
                }
                r.append("\n\u{1f4a1} ");
                r.append(h_on.as_str());
                if *in_merge_context {
                    r.append("Run 'wt merge' again to incorporate these changes");
                } else {
                    r.append("Use 'wt step rebase' or 'wt merge' to rebase onto ");
                    r.append(target_branch.as_str());
                }
                r.append(h_off.as_str());
                assert(r@ =~= spec_git_error(*self, use_color));
            },
            GitError::MergeCommitsFound => {
                let s = styled_run_if(use_color, &th.error, "Found merge commits in push range");
                r.append(s.as_str());
                r.append("\n\n\u{1f4a1} ");
                let h = styled_run_if(use_color, &th.hint, "Use --allow-merge-commits to push non-linear history");
                r.append(h.as_str());
                assert(r@ =~= spec_git_error(*self, use_color));
            },
            GitError::RebaseConflict { target_branch, git_output } => {
                r.append(e_on.as_str());
                r.append("Rebase onto ");
                let b = styled_run_if(use_color, &th.error_bold, target_branch.as_str());
                r.append(b.as_str());
                r.append(e_on.as_str());
                r.append(" incomplete");
                r.append(e_off.as_str());
                if !git_output.as_str().is_empty() {
                    push_char(&mut r, '\n');
                    let g = format_with_gutter(git_output.as_str());
                    r.append(g.as_str());
                } else {
                    r.append("\n\n\u{1f4a1} ");
                    let h1 = styled_run_if(use_color, &th.hint, "Resolve conflicts and run 'git rebase --continue'");
                    r.append(h1.as_str());
                    r.append("\n\u{1f4a1} ");
                    let h2 = styled_run_if(use_color, &th.hint, "Or abort with 'git rebase --abort'");
                    r.append(h2.as_str());
                }
                assert(r@ =~= spec_git_error(*self, use_color));
            },
            GitError::PushFailed { error } => {
                let s = styled_run_if(use_color, &th.error, "Push failed");
                r.append(s.as_str());
                let out = format_error_block(r, error.as_str());
                assert(out@ =~= spec_git_error(*self, use_color));
                return out;
            },
            GitError::NotInteractive => {
                let s = styled_run_if(use_color, &th.error, "Cannot prompt for approval in non-interactive environment");
                r.append(s.as_str());
                r.append("\n\n\u{1f4a1} ");
                let h = styled_run_if(
                    use_color,
                    &th.hint,
                    "In CI/CD, use --force to skip prompts. To pre-approve commands, use 'wt config approvals add'",
                );
                r.append(h.as_str());
                assert(r@ =~= spec_git_error(*self, use_color));
            },
            GitError::ParseError { message } => {
                let s = styled_run_if(use_color, &th.error, message.as_str());
                r.append(s.as_str());
                assert(r@ =~= spec_git_error(*self, use_color));
            },
            GitError::LlmCommandFailed { command, error } => {
                let s = styled_run_if(use_color, &th.error, "Commit generation command failed");
                r.append(s.as_str());
                let block = format_error_block(r, error.as_str());
                let mut out = String::new();
                out.append(trim_end_str(block.as_str()));
                out.append("\n\n\u{26aa} Ran command:\n");
                let g = format_with_gutter(command.as_str());
                out.append(trim_end_str(g.as_str()));
                assert(out@ =~= spec_git_error(*self, use_color));
                return out;
            },
            GitError::ProjectConfigNotFound { config_path } => {
                let s = styled_run_if(use_color, &th.error, "No project configuration found");
                r.append(s.as_str());
                r.append("\n\n\u{1f4a1} ");
                r.append(h_on.as_str());
                r.append("Create a config file at: ");
                let hb = Style { fg: None, bold: true, dimmed: true };
                let p = styled_run_if(use_color, &hb, config_path.as_str());
                r.append(p.as_str());
                r.append(h_off.as_str());
                assert(r@ =~= spec_git_error(*self, use_color));
            },
            GitError::CommandFailed { message } => {
                let s = styled_run_if(use_color, &th.error, message.as_str());
                r.append(s.as_str());
                assert(r@ =~= spec_git_error(*self, use_color));
            },
            GitError::Other { message } => {
                let s = styled_run_if(use_color, &th.error, message.as_str());
                r.append(s.as_str());
                assert(r@ =~= spec_git_error(*self, use_color));
            },
        }
        r
    }
}

/// Semantic errors that need special handling at the very top level:
/// exit-code extraction or silent failure.
#[derive(Debug, Clone)]
pub enum WorktrunkError {
    /// Child process exited with non-zero code; the code is preserved
    /// so the process can exit with it.
    ChildProcessExited { code: i32, message: String },
    /// A hook command failed, possibly with an exit code of its own.
    HookCommandFailed {
        hook_type: HookType,
        command_name: Option<String>,
        error: String,
        exit_code: Option<i32>,
    },
    /// The user did not approve the command: silent, non-zero result.
    CommandNotApproved,
}

/// The message of a semantic error, colored only when `use_color`
/// is set; empty for the silent case.
pub open spec fn spec_worktrunk_error(e: WorktrunkError, use_color: bool) -> Seq<char> {
    let th = default_theme();
    match e {
        WorktrunkError::ChildProcessExited { code, message } => {
            "\u{274c} "@ + st_if(use_color, th.error, message@)
        },
        WorktrunkError::HookCommandFailed { hook_type, command_name, error, exit_code } => {
            let name_suffix = match command_name {
                Some(n) => ": "@ + st_if(use_color, th.error_bold, n@) + pre_if(use_color, th.error),
                None => Seq::<char>::empty(),
            };
            "\u{274c} "@ + pre_if(use_color, th.error) + spec_hook_name(hook_type)
                + " command failed"@ + name_suffix + ": "@ + error@ + rst_if(use_color, th.error)
                + "\n\n\u{1f4a1} "@ + pre_if(use_color, th.hint) + "Use --no-verify to skip "@
                + spec_hook_name(hook_type) + " commands"@ + rst_if(use_color, th.hint)
        },
        WorktrunkError::CommandNotApproved => Seq::<char>::empty(),
    }
}

impl WorktrunkError {
    /// The message for this error, colored only when `use_color` is
    /// set; the not-approved case stays silent and renders as the
    /// empty string.
    pub fn render(&self, use_color: bool) -> (r: String)
        ensures
            r@ == spec_worktrunk_error(*self, use_color),
    {
        let th = Theme::new();
        match self {
            WorktrunkError::ChildProcessExited { message, .. } => {
                let mut r = String::new();
                r.append("\u{274c} ");
                let s = styled_run_if(use_color, &th.error, message.as_str());
                r.append(s.as_str());
                assert(r@ =~= spec_worktrunk_error(*self, use_color));
                r
            },
            WorktrunkError::HookCommandFailed { hook_type, command_name, error, .. } => {
                let e_on = prefix_str(use_color, &th.error);
                let mut r = String::new();
                r.append("\u{274c} ");
                r.append(e_on.as_str());
                r.append(hook_type.name());
                r.append(" command failed");
                match command_name {
                    Some(n) => {
                        r.append(": ");
                        let b = styled_run_if(use_color, &th.error_bold, n.as_str());
                        r.append(b.as_str());
                        r.append(e_on.as_str());
                    },
                    None => {},
                }
                r.append(": ");
                r.append(error.as_str());
                let e_off = reset_str(use_color, &th.error);
                r.append(e_off.as_str());
                r.append("\n\n\u{1f4a1} ");
                let h_on = prefix_str(use_color, &th.hint);
                r.append(h_on.as_str());
                r.append("Use --no-verify to skip ");
                r.append(hook_type.name());
                r.append(" commands");
                let h_off = reset_str(use_color, &th.hint);
                r.append(h_off.as_str());
                assert(r@ =~= spec_worktrunk_error(*self, use_color));
                r
            },
            WorktrunkError::CommandNotApproved => {
                let r = String::new();
                r
            },
        }
    }
}

/// The closed union of everything a command handler can fail with,
/// matched exhaustively by the top-level dispatcher.
#[derive(Debug, Clone)]
pub enum AppError {
    Git(GitError),
    Control(WorktrunkError),
}

impl From<GitError> for AppError {
    fn from(e: GitError) -> (r: AppError) {
        AppError::Git(e)
    }
}

impl vstd::std_specs::convert::FromSpecImpl<GitError> for AppError {
    open spec fn obeys_from_spec() -> bool {
        true
    }

    open spec fn from_spec(e: GitError) -> AppError {
        AppError::Git(e)
    }
}

impl From<WorktrunkError> for AppError {
    fn from(e: WorktrunkError) -> (r: AppError) {
        AppError::Control(e)
    }
}

impl vstd::std_specs::convert::FromSpecImpl<WorktrunkError> for AppError {
    open spec fn obeys_from_spec() -> bool {
        true
    }

    open spec fn from_spec(e: WorktrunkError) -> AppError {
        AppError::Control(e)
    }
}

impl AppError {
    /// The message for this error, whichever tier it is from; plain
    /// text when color is off.
    pub fn render(&self, use_color: bool) -> (r: String)
        ensures
            *self matches AppError::Git(g) ==> r@ == spec_git_error(g, use_color),
            *self matches AppError::Control(w) ==> r@ == spec_worktrunk_error(w, use_color),
    {
        match self {
            AppError::Git(g) => g.render(use_color),
            AppError::Control(w) => w.render(use_color),
        }
    }
}

/// The exit code an error asks for, if it carries one.
pub open spec fn spec_exit_code(e: AppError) -> Option<i32> {
    match e {
        AppError::Control(WorktrunkError::ChildProcessExited { code, .. }) => Some(code),
        AppError::Control(WorktrunkError::HookCommandFailed { exit_code, .. }) => exit_code,
        _ => None,
    }
}

/// Extract the exit code an error demands, if any: a proxied child's
/// own code, or a hook failure's code.
pub fn exit_code(err: &AppError) -> (r: Option<i32>)
    ensures
        r == spec_exit_code(*err),
{
    match err {
        AppError::Control(WorktrunkError::ChildProcessExited { code, .. }) => Some(*code),
        AppError::Control(WorktrunkError::HookCommandFailed { exit_code, .. }) => *exit_code,
        _ => None,
    }
}

/// Check if the error is the silent not-approved case.
pub fn is_command_not_approved(err: &AppError) -> (r: bool)
    ensures
        r == (err matches AppError::Control(WorktrunkError::CommandNotApproved)),
{
    match err {
        AppError::Control(WorktrunkError::CommandNotApproved) => true,
        _ => false,
    }
}

} // verus!
