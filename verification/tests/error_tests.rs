use worktrunk::errors::{
    exit_code, is_command_not_approved, AppError, GitError, HookType, WorktrunkError,
};

#[test]
fn test_git_error_display_contains_emoji() {
    let err = GitError::DetachedHead { action: None };
    let output = err.render(true);
    assert!(output.contains("\u{274c}"));
    assert!(output.contains("detached HEAD"));
    assert!(output.contains("\u{1f4a1}"));
}

#[test]
fn test_git_error_display_includes_action() {
    let err = GitError::DetachedHead { action: Some("push".into()) };
    let output = err.render(true);
    assert!(output.contains("Cannot push"));

    let err = GitError::UncommittedChanges { action: Some("remove worktree".into()) };
    let output = err.render(true);
    assert!(output.contains("Cannot remove worktree"));
}

#[test]
fn test_into_preserves_type_for_display() {
    let err: AppError = GitError::BranchAlreadyExists { branch: "main".into() }.into();

    let git_err = match &err {
        AppError::Git(g) => g,
        _ => panic!("Should downcast"),
    };
    let output = git_err.render(true);
    assert!(output.contains("\u{274c}"));
    assert!(output.contains("main"));
    assert!(output.contains("already exists"));
}

#[test]
fn test_pattern_matching_with_into() {
    let err: AppError = GitError::BranchAlreadyExists { branch: "main".into() }.into();

    if let AppError::Git(GitError::BranchAlreadyExists { branch }) = &err {
        assert_eq!(branch, "main");
    } else {
        panic!("Failed to downcast and pattern match");
    }
}

#[test]
fn test_worktree_error_with_path() {
    let err = GitError::WorktreePathExists { path: "/some/path".to_string() };
    let output = err.render(true);
    assert!(output.contains("Directory already exists"));
}

#[test]
fn exit_code_of_child_process_error() {
    let err: AppError =
        WorktrunkError::ChildProcessExited { code: 3, message: "child".to_string() }.into();
    assert_eq!(exit_code(&err), Some(3));
}

#[test]
fn exit_code_of_hook_failure() {
    let err: AppError = WorktrunkError::HookCommandFailed {
        hook_type: HookType::PostCreate,
        command_name: Some("setup".to_string()),
        error: "boom".to_string(),
        exit_code: Some(5),
    }
    .into();
    assert_eq!(exit_code(&err), Some(5));
    if let AppError::Control(w) = &err {
        let output = w.render(true);
        assert!(output.contains("post-create command failed"));
        assert!(output.contains("setup"));
        assert!(output.contains("--no-verify"));
    } else {
        panic!("wrong variant");
    }
}

#[test]
fn exit_code_of_domain_error_is_none() {
    let err: AppError = GitError::MergeCommitsFound.into();
    assert_eq!(exit_code(&err), None);
    assert!(!is_command_not_approved(&err));
}

#[test]
fn command_not_approved_is_silent() {
    let err: AppError = WorktrunkError::CommandNotApproved.into();
    assert!(is_command_not_approved(&err));
    assert_eq!(exit_code(&err), None);
    assert_eq!(err.render(true), "");
    assert_eq!(err.render(false), "");
}

#[test]
fn conflicting_changes_lists_files() {
    let err = GitError::ConflictingChanges {
        files: vec!["a.txt".to_string(), "b.txt".to_string()],
        worktree_path: "/w/feat".to_string(),
    };
    let output = err.render(true);
    assert!(output.contains("Cannot push: conflicting uncommitted changes in:"));
    assert!(output.contains("a.txt"));
    assert!(output.contains("b.txt"));
    assert!(output.contains("/w/feat"));
}

#[test]
fn creation_failure_quotes_git_output() {
    let err = GitError::WorktreeCreationFailed {
        branch: "feat".to_string(),
        base_branch: Some("main".to_string()),
        error: "  fatal: oops  ".to_string(),
    };
    let output = err.render(true);
    assert!(output.contains("Failed to create worktree for"));
    assert!(output.contains("from base"));
    assert!(output.contains("fatal: oops"));
    assert!(!output.contains("oops  "));
}

#[test]
fn rebase_conflict_quotes_every_line() {
    let err = GitError::RebaseConflict {
        target_branch: "main".to_string(),
        git_output: "first hunk\nsecond hunk".to_string(),
    };
    let output = err.render(true);
    assert!(output.contains("  \u{2502} first hunk\n  \u{2502} second hunk"));

    let bare = GitError::RebaseConflict {
        target_branch: "main".to_string(),
        git_output: String::new(),
    };
    let output = bare.render(true);
    assert!(output.contains("git rebase --continue"));
    assert!(output.contains("git rebase --abort"));
}

#[test]
fn rendering_without_color_has_no_escapes() {
    let err = GitError::BranchAlreadyExists { branch: "main".into() };
    let plain = err.render(false);
    assert!(!plain.contains('\u{1b}'));
    assert!(plain.contains("Branch main already exists"));
    let styled = err.render(true);
    assert!(styled.contains('\u{1b}'));
}
