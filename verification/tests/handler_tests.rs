use worktrunk::handlers::{
    format_remove_message, format_switch_message, handle_remove_output, handle_switch_output,
    shell_integration_hint, RemoveResult, SwitchResult,
};
use worktrunk::output::{OutputContext, OutputMode};

#[test]
fn switch_message_mentions_branch_and_path() {
    let result = SwitchResult::ExistingWorktree("/w/feat".to_string());
    let msg = format_switch_message(&result, "feat", true);
    assert!(msg.starts_with("\u{2705} "));
    assert!(msg.contains("Switched to worktree for"));
    assert!(msg.contains("feat"));
    assert!(msg.contains("/w/feat"));
}

#[test]
fn switch_message_distinguishes_created_and_added() {
    let created = SwitchResult::CreatedWorktree { path: "/w/a".to_string(), created_branch: true };
    assert!(format_switch_message(&created, "a", true).contains("Created new worktree for"));
    let added = SwitchResult::CreatedWorktree { path: "/w/a".to_string(), created_branch: false };
    assert!(format_switch_message(&added, "a", true).contains("Added worktree for"));
}

#[test]
fn remove_messages_cover_all_outcomes() {
    assert!(format_remove_message(&RemoveResult::AlreadyOnDefault("main".to_string()), true)
        .contains("Already on default branch"));
    assert!(format_remove_message(
        &RemoveResult::RemovedWorktree { primary_path: "/repo".to_string() },
        true
    )
    .contains("Removed worktree, returned to primary at /repo"));
    assert!(format_remove_message(&RemoveResult::SwitchedToDefault("main".to_string()), true)
        .contains("Switched to default branch"));
    assert!(format_remove_message(
        &RemoveResult::RemovedOtherWorktree { branch: "feat".to_string() },
        true
    )
    .contains("Removed worktree for"));
}

#[test]
fn switch_in_directive_mode_frames_directives() {
    let mut ctx = OutputContext::new(OutputMode::Directive);
    let result = SwitchResult::ExistingWorktree("/w/feat".to_string());
    let spawn = handle_switch_output(&mut ctx, &result, "feat", Some("make"), true);
    assert!(spawn.is_none());
    ctx.terminate_output();
    let out = ctx.flush();
    assert!(out.starts_with("CHANGE_DIR\t/w/feat\n"));
    assert!(out.contains("Executing (--execute):"));
    assert!(out.contains("  \u{2502} make"));
    assert!(out.contains("EXEC\tmake\n"));
    assert!(out.ends_with('\0'));
}

#[test]
fn switch_in_interactive_mode_returns_command() {
    let mut ctx = OutputContext::new(OutputMode::Interactive);
    let result = SwitchResult::ExistingWorktree("/w/feat".to_string());
    let spawn = handle_switch_output(&mut ctx, &result, "feat", Some("make"), true);
    assert_eq!(spawn.as_deref(), Some("make"));
    let out = ctx.flush();
    assert!(!out.contains("CHANGE_DIR\t"));
    assert!(!out.contains("EXEC\t"));
    assert!(out.contains("Switched to worktree for"));
}

#[test]
fn switch_without_command_shows_integration_hint() {
    let mut ctx = OutputContext::new(OutputMode::Interactive);
    let result = SwitchResult::ExistingWorktree("/w/feat".to_string());
    let spawn = handle_switch_output(&mut ctx, &result, "feat", None, true);
    assert!(spawn.is_none());
    let out = ctx.flush();
    assert!(out.contains(shell_integration_hint()));
}

#[test]
fn remove_in_directive_mode_returns_to_primary() {
    let mut ctx = OutputContext::new(OutputMode::Directive);
    let result = RemoveResult::RemovedWorktree { primary_path: "/repo".to_string() };
    handle_remove_output(&mut ctx, &result, true);
    let out = ctx.flush();
    assert!(out.starts_with("CHANGE_DIR\t/repo\n"));
    assert!(out.contains("Removed worktree, returned to primary at /repo"));
}

#[test]
fn remove_of_other_worktree_changes_no_directory() {
    let mut ctx = OutputContext::new(OutputMode::Directive);
    let result = RemoveResult::RemovedOtherWorktree { branch: "feat".to_string() };
    handle_remove_output(&mut ctx, &result, true);
    let out = ctx.flush();
    assert!(!out.contains("CHANGE_DIR\t"));
    assert!(out.contains("Removed worktree for"));
}

#[test]
fn messages_are_plain_without_color() {
    let result = SwitchResult::ExistingWorktree("/w/feat".to_string());
    let msg = format_switch_message(&result, "feat", false);
    assert_eq!(msg, "\u{2705} Switched to worktree for feat at /w/feat");
    let msg = format_remove_message(&RemoveResult::SwitchedToDefault("main".to_string()), false);
    assert_eq!(msg, "\u{2705} Switched to default branch main");
}
