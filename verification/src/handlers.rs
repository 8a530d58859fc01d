//! Output handlers for worktree operations, and the verified part
//! of the subprocess streamer: the exit-status outcome. The child's
//! output streams are merged by the caller at spawn time, by
//! pointing both of the child's output descriptors at one pipe.

use crate::errors::WorktrunkError;
use crate::output::{OutputContext, OutputMode};
use crate::strings::{
    i32_to_string, int_rep, lemma_gutter_no_nul, no_nul, spec_with_gutter,
    format_with_gutter,
};
use crate::style::{default_theme, pre_if, prefix_str, reset_str, rst_if, st_if, styled_run_if, FgColor, Style, Theme};
use vstd::prelude::*;

verus! {

/// The outcome of a switch operation, produced by the mutation logic
/// and consumed once here.
#[derive(Debug)]
pub enum SwitchResult {
    /// Switched to a worktree that already existed at this path.
    ExistingWorktree(String),
    /// A worktree was created at the path; `created_branch` says
    /// whether the branch itself is new.
    CreatedWorktree { path: String, created_branch: bool },
}

/// The path of the worktree the switch ended in.
pub open spec fn spec_switch_path(r: SwitchResult) -> Seq<char> {
    match r {
        SwitchResult::ExistingWorktree(path) => path@,
        SwitchResult::CreatedWorktree { path, .. } => path@,
    }
}

impl SwitchResult {
    /// The path of the worktree the switch ended in.
    pub fn path(&self) -> (r: &String)
        ensures
            r@ == spec_switch_path(*self),
    {
        match self {
            SwitchResult::ExistingWorktree(path) => path,
            SwitchResult::CreatedWorktree { path, .. } => path,
        }
    }
}

/// The outcome of a remove operation.
#[derive(Debug)]
pub enum RemoveResult {
    AlreadyOnDefault(String),
    RemovedWorktree { primary_path: String },
    SwitchedToDefault(String),
    RemovedOtherWorktree { branch: String },
}

/// The bold green used for emphasized names in success messages.
pub open spec fn green_bold_style() -> Style {
    Style { fg: Some(FgColor::Green), bold: true, dimmed: false }
}

/// The message for a switch outcome, colored only when `use_color`
/// is set.
pub open spec fn spec_format_switch_message(
    r: SwitchResult,
    branch: Seq<char>,
    use_color: bool,
) -> Seq<char> {
    let th = default_theme();
    let verb = match r {
        SwitchResult::ExistingWorktree(_) => "Switched to worktree for "@,
        SwitchResult::CreatedWorktree { created_branch, .. } => if created_branch {
            "Created new worktree for "@
        } else {
            "Added worktree for "@
        },
    };
    "\u{2705} "@ + pre_if(use_color, th.success) + verb + st_if(use_color, green_bold_style(), branch) + " at "@
        + spec_switch_path(r) + rst_if(use_color, th.success)
}

/// Format the message for a switch operation: emoji, green text, the
/// branch in bold, and the worktree path.
pub fn format_switch_message(result: &SwitchResult, branch: &str, use_color: bool) -> (r: String)
    ensures
        r@ == spec_format_switch_message(*result, branch@, use_color),
        no_nul(branch@) && no_nul(spec_switch_path(*result)) ==> no_nul(r@),
{
    let th = Theme::new();
    let gb = Style { fg: Some(FgColor::Green), bold: true, dimmed: false };
    let mut r = String::new();
    r.append("\u{2705} ");
    let g_on = prefix_str(use_color, &th.success);
    r.append(g_on.as_str());
    match result {
        SwitchResult::ExistingWorktree(_) => r.append("Switched to worktree for "),
        SwitchResult::CreatedWorktree { created_branch, .. } => {
            if *created_branch {
                r.append("Created new worktree for ");
            } else {
                r.append("Added worktree for ");
            }
        },
    }
    let b = styled_run_if(use_color, &gb, branch);
    r.append(b.as_str());
    r.append(" at ");
    r.append(result.path().as_str());
    let g_off = reset_str(use_color, &th.success);
    r.append(g_off.as_str());
    proof {
        reveal_strlit("\u{2705} ");
        reveal_strlit("Switched to worktree for ");
        reveal_strlit("Created new worktree for ");
        reveal_strlit("Added worktree for ");
        reveal_strlit(" at ");
        crate::style::lemma_style_no_nul(default_theme().success);
        crate::style::lemma_style_no_nul(green_bold_style());
    }
    assert(r@ =~= spec_format_switch_message(*result, branch@, use_color));
    r
}

/// The message for a remove outcome, colored only when `use_color`
/// is set.
pub open spec fn spec_format_remove_message(r: RemoveResult, use_color: bool) -> Seq<char> {
    let th = default_theme();
    match r {
        RemoveResult::AlreadyOnDefault(branch) => "\u{2705} "@ + pre_if(use_color, th.success)
            + "Already on default branch "@ + st_if(use_color, green_bold_style(), branch@) + rst_if(use_color, 
            th.success,
        ),
        RemoveResult::RemovedWorktree { primary_path } => "\u{2705} "@ + pre_if(use_color, th.success)
            + "Removed worktree, returned to primary at "@ + primary_path@ + rst_if(use_color, 
            th.success,
        ),
        RemoveResult::SwitchedToDefault(branch) => "\u{2705} "@ + pre_if(use_color, th.success)
            + "Switched to default branch "@ + st_if(use_color, green_bold_style(), branch@) + rst_if(use_color, 
            th.success,
        ),
        RemoveResult::RemovedOtherWorktree { branch } => "\u{2705} "@ + pre_if(use_color, th.success)
            + "Removed worktree for "@ + st_if(use_color, green_bold_style(), branch@) + rst_if(use_color, th.success),
    }
}

/// Format the message for a remove operation.
pub fn format_remove_message(result: &RemoveResult, use_color: bool) -> (r: String)
    ensures
        r@ == spec_format_remove_message(*result, use_color),
        spec_remove_clean(*result) ==> no_nul(r@),
{
    let th = Theme::new();
    let gb = Style { fg: Some(FgColor::Green), bold: true, dimmed: false };
    let mut r = String::new();
    r.append("\u{2705} ");
    let g_on = prefix_str(use_color, &th.success);
    r.append(g_on.as_str());
    match result {
        RemoveResult::AlreadyOnDefault(branch) => {
            r.append("Already on default branch ");
            let b = styled_run_if(use_color, &gb, branch.as_str());
            r.append(b.as_str());
        },
        RemoveResult::RemovedWorktree { primary_path } => {
            r.append("Removed worktree, returned to primary at ");
            r.append(primary_path.as_str());
        },
        RemoveResult::SwitchedToDefault(branch) => {
            r.append("Switched to default branch ");
            let b = styled_run_if(use_color, &gb, branch.as_str());
            r.append(b.as_str());
        },
        RemoveResult::RemovedOtherWorktree { branch } => {
            r.append("Removed worktree for ");
            let b = styled_run_if(use_color, &gb, branch.as_str());
            r.append(b.as_str());
        },
    }
    let g_off = reset_str(use_color, &th.success);
    r.append(g_off.as_str());
    proof {
        reveal_strlit("\u{2705} ");
        reveal_strlit("Already on default branch ");
        reveal_strlit("Removed worktree, returned to primary at ");
        reveal_strlit("Switched to default branch ");
        reveal_strlit("Removed worktree for ");
        crate::style::lemma_style_no_nul(default_theme().success);
        crate::style::lemma_style_no_nul(green_bold_style());
    }
    assert(r@ =~= spec_format_remove_message(*result, use_color));
    r
}

/// Every string carried by the remove outcome is sentinel-free.
pub open spec fn spec_remove_clean(r: RemoveResult) -> bool {
    match r {
        RemoveResult::AlreadyOnDefault(branch) => no_nul(branch@),
        RemoveResult::RemovedWorktree { primary_path } => no_nul(primary_path@),
        RemoveResult::SwitchedToDefault(branch) => no_nul(branch@),
        RemoveResult::RemovedOtherWorktree { branch } => no_nul(branch@),
    }
}

/// The hint shown when shell integration is not active.
pub fn shell_integration_hint() -> (r: &'static str)
    ensures
        r@ == "To enable automatic cd, run: wt configure-shell"@,
{
    "To enable automatic cd, run: wt configure-shell"
}

/// The view of an optional command argument.
pub open spec fn opt_str_view(o: Option<&str>) -> Option<Seq<char>> {
    match o {
        Some(s) => Some(s@),
        None => None,
    }
}

/// Everything a switch handler emits after the directives: the
/// success message, then either the execute announcement or the
/// shell-integration hint.
pub open spec fn spec_switch_tail(
    mode: OutputMode,
    result: SwitchResult,
    branch: Seq<char>,
    execute: Option<Seq<char>>,
    use_color: bool,
) -> Seq<char> {
    let th = default_theme();
    let cd: Seq<char> = if mode == OutputMode::Directive {
        "CHANGE_DIR\t"@ + spec_switch_path(result) + seq!['\n']
    } else {
        Seq::<char>::empty()
    };
    let msg = spec_format_switch_message(result, branch, use_color) + seq!['\n'];
    let tail: Seq<char> = match execute {
        Some(cmd) => "\u{1f504} "@ + st_if(use_color, th.primary, "Executing (--execute):"@) + seq!['\n']
            + spec_with_gutter(cmd) + seq!['\n'] + (if mode == OutputMode::Directive {
            "EXEC\t"@ + cmd + seq!['\n']
        } else {
            Seq::<char>::empty()
        }),
        None => seq!['\n'] + "To enable automatic cd, run: wt configure-shell"@ + seq!['\n'],
    };
    cd + msg + tail
}

/// Handle output for a switch operation: ask the shell for the
/// directory change, announce the result, and either hand the
/// command on for execution or show the shell-integration hint.
/// The returned command, if any, is to be spawned by the caller in
/// the worktree directory.
#[verifier::rlimit(60)]
pub fn handle_switch_output(
    ctx: &mut OutputContext,
    result: &SwitchResult,
    branch: &str,
    execute: Option<&str>,
    use_color: bool,
) -> (spawn: Option<String>)
    requires
        old(ctx).wf(),
        !old(ctx).terminated,
        no_nul(branch@),
        no_nul(spec_switch_path(*result)),
        execute matches Some(cmd) ==> no_nul(cmd@),
    ensures
        final(ctx).wf(),
        final(ctx).mode == old(ctx).mode,
        final(ctx).terminated == old(ctx).terminated,
        final(ctx).stream() == old(ctx).stream() + spec_switch_tail(
            old(ctx).mode,
            *result,
            branch@,
            opt_str_view(execute),
            use_color,
        ),
        old(ctx).mode == OutputMode::Directive ==> spawn is None,
        old(ctx).mode == OutputMode::Interactive ==> (match execute {
            Some(c) => spawn matches Some(s) && s@ == c@,
            None => spawn is None,
        }),
{
    ctx.change_directory(result.path().as_str());
    let msg = format_switch_message(result, branch, use_color);
    ctx.success(msg.as_str());
    let spawn: Option<String>;
    match execute {
        Some(cmd) => {
            let th = Theme::new();
            let mut announce = String::new();
            announce.append("\u{1f504} ");
            let c = styled_run_if(use_color, &th.primary, "Executing (--execute):");
            announce.append(c.as_str());
            proof {
                crate::style::lemma_style_no_nul(default_theme().primary);
                reveal_strlit("\u{1f504} ");
                reveal_strlit("Executing (--execute):");
            }
            ctx.progress(announce.as_str());
            let quoted = format_with_gutter(cmd);
            proof {
                lemma_gutter_no_nul(cmd@);
            }
            ctx.progress(quoted.as_str());
            spawn = ctx.execute(cmd);
        },
        None => {
            let mut hint_msg = String::new();
            hint_msg.append("\n");
            hint_msg.append(shell_integration_hint());
            proof {
                reveal_strlit("\n");
                reveal_strlit("To enable automatic cd, run: wt configure-shell");
            }
            ctx.hint(hint_msg.as_str());
            spawn = None;
        },
    }
    assert(final(ctx).stream() =~= old(ctx).stream() + spec_switch_tail(
        old(ctx).mode,
        *result,
        branch@,
        opt_str_view(execute),
        use_color,
    ));
    spawn
}

/// Everything a remove handler emits: the directory-change directive
/// when the current worktree went away, then the success message.
pub open spec fn spec_remove_tail(mode: OutputMode, result: RemoveResult, use_color: bool) -> Seq<char> {
    let cd: Seq<char> = if mode == OutputMode::Directive && (result matches
        RemoveResult::RemovedWorktree { .. }) {
        let path = match result {
            RemoveResult::RemovedWorktree { primary_path } => primary_path@,
            _ => Seq::<char>::empty(),
        };
        "CHANGE_DIR\t"@ + path + seq!['\n']
    } else {
        Seq::<char>::empty()
    };
    cd + spec_format_remove_message(result, use_color) + seq!['\n']
}

/// Handle output for a remove operation: when the removed worktree
/// was the current one, ask the shell to return to the primary path,
/// then announce the result.
pub fn handle_remove_output(ctx: &mut OutputContext, result: &RemoveResult, use_color: bool)
    requires
        old(ctx).wf(),
        !old(ctx).terminated,
        spec_remove_clean(*result),
    ensures
        final(ctx).wf(),
        final(ctx).mode == old(ctx).mode,
        final(ctx).terminated == old(ctx).terminated,
        final(ctx).stream() == old(ctx).stream() + spec_remove_tail(
            old(ctx).mode,
            *result,
            use_color,
        ),
{
    match result {
        RemoveResult::RemovedWorktree { primary_path } => {
            ctx.change_directory(primary_path.as_str());
        },
        _ => {},
    }
    let msg = format_remove_message(result, use_color);
    ctx.success(msg.as_str());
    assert(final(ctx).stream() =~= old(ctx).stream() + spec_remove_tail(
        old(ctx).mode,
        *result,
        use_color,
    ));
}

/// The message carried by a failed command's error.
pub open spec fn spec_command_failed_message(status_code: int) -> Seq<char> {
    "Command failed with exit code: "@ + int_rep(status_code)
}

/// Settle the outcome of an executed command: terminate the output
/// stream unconditionally, return success for a zero status and a
/// code-carrying error for any other, so the process can exit with
/// the child's own code.
pub fn execute_command_outcome(ctx: &mut OutputContext, status_code: i32) -> (r: Result<
    (),
    WorktrunkError,
>)
    requires
        old(ctx).wf(),
        !old(ctx).terminated,
    ensures
        final(ctx).wf(),
        final(ctx).mode == old(ctx).mode,
        final(ctx).terminated,
        old(ctx).mode == OutputMode::Directive ==> final(ctx).stream() == old(ctx).stream()
            + seq!['\0'],
        old(ctx).mode == OutputMode::Interactive ==> final(ctx).stream() == old(ctx).stream(),
        status_code == 0 <==> r is Ok,
        status_code != 0 ==> (r matches Err(e) && e matches WorktrunkError::ChildProcessExited {
            code,
            message,
        } && code == status_code && message@ == spec_command_failed_message(status_code as int)),
{
    ctx.terminate_output();
    if status_code == 0 {
        Ok(())
    } else {
        let mut message = String::new();
        message.append("Command failed with exit code: ");
        let num = i32_to_string(status_code);
        message.append(num.as_str());
        Err(WorktrunkError::ChildProcessExited { code: status_code, message })
    }
}

/// A child that exited with a non-zero status surfaces as an error
/// whose extracted exit code is exactly that status.
pub proof fn lemma_proxied_exit_code(status_code: i32, message: String)
    ensures
        crate::errors::spec_exit_code(
            crate::errors::AppError::Control(
                WorktrunkError::ChildProcessExited { code: status_code, message },
            ),
        ) == Some(status_code),
{
}

} // verus!
