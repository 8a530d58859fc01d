use worktrunk::errors::{exit_code, AppError};
use worktrunk::handlers::execute_command_outcome;
use worktrunk::output::{OutputContext, OutputMode};

fn nul_count(s: &str) -> usize {
    s.chars().filter(|c| *c == '\0').count()
}

#[test]
fn directive_stream_ends_with_single_sentinel() {
    let mut ctx = OutputContext::new(OutputMode::Directive);
    ctx.change_directory("/work/feat");
    let spawn = ctx.execute("make test");
    assert!(spawn.is_none());
    ctx.terminate_output();
    let out = ctx.flush();
    assert_eq!(out, "CHANGE_DIR\t/work/feat\nEXEC\tmake test\n\0");
    assert_eq!(nul_count(&out), 1);
    assert!(out.ends_with('\0'));
}

#[test]
fn directive_error_path_still_terminates_once() {
    let mut ctx = OutputContext::new(OutputMode::Directive);
    ctx.success("started");
    // an error surfaces here; the handler still terminates the stream
    ctx.terminate_output();
    let out = ctx.flush();
    assert_eq!(nul_count(&out), 1);
    assert!(out.ends_with('\0'));
}

#[test]
fn interactive_stream_never_holds_sentinel() {
    let mut ctx = OutputContext::new(OutputMode::Interactive);
    ctx.success("done");
    ctx.change_directory("/work/feat");
    let spawn = ctx.execute("make test");
    assert_eq!(spawn.as_deref(), Some("make test"));
    ctx.terminate_output();
    let out = ctx.flush();
    assert_eq!(nul_count(&out), 0);
    assert_eq!(out, "done\n");
}

#[test]
fn flush_drains_in_order() {
    let mut ctx = OutputContext::new(OutputMode::Interactive);
    ctx.success("one");
    let first = ctx.flush();
    ctx.success("two");
    let second = ctx.flush();
    assert_eq!(first, "one\n");
    assert_eq!(second, "two\n");
    assert_eq!(ctx.flush(), "");
}

#[test]
fn echo_hello_streams_single_line_after_parent_output() {
    // The streamer contract: parent output is flushed before the
    // child runs, the child's merged stream is relayed line by line,
    // and a zero status is success.
    let mut ctx = OutputContext::new(OutputMode::Interactive);
    ctx.progress("running echo");
    let parent_chunk = ctx.flush();

    // the merged stream of `echo hello`, read line by line
    let child_lines = vec!["hello".to_string()];
    let mut observed = String::new();
    observed.push_str(&parent_chunk);
    for line in &child_lines {
        observed.push_str(line);
        observed.push('\n');
    }
    let outcome = execute_command_outcome(&mut ctx, 0);
    assert!(outcome.is_ok());

    assert_eq!(observed, "running echo\nhello\n");
    let hello_at = observed.find("hello").unwrap();
    assert!(hello_at >= parent_chunk.len());
    assert!(observed[..hello_at].ends_with('\n'));
}

#[test]
fn child_status_three_maps_to_exit_code_three() {
    let mut ctx = OutputContext::new(OutputMode::Interactive);
    let outcome = execute_command_outcome(&mut ctx, 3);
    let err = outcome.expect_err("non-zero status must fail");
    let app: AppError = err.into();
    assert_eq!(exit_code(&app), Some(3));
    if let AppError::Control(w) = &app {
        assert!(w.render(true).contains("Command failed with exit code: 3"));
    } else {
        panic!("wrong variant");
    }
}

#[test]
fn outcome_terminates_directive_stream() {
    let mut ctx = OutputContext::new(OutputMode::Directive);
    ctx.change_directory("/w");
    let outcome = execute_command_outcome(&mut ctx, 2);
    assert!(outcome.is_err());
    let out = ctx.flush();
    assert_eq!(nul_count(&out), 1);
    assert!(out.ends_with('\0'));
}
