//! The dual-mode output context and the directive protocol encoder.
//!
//! The context buffers everything the process wants on its primary
//! output stream. In `Interactive` mode messages are the only
//! content; in `Directive` mode action directives (`CHANGE_DIR`,
//! `EXEC`) are framed one per line, and `terminate_output` appends
//! the single NUL sentinel that tells the cooperating shell wrapper
//! where the directive stream ends. The caller drains the buffer with
//! `flush` and writes it out; draining before spawning a child is
//! what keeps parent output ahead of child output.

use crate::strings::{count_occ, lemma_count_occ_concat, lemma_count_occ_zero, no_nul};
use vstd::prelude::*;

verus! {

/// How the process was invoked: plain interactive output, or the
/// directive protocol for a cooperating shell wrapper. Decided once
/// per process and immutable afterwards.
#[derive(Clone, Copy, Debug, PartialEq, Eq, Structural)]
pub enum OutputMode {
    Interactive,
    Directive,
}

/// The process-scoped output context: the active mode, the not yet
/// drained output, and whether the stream was terminated.
pub struct OutputContext {
    pub mode: OutputMode,
    /// Output produced and not yet handed out by `flush`.
    pub pending: String,
    /// Everything `flush` already handed out, as one ghost stream.
    pub drained: Ghost<Seq<char>>,
    pub terminated: bool,
}

impl OutputContext {
    /// Everything the context has produced so far, drained or not.
    pub open spec fn stream(self) -> Seq<char> {
        self.drained@ + self.pending@
    }

    /// Well-formedness: an interactive stream never holds the
    /// sentinel; a directive stream holds it exactly once, at the
    /// very end, once terminated, and not at all before.
    pub open spec fn wf(self) -> bool {
        match self.mode {
            OutputMode::Interactive => no_nul(self.stream()),
            OutputMode::Directive => if self.terminated {
                self.stream().len() >= 1 && self.stream().last() == '\0' && no_nul(
                    self.stream().drop_last(),
                )
            } else {
                no_nul(self.stream())
            },
        }
    }

    /// A fresh context: fixed mode, empty stream, not terminated.
    pub fn new(mode: OutputMode) -> (ctx: OutputContext)
        ensures
            ctx.wf(),
            ctx.mode == mode,
            !ctx.terminated,
            ctx.stream() == Seq::<char>::empty(),
            ctx.pending@ == Seq::<char>::empty(),
    {
        let ctx = OutputContext {
            mode,
            pending: String::new(),
            drained: Ghost(Seq::empty()),
            terminated: false,
        };
        assert(ctx.stream() =~= Seq::<char>::empty());
        ctx
    }

    /// Emit exactly one line: the message followed by a newline.
    pub fn emit_line(&mut self, msg: &str)
        requires
            old(self).wf(),
            !old(self).terminated,
            no_nul(msg@),
        ensures
            final(self).wf(),
            final(self).mode == old(self).mode,
            final(self).terminated == old(self).terminated,
            final(self).drained == old(self).drained,
            final(self).stream() == old(self).stream() + msg@ + seq!['\n'],
    {
        self.pending.append(msg);
        crate::strings::push_char(&mut self.pending, '\n');
        assert(final(self).stream() =~= old(self).stream() + msg@ + seq!['\n']);
    }

    /// Emit a success message: a plain user-visible line in both
    /// modes.
    pub fn success(&mut self, msg: &str)
        requires
            old(self).wf(),
            !old(self).terminated,
            no_nul(msg@),
        ensures
            final(self).wf(),
            final(self).mode == old(self).mode,
            final(self).terminated == old(self).terminated,
            final(self).drained == old(self).drained,
            final(self).stream() == old(self).stream() + msg@ + seq!['\n'],
    {
        self.emit_line(msg)
    }

    /// Emit a hint message: a plain user-visible line in both modes.
    pub fn hint(&mut self, msg: &str)
        requires
            old(self).wf(),
            !old(self).terminated,
            no_nul(msg@),
        ensures
            final(self).wf(),
            final(self).mode == old(self).mode,
            final(self).terminated == old(self).terminated,
            final(self).drained == old(self).drained,
            final(self).stream() == old(self).stream() + msg@ + seq!['\n'],
    {
        self.emit_line(msg)
    }

    /// Emit a progress message: a plain user-visible line in both
    /// modes.
    pub fn progress(&mut self, msg: &str)
        requires
            old(self).wf(),
            !old(self).terminated,
            no_nul(msg@),
        ensures
            final(self).wf(),
            final(self).mode == old(self).mode,
            final(self).terminated == old(self).terminated,
            final(self).drained == old(self).drained,
            final(self).stream() == old(self).stream() + msg@ + seq!['\n'],
    {
        self.emit_line(msg)
    }

    /// Ask the invoking shell to change its working directory: in
    /// directive mode a `CHANGE_DIR` directive is framed; in
    /// interactive mode nothing is emitted — the process cannot alter
    /// its parent shell.
    pub fn change_directory(&mut self, path: &str)
        requires
            old(self).wf(),
            !old(self).terminated,
            no_nul(path@),
        ensures
            final(self).wf(),
            final(self).mode == old(self).mode,
            final(self).terminated == old(self).terminated,
            old(self).mode == OutputMode::Directive ==> final(self).stream() == old(self).stream()
                + "CHANGE_DIR\t"@ + path@ + seq!['\n'],
            old(self).mode == OutputMode::Interactive ==> *final(self) == *old(self),
    {
        match self.mode {
            OutputMode::Directive => {
                proof {
                    reveal_strlit("CHANGE_DIR\t");
                }
                self.pending.append("CHANGE_DIR\t");
                self.pending.append(path);
                crate::strings::push_char(&mut self.pending, '\n');
                assert(final(self).stream() =~= old(self).stream() + "CHANGE_DIR\t"@ + path@
                    + seq!['\n']);
            },
            OutputMode::Interactive => {},
        }
    }

    /// Run a command on the user's behalf: in directive mode an
    /// `EXEC` directive is framed for the shell wrapper (preserving
    /// its aliases and environment) and nothing is returned; in
    /// interactive mode the command comes back so the caller spawns
    /// it as a child process itself.
    pub fn execute(&mut self, cmd: &str) -> (spawn: Option<String>)
        requires
            old(self).wf(),
            !old(self).terminated,
            no_nul(cmd@),
        ensures
            final(self).wf(),
            final(self).mode == old(self).mode,
            final(self).terminated == old(self).terminated,
            old(self).mode == OutputMode::Directive ==> final(self).stream() == old(self).stream()
                + "EXEC\t"@ + cmd@ + seq!['\n'] && spawn is None,
            old(self).mode == OutputMode::Interactive ==> *final(self) == *old(self) && (
            spawn matches Some(c) && c@ == cmd@),
    {
        match self.mode {
            OutputMode::Directive => {
                proof {
                    reveal_strlit("EXEC\t");
                }
                self.pending.append("EXEC\t");
                self.pending.append(cmd);
                crate::strings::push_char(&mut self.pending, '\n');
                assert(final(self).stream() =~= old(self).stream() + "EXEC\t"@ + cmd@
                    + seq!['\n']);
                None
            },
            OutputMode::Interactive => {
                let mut c = String::new();
                c.append(cmd);
                Some(c)
            },
        }
    }

    /// Drain the buffered output. The caller writes the returned
    /// chunk to the primary stream before any further action — in
    /// particular before spawning a child that shares the stream.
    pub fn flush(&mut self) -> (out: String)
        requires
            old(self).wf(),
        ensures
            final(self).wf(),
            final(self).mode == old(self).mode,
            final(self).terminated == old(self).terminated,
            out@ == old(self).pending@,
            final(self).pending@ == Seq::<char>::empty(),
            final(self).stream() == old(self).stream(),
    {
        let mut out = String::new();
        core::mem::swap(&mut out, &mut self.pending);
        let ghost new_drained = self.drained@ + out@;
        self.drained = Ghost(new_drained);
        assert(final(self).stream() =~= old(self).stream());
        out
    }

    /// Mark the end of the invocation's output: in directive mode
    /// this appends the single NUL sentinel after which the wrapper
    /// stops parsing; in interactive mode nothing is emitted. Must be
    /// called on every exit path, success or error.
    pub fn terminate_output(&mut self)
        requires
            old(self).wf(),
            !old(self).terminated,
        ensures
            final(self).wf(),
            final(self).mode == old(self).mode,
            final(self).terminated,
            old(self).mode == OutputMode::Directive ==> final(self).stream() == old(self).stream()
                + seq!['\0'],
            old(self).mode == OutputMode::Interactive ==> final(self).stream() == old(
                self,
            ).stream(),
    {
        match self.mode {
            OutputMode::Directive => {
                crate::strings::push_char(&mut self.pending, '\0');
                self.terminated = true;
                assert(final(self).stream() =~= old(self).stream() + seq!['\0']);
                assert(final(self).stream().drop_last() =~= old(self).stream());
            },
            OutputMode::Interactive => {
                self.terminated = true;
            },
        }
    }
}

/// A terminated directive-mode stream carries exactly one sentinel,
/// and it is the very last byte.
pub proof fn lemma_directive_single_sentinel(ctx: OutputContext)
    requires
        ctx.wf(),
        ctx.mode == OutputMode::Directive,
        ctx.terminated,
    ensures
        count_occ(ctx.stream(), '\0') == 1,
        ctx.stream().last() == '\0',
{
    let s = ctx.stream();
    assert(s =~= s.drop_last() + seq![s.last()]);
    lemma_count_occ_concat(s.drop_last(), seq![s.last()], '\0');
    lemma_count_occ_zero(s.drop_last(), '\0');
    assert(count_occ(seq![s.last()], '\0') == 1) by {
        assert(seq![s.last()].drop_last() =~= Seq::<char>::empty());
    }
}

/// An interactive-mode stream never carries the sentinel, terminated
/// or not.
pub proof fn lemma_interactive_no_sentinel(ctx: OutputContext)
    requires
        ctx.wf(),
        ctx.mode == OutputMode::Interactive,
    ensures
        count_occ(ctx.stream(), '\0') == 0,
        no_nul(ctx.stream()),
{
    lemma_count_occ_zero(ctx.stream(), '\0');
}

} // verus!
