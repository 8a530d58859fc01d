//! Output and shell-integration layer for a git-worktree manager.
//!
//! The crate renders worktree/branch listings into a bounded terminal,
//! formats themed status and error messages, encodes shell-wrapper
//! directives with a sentinel-terminated stream, and maps errors to
//! process exit codes.

pub mod strings;
pub mod style;
pub mod error_format;
pub mod errors;
pub mod diff;
pub mod list;
pub mod layout;
pub mod output;
pub mod render;
pub mod handlers;
