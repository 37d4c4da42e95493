use vstd::prelude::*;

verus! {

/// The adapter's error taxonomy for finished runs of the vault tool.  A
/// missing entry on a fetch is not an error (the fetch returns an absent
/// result instead); a failure to spawn or wait for the tool never reaches
/// this crate and is reported by the shell around it.
#[derive(Debug)]
pub enum VaultError {
    /// The interactive unlock subcommand exited non-zero; there is no
    /// fallback.
    UnlockFailed { code: Option<i32> },
    /// A capture-mode subcommand exited non-zero (and, for a fetch, its
    /// diagnostic text did not say the entry is missing): the command's
    /// name, its exit code (`None` when it was killed before exiting), and
    /// its trimmed error text.
    CommandFailed { command: String, code: Option<i32>, stderr: String },
    /// A piped-write subcommand exited non-zero; its output streams were
    /// inherited, so no diagnostic text was captured.
    WriteFailed { code: Option<i32> },
    /// The tool's output was not the JSON shape its contract promises; not
    /// recoverable locally.
    ParseFailed { command: String },
}

} // verus!
