use vstd::prelude::*;
use crate::error::VaultError;
use crate::text::{contains_seq, str_contains, trim_str, trimmed};

verus! {

/// The diagnostic phrasings with which the vault tool reports a missing
/// entry; all three are aliases for the same condition.
pub open spec fn says_not_found(s: Seq<char>) -> bool {
    contains_seq(s, "no entry found"@) || contains_seq(s, "no items found"@) || contains_seq(
        s,
        "Entry not found"@,
    )
}

/// Does the tool's error text say the requested entry does not exist?
pub fn stderr_says_not_found(stderr: &str) -> (r: bool)
    ensures
        r == says_not_found(stderr@),
{
    str_contains(stderr, "no entry found") || str_contains(stderr, "no items found")
        || str_contains(stderr, "Entry not found")
}

/// Builds the fatal error for a failed capture-mode run: the command's
/// name, the exit code, and the trimmed error text.
pub(crate) fn command_failure(command: &str, code: Option<i32>, stderr: &str) -> (e: VaultError)
    ensures
        (e matches VaultError::CommandFailed { command: c, code: k, stderr: t } && c@
            == command@ && k == code && t@ == trimmed(stderr@)),
{
    VaultError::CommandFailed { command: command.to_owned(), code, stderr: trim_str(stderr) }
}

/// Turns a capture-mode exit into a result: zero exit passes, any other exit
/// is fatal and carries the command's name, the exit code, and the trimmed
/// error text.
pub fn check_status(command: &str, code: Option<i32>, stderr: &str) -> (r: Result<
    (),
    VaultError,
>)
    ensures
        code == Some(0i32) ==> r is Ok,
        code != Some(0i32) ==> (r matches Err(VaultError::CommandFailed {
            command: c,
            code: k,
            stderr: e,
        }) && c@ == command@ && k == code && e@ == trimmed(stderr@)),
{
    match code {
        Some(c) => {
            if c == 0 {
                return Ok(());
            }
        },
        None => {},
    }
    Err(command_failure(command, code, stderr))
}

} // verus!
