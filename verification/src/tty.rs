use vstd::prelude::*;
use crate::text::{starts_with, str_starts_with};

verus! {

/// The prefix under which real terminal device paths live.
pub open spec fn dev_prefix() -> Seq<char> {
    "/dev/"@
}

/// Which terminal path the resolver yields, given what the two descriptor
/// probes found and whether the generic controlling-terminal device exists.
/// The error-output target wins when it is a device path (the caller may
/// have redirected standard output while a real terminal is still attached
/// there), then the standard-input target, then the generic device; when all
/// three checks fail there is no terminal hint.
pub open spec fn resolved_tty(
    stderr_target: Option<Seq<char>>,
    stdin_target: Option<Seq<char>>,
    dev_tty_exists: bool,
) -> Option<Seq<char>> {
    if stderr_target is Some && starts_with(stderr_target->Some_0, dev_prefix()) {
        stderr_target
    } else if stdin_target is Some && starts_with(stdin_target->Some_0, dev_prefix()) {
        stdin_target
    } else if dev_tty_exists {
        Some("/dev/tty"@)
    } else {
        None
    }
}

/// Picks the absolute terminal device path to hand to the vault tool's
/// detached agent, from the targets the caller's descriptor probes resolved
/// to and whether the generic controlling-terminal device exists.
pub fn resolve_tty_path(
    stderr_target: Option<&str>,
    stdin_target: Option<&str>,
    dev_tty_exists: bool,
) -> (r: Option<String>)
    ensures
        r.deep_view() == resolved_tty(
            stderr_target.deep_view(),
            stdin_target.deep_view(),
            dev_tty_exists,
        ),
{
    if let Some(p) = stderr_target {
        if str_starts_with(p, "/dev/") {
            return Some(p.to_owned());
        }
    }
    if let Some(p) = stdin_target {
        if str_starts_with(p, "/dev/") {
            return Some(p.to_owned());
        }
    }
    if dev_tty_exists {
        return Some("/dev/tty".to_owned());
    }
    None
}

} // verus!
