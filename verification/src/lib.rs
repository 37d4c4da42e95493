//! Verified core of an adapter that stores, retrieves, updates and deletes
//! text notes inside a password vault driven through its command-line tool.
//! The decisions are here: which subcommand to run with which arguments,
//! what to stream to the tool's input, how to read its JSON output, how to
//! tell a missing entry from a genuine failure, and which terminal device
//! path to route unlock prompts to.  Running the tool itself is the thin
//! unverified shell around this crate.

mod classify;
mod error;
mod json;
mod ops;
mod payload;
mod records;
mod text;
mod tty;

pub use classify::{check_status, says_not_found, stderr_says_not_found};
pub use error::VaultError;
pub use json::{Json, json_of, obj_get, get_field};
pub use ops::{
    CmdOutput, PipedCmd, create_item, delete_item, edit_item, exit_ok, folder_matches,
    get_item, get_request, in_folder, item_decode, lemma_names_in_is_filter, list_decode,
    list_namespaces, list_request, listed_names, names_in,
    needs_unlock, remove_request, unlock_outcome, unlock_request, unlocked_request,
    write_outcome,
};
pub use payload::{
    build_payload, editor_notes, lemma_login_payload_notes, lemma_note_payload_notes,
    login_payload, note_payload,
};
pub use records::{
    EntryView, ItemView, ListItem, RbwItem, entries_of, entry_of, entry_views, item_of,
    parse_entries, parse_entry, parse_item,
};
pub use text::{contains_seq, starts_with, str_contains, str_starts_with, trim_str, trimmed};
pub use tty::{resolve_tty_path, resolved_tty};
